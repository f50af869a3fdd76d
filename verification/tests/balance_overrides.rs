use trade_verifier::abi::{encode_allowance, encode_balance_of};
use trade_verifier::address::Address;
use trade_verifier::chain::{CallResult, StorageOverride};
use trade_verifier::hash::{mapping_slot, nested_mapping_slot};
use trade_verifier::overrides::{
    absorb_probe, probe_matches, resolve, storage_key, storage_override, BalanceOverrides,
    OverridePolicy, OverrideRequest, OverrideTarget, Resolution, SlotKind, SlotLookup,
    PROBE_VALUE,
};
use trade_verifier::slots::SlotMap;
use trade_verifier::u256::U256;

fn token(n: u64) -> Address {
    Address { hi: 0xaa, mid: 0, lo: n }
}

fn account(n: u64) -> Address {
    Address { hi: 0xbb, mid: 0, lo: n }
}

fn balance_request(t: Address, holder: Address, amount: u64) -> OverrideRequest {
    OverrideRequest {
        token: t,
        target: OverrideTarget::Balance { holder },
        amount: U256::from_u64(amount),
    }
}

fn returned(value: U256) -> CallResult {
    CallResult { reverted: false, return_data: value.to_be_bytes(), gas_used: 0 }
}

#[test]
fn slot_map_later_insert_replaces_earlier() {
    let mut map = SlotMap::new();
    assert_eq!(map.get(&token(1)), None);
    assert!(!map.contains(&token(1)));
    map.insert(token(1), U256::from_u64(3));
    map.insert(token(2), U256::from_u64(9));
    assert_eq!(map.get(&token(1)), Some(U256::from_u64(3)));
    map.insert(token(1), U256::from_u64(5));
    assert_eq!(map.get(&token(1)), Some(U256::from_u64(5)));
    assert_eq!(map.get(&token(2)), Some(U256::from_u64(9)));
    assert!(map.contains(&token(2)));
    map.clear();
    assert_eq!(map.get(&token(1)), None);
    assert_eq!(map.get(&token(2)), None);
}

#[test]
fn slot_map_insert_if_absent_keeps_the_first() {
    let mut map = SlotMap::new();
    assert_eq!(map.insert_if_absent(token(1), U256::from_u64(3)), U256::from_u64(3));
    assert_eq!(map.insert_if_absent(token(1), U256::from_u64(4)), U256::from_u64(3));
    assert_eq!(map.get(&token(1)), Some(U256::from_u64(3)));
    assert_eq!(map.insert_if_absent(token(2), U256::from_u64(4)), U256::from_u64(4));
}

#[test]
fn default_has_nothing_configured_and_detects_nothing() {
    let overrides = BalanceOverrides::default();
    assert!(!overrides.autodetect());
    assert_eq!(overrides.probe_bound(), 0);
    assert_eq!(overrides.lookup(SlotKind::Balance, &token(1)), SlotLookup::Unavailable);
    assert_eq!(overrides.lookup(SlotKind::Allowance, &token(1)), SlotLookup::Unavailable);
}

#[test]
fn configured_slot_takes_precedence_over_detected() {
    let mut overrides = BalanceOverrides::new(true, 10);
    assert_eq!(overrides.lookup(SlotKind::Balance, &token(1)), SlotLookup::NeedsDetection);
    overrides.record_detected(SlotKind::Balance, token(1), U256::from_u64(7));
    assert_eq!(
        overrides.lookup(SlotKind::Balance, &token(1)),
        SlotLookup::Known(U256::from_u64(7))
    );
    overrides.configure(SlotKind::Balance, token(1), U256::from_u64(2));
    assert_eq!(
        overrides.lookup(SlotKind::Balance, &token(1)),
        SlotLookup::Known(U256::from_u64(2))
    );
}

#[test]
fn kinds_and_tokens_are_kept_apart() {
    let mut overrides = BalanceOverrides::new(true, 10);
    overrides.configure(SlotKind::Balance, token(1), U256::from_u64(2));
    overrides.record_detected(SlotKind::Allowance, token(2), U256::from_u64(5));
    assert_eq!(overrides.lookup(SlotKind::Allowance, &token(1)), SlotLookup::NeedsDetection);
    assert_eq!(overrides.lookup(SlotKind::Balance, &token(2)), SlotLookup::NeedsDetection);
    assert_eq!(
        overrides.lookup(SlotKind::Allowance, &token(2)),
        SlotLookup::Known(U256::from_u64(5))
    );
    assert_eq!(overrides.lookup(SlotKind::Balance, &token(3)), SlotLookup::NeedsDetection);
}

#[test]
fn first_detected_slot_stays() {
    let mut overrides = BalanceOverrides::new(true, 10);
    let held = overrides.record_detected(SlotKind::Balance, token(1), U256::from_u64(3));
    assert_eq!(held, U256::from_u64(3));
    let held = overrides.record_detected(SlotKind::Balance, token(1), U256::from_u64(4));
    assert_eq!(held, U256::from_u64(3));
    assert_eq!(
        overrides.lookup(SlotKind::Balance, &token(1)),
        SlotLookup::Known(U256::from_u64(3))
    );
}

#[test]
fn detected_slots_are_ignored_while_detection_is_off() {
    let mut overrides = BalanceOverrides::new(false, 10);
    overrides.record_detected(SlotKind::Balance, token(1), U256::from_u64(3));
    assert_eq!(overrides.lookup(SlotKind::Balance, &token(1)), SlotLookup::Unavailable);
}

#[test]
fn invalidate_forgets_detected_slots_only() {
    let mut overrides = BalanceOverrides::new(true, 10);
    overrides.configure(SlotKind::Balance, token(1), U256::from_u64(2));
    overrides.record_detected(SlotKind::Balance, token(2), U256::from_u64(3));
    overrides.record_detected(SlotKind::Allowance, token(2), U256::from_u64(4));
    overrides.invalidate();
    assert_eq!(
        overrides.lookup(SlotKind::Balance, &token(1)),
        SlotLookup::Known(U256::from_u64(2))
    );
    assert_eq!(overrides.lookup(SlotKind::Balance, &token(2)), SlotLookup::NeedsDetection);
    assert_eq!(overrides.lookup(SlotKind::Allowance, &token(2)), SlotLookup::NeedsDetection);
    assert!(overrides.autodetect());
    assert_eq!(overrides.probe_bound(), 10);
}

#[test]
fn storage_key_of_a_balance_is_the_mapping_entry_of_the_holder() {
    let target = OverrideTarget::Balance { holder: account(1) };
    assert_eq!(target.kind(), SlotKind::Balance);
    assert_eq!(
        storage_key(&target, &U256::from_u64(3)),
        mapping_slot(&account(1).to_word(), &U256::from_u64(3))
    );
}

#[test]
fn storage_key_of_an_allowance_goes_by_owner_then_spender() {
    let target = OverrideTarget::Allowance { owner: account(1), spender: account(2) };
    assert_eq!(target.kind(), SlotKind::Allowance);
    let expected =
        nested_mapping_slot(&account(1).to_word(), &account(2).to_word(), &U256::from_u64(4));
    assert_eq!(storage_key(&target, &U256::from_u64(4)), expected);
    let swapped = OverrideTarget::Allowance { owner: account(2), spender: account(1) };
    assert_ne!(storage_key(&swapped, &U256::from_u64(4)), expected);
}

#[test]
fn storage_override_writes_the_amount_at_the_key() {
    let request = balance_request(token(1), account(1), 500);
    assert_eq!(
        storage_override(&request, &U256::from_u64(3)),
        StorageOverride {
            contract: token(1),
            key: mapping_slot(&account(1).to_word(), &U256::from_u64(3)),
            value: U256::from_u64(500),
        }
    );
}

#[test]
fn resolve_uses_the_configured_slot() {
    let mut overrides = BalanceOverrides::new(true, 10);
    overrides.configure(SlotKind::Balance, token(1), U256::from_u64(3));
    let request = balance_request(token(1), account(1), 500);
    match resolve(&overrides, &request, 0) {
        Resolution::Ready(found) => {
            assert_eq!(found, storage_override(&request, &U256::from_u64(3)))
        }
        other => panic!("expected an override, got {:?}", other),
    }
}

#[test]
fn resolve_gives_up_without_configuration_or_detection() {
    let overrides = BalanceOverrides::new(false, 10);
    let request = balance_request(token(1), account(1), 500);
    assert!(matches!(resolve(&overrides, &request, 0), Resolution::Unavailable));
}

#[test]
fn resolve_probes_candidates_below_the_bound() {
    let overrides = BalanceOverrides::new(true, 2);
    let request = balance_request(token(1), account(1), 500);
    match resolve(&overrides, &request, 1) {
        Resolution::Probe { call, write } => {
            assert_eq!(call.target, token(1));
            assert_eq!(call.data, encode_balance_of(&account(1)));
            assert_eq!(call.value, U256::zero());
            assert_eq!(write.contract, token(1));
            assert_eq!(write.key, mapping_slot(&account(1).to_word(), &U256::from_u64(1)));
            assert_eq!(write.value, U256::from_u64(PROBE_VALUE));
        }
        other => panic!("expected a probe, got {:?}", other),
    }
    assert!(matches!(resolve(&overrides, &request, 2), Resolution::Unavailable));
    assert!(matches!(resolve(&overrides, &request, u64::MAX), Resolution::Unavailable));
}

#[test]
fn resolve_probes_an_allowance_with_the_allowance_query() {
    let overrides = BalanceOverrides::new(true, 2);
    let request = OverrideRequest {
        token: token(1),
        target: OverrideTarget::Allowance { owner: account(1), spender: account(2) },
        amount: U256::from_u64(500),
    };
    match resolve(&overrides, &request, 0) {
        Resolution::Probe { call, write } => {
            assert_eq!(call.data, encode_allowance(&account(1), &account(2)));
            assert_eq!(
                write.key,
                nested_mapping_slot(&account(1).to_word(), &account(2).to_word(), &U256::zero())
            );
        }
        other => panic!("expected a probe, got {:?}", other),
    }
}

#[test]
fn probe_value_is_not_zero() {
    assert_ne!(PROBE_VALUE, 0);
}

#[test]
fn probe_matches_only_the_probe_value_returned_without_revert() {
    assert!(probe_matches(&returned(U256::from_u64(PROBE_VALUE))));
    assert!(!probe_matches(&returned(U256::zero())));
    assert!(!probe_matches(&returned(U256::from_u64(PROBE_VALUE + 1))));
    assert!(!probe_matches(&CallResult {
        reverted: true,
        return_data: U256::from_u64(PROBE_VALUE).to_be_bytes(),
        gas_used: 0,
    }));
    assert!(!probe_matches(&CallResult { reverted: false, return_data: vec![], gas_used: 0 }));
    let mut long = U256::from_u64(PROBE_VALUE).to_be_bytes();
    long.push(0);
    assert!(!probe_matches(&CallResult { reverted: false, return_data: long, gas_used: 0 }));
}

#[test]
fn a_miss_moves_on_to_the_next_candidate() {
    let mut overrides = BalanceOverrides::new(true, 10);
    let request = balance_request(token(1), account(1), 500);
    let next = absorb_probe(&mut overrides, &request, 4, &returned(U256::zero()));
    assert_eq!(next, 5);
    assert_eq!(overrides.lookup(SlotKind::Balance, &token(1)), SlotLookup::NeedsDetection);
    let next = absorb_probe(&mut overrides, &request, u64::MAX, &returned(U256::zero()));
    assert_eq!(next, u64::MAX);
}

#[test]
fn a_hit_is_remembered_for_the_token_and_kind() {
    let mut overrides = BalanceOverrides::new(true, 10);
    let request = balance_request(token(1), account(1), 500);
    let next = absorb_probe(&mut overrides, &request, 4, &returned(U256::from_u64(PROBE_VALUE)));
    assert_eq!(next, 4);
    assert_eq!(
        overrides.lookup(SlotKind::Balance, &token(1)),
        SlotLookup::Known(U256::from_u64(4))
    );
    assert_eq!(overrides.lookup(SlotKind::Allowance, &token(1)), SlotLookup::NeedsDetection);
    assert_eq!(overrides.lookup(SlotKind::Balance, &token(2)), SlotLookup::NeedsDetection);
    let other = balance_request(token(1), account(2), 1);
    match resolve(&overrides, &other, 0) {
        Resolution::Ready(found) => {
            assert_eq!(found, storage_override(&other, &U256::from_u64(4)))
        }
        unexpected => panic!("expected an override, got {:?}", unexpected),
    }
}

#[test]
fn policy_is_the_configured_slot_else_detection_where_enabled() {
    let mut detecting = BalanceOverrides::new(true, 10);
    detecting.configure(SlotKind::Balance, token(1), U256::from_u64(2));
    assert_eq!(
        detecting.policy(SlotKind::Balance, &token(1)),
        OverridePolicy::Explicit(U256::from_u64(2))
    );
    assert_eq!(detecting.policy(SlotKind::Allowance, &token(1)), OverridePolicy::AutoDetect);
    assert_eq!(detecting.policy(SlotKind::Balance, &token(2)), OverridePolicy::AutoDetect);
    detecting.record_detected(SlotKind::Balance, token(2), U256::from_u64(7));
    assert_eq!(detecting.policy(SlotKind::Balance, &token(2)), OverridePolicy::AutoDetect);

    let mut fixed = BalanceOverrides::new(false, 10);
    fixed.configure(SlotKind::Allowance, token(1), U256::from_u64(5));
    assert_eq!(
        fixed.policy(SlotKind::Allowance, &token(1)),
        OverridePolicy::Explicit(U256::from_u64(5))
    );
    assert_eq!(fixed.policy(SlotKind::Balance, &token(1)), OverridePolicy::Disabled);
}
