use ed25519_dalek::SigningKey;
use pos_ledger::ledger::Ledger;

fn ident(tag: u8) -> Vec<u8> {
    SigningKey::from_bytes(&[tag; 32]).verifying_key().to_bytes().to_vec()
}

#[test]
fn empty_registry_selects_nobody() {
    let l = Ledger::new();
    assert_eq!(l.select_validator(), None);
    assert_eq!(l.registry.select_validator_with(42), None);
}

#[test]
fn all_zero_weights_select_nobody() {
    let mut l = Ledger::new();
    let id = ident(1);
    assert_eq!(l.register_validator(&id, 1000), Ok(()));
    l.adjust_contribution(&id, -1000);
    assert_eq!(l.registry.validators[0].contribution_score, 0);
    assert_eq!(l.registry.select_validator_with(0), None);
    assert_eq!(l.select_validator(), None);
}

#[test]
fn selection_frequency_is_exactly_proportional_to_weight() {
    // Stakes 1 and 2 at the default score of one: weights 1000 and 2000
    // thousandths, total 3000. Over every reduced draw each validator is
    // selected exactly in proportion to its weight.
    let mut l = Ledger::with_policy(1, 1000, 500);
    let a = ident(1);
    let b = ident(2);
    assert_eq!(l.register_validator(&a, 1), Ok(()));
    assert_eq!(l.register_validator(&b, 2), Ok(()));
    let mut count_a: u64 = 0;
    let mut count_b: u64 = 0;
    for draw in 0u128..3000 {
        match l.registry.select_validator_with(draw) {
            Some(k) if k == a => count_a += 1,
            Some(k) if k == b => count_b += 1,
            other => panic!("unexpected selection {:?}", other),
        }
    }
    assert_eq!(count_a, 1000);
    assert_eq!(count_b, 2000);
}

#[test]
fn selection_walks_identities_in_canonical_order() {
    // The identity with the smaller key bytes owns the first weight
    // interval, whatever the registration order.
    let mut l = Ledger::with_policy(1, 1000, 500);
    let small = ident(1);
    let large = ident(2);
    let (first, second) = if small < large {
        (small.clone(), large.clone())
    } else {
        (large.clone(), small.clone())
    };
    assert_eq!(l.register_validator(&second, 5), Ok(()));
    assert_eq!(l.register_validator(&first, 5), Ok(()));
    assert_eq!(l.registry.select_validator_with(0), Some(first.clone()));
    assert_eq!(l.registry.select_validator_with(4999), Some(first));
    assert_eq!(l.registry.select_validator_with(5000), Some(second.clone()));
    assert_eq!(l.registry.select_validator_with(9999), Some(second.clone()));
    // Draws beyond the total wrap around by reduction.
    let wrapped = l.registry.select_validator_with(10000);
    assert_eq!(wrapped, l.registry.select_validator_with(0));
    assert_eq!(l.registry.select_validator_with(15000), Some(second));
}

#[test]
fn random_selection_returns_a_registered_validator() {
    let mut l = Ledger::new();
    let a = ident(1);
    let b = ident(2);
    assert_eq!(l.register_validator(&a, 1000), Ok(()));
    assert_eq!(l.register_validator(&b, 3000), Ok(()));
    for _ in 0..32 {
        let chosen = l.select_validator().unwrap();
        assert!(chosen == a || chosen == b);
    }
}
