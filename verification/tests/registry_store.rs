//! The registry on its own: a keyed store with a monotonic identifier
//! counter that never wraps silently.

use token_swap::registry::SwapRegistry;
use token_swap::swap::Swap;

fn record(creator: u64) -> Swap {
    Swap {
        creator,
        token_a: 10,
        token_b: 11,
        amount_a: 50,
        amount_b: 100,
        expiration: 10,
        accepted_a: 0,
        accepted_b: 0,
        allowed_acceptor: None,
    }
}

#[test]
fn stores_and_removes_records_by_identifier() {
    let mut registry = SwapRegistry::new();
    assert!(!registry.contains(0));
    assert_eq!(registry.get(0), None);

    registry.insert(0, record(2));
    assert!(registry.contains(0));
    assert_eq!(registry.get(0).unwrap().creator, 2);

    registry.insert(0, record(3));
    assert_eq!(registry.get(0).unwrap().creator, 3);

    registry.remove(0);
    assert!(!registry.contains(0));
    assert_eq!(registry.get(0), None);
}

#[test]
fn allocation_hands_out_sequential_identifiers() {
    let mut registry = SwapRegistry::new();
    assert_eq!(registry.peek_next_id(), 0);
    assert_eq!(registry.allocate_next_id(), Ok(0));
    assert_eq!(registry.allocate_next_id(), Ok(1));
    assert_eq!(registry.peek_next_id(), 2);
    // removal never gives an identifier back
    registry.insert(0, record(2));
    registry.remove(0);
    assert_eq!(registry.allocate_next_id(), Ok(2));
}
