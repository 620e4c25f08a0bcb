use learnsolana::{initialize, Failure, Initialize, Pool, PoolError, Pubkey};

fn pool_with(capacity: u16, payers: usize) -> Pool {
    Pool {
        pool_owner: Pubkey::new_from_array([1; 32]),
        bump: 255,
        capacity,
        name: "demo".to_string(),
        payers: vec![Pubkey::new_from_array([2; 32]); payers],
    }
}

#[test]
fn space_of_demo_with_two_payers_is_119_bytes() {
    assert_eq!(Pool::space("demo", 2), 8 + 32 + 1 + 2 + 4 + 4 + 4 + 2 * 32);
    assert_eq!(Pool::space("demo", 2), 119);
}

#[test]
fn space_of_an_unnamed_pool_without_payers_is_51_bytes() {
    assert_eq!(Pool::space("", 0), 51);
}

#[test]
fn space_grows_by_one_byte_with_each_byte_of_the_name() {
    assert_eq!(Pool::space("a", 0), 52);
    assert_eq!(Pool::space("ab", 0), 53);
    // Three bytes in one character.
    assert_eq!(Pool::space("\u{20ac}", 0), 54);
}

#[test]
fn space_grows_by_32_bytes_with_each_payer() {
    assert_eq!(Pool::space("", 1), 83);
    assert_eq!(Pool::space("", 2), 115);
    assert_eq!(Pool::space("", 3), 147);
}

#[test]
fn space_counts_the_whole_name_not_only_its_seed() {
    let name = "n".repeat(64);
    assert_eq!(Pool::space(&name, 1), 51 + 64 + 32);
}

#[test]
fn space_of_the_largest_capacity() {
    assert_eq!(Pool::space("demo", u16::MAX), 51 + 4 + 32 * 65535);
    assert_eq!(Pool::space("demo", u16::MAX), 2_097_175);
}

#[test]
fn a_pool_is_full_when_its_payers_reach_its_capacity() {
    assert!(!pool_with(2, 0).is_full());
    assert!(!pool_with(2, 1).is_full());
    assert!(pool_with(2, 2).is_full());
}

#[test]
fn a_pool_without_capacity_is_full_from_the_start() {
    assert!(pool_with(0, 0).is_full());
}

#[test]
fn payers_full_has_its_message() {
    assert_eq!(PoolError::PayersFull.message(), "Payer list is full");
}

#[test]
fn wrong_pool_owner_has_its_message() {
    assert_eq!(PoolError::WrongPoolOwner.message(), "Pool owner is wrong");
}

#[test]
fn initialize_succeeds() {
    assert_eq!(initialize(&Initialize {}), Ok::<(), Failure>(()));
}

#[test]
fn checked_space_is_the_space_where_it_fits() {
    assert_eq!(Pool::checked_space("demo", 2), Some(119));
    assert_eq!(Pool::checked_space("", 0), Some(51));
    assert_eq!(Pool::checked_space("demo", u16::MAX), Some(2_097_175));
    let name = "n".repeat(1000);
    assert_eq!(Pool::checked_space(&name, 3), Some(Pool::space(&name, 3)));
}
