use wallet_program::constants::{wallet_seed, WALLET_FIXED_LEN};
use wallet_program::{Pubkey, Wallet, WalletAccount};

fn account_with_space(space: usize) -> WalletAccount {
    WalletAccount {
        address: Pubkey::new_from_array([9u8; 32]),
        space,
        data: Wallet {
            bump: 255,
            uid: *b"abc123",
            owner: Pubkey::new_from_array([1u8; 32]),
            guardians: vec![],
            recovery_grace_period: 0,
            updated_at: 0,
        },
    }
}

#[test]
fn size_of_counts_the_fixed_part_alone_for_no_guardians() {
    assert_eq!(Wallet::size_of(0), 67);
    assert_eq!(Wallet::size_of(0), 8 + 1 + 6 + 32 + 4 + 8 + 8);
    assert_eq!(WALLET_FIXED_LEN, 67);
}

#[test]
fn size_of_adds_thirty_two_bytes_for_each_guardian() {
    assert_eq!(Wallet::size_of(1), 99);
    assert_eq!(Wallet::size_of(3), 163);
    assert_eq!(Wallet::size_of(10), 387);
}

#[test]
fn size_of_takes_the_largest_capacity() {
    assert_eq!(Wallet::size_of(255), 8227);
}

#[test]
fn wallet_seed_is_the_domain_tag() {
    assert_eq!(wallet_seed(), b"wallet".to_vec());
}

#[test]
fn zero_identity_is_thirty_two_zero_bytes() {
    assert_eq!(Pubkey::default().to_bytes(), [0u8; 32]);
    assert_eq!(
        Pubkey::default().to_bytes(),
        anchor_lang::prelude::Pubkey::default().to_bytes()
    );
}

#[test]
fn identity_keeps_its_bytes() {
    let mut bytes = [0u8; 32];
    bytes[0] = 7;
    bytes[31] = 200;
    let key = Pubkey::new_from_array(bytes);
    assert_eq!(key.to_bytes(), bytes);
    assert_eq!(key.bytes, bytes);
}

#[test]
fn same_as_compares_every_byte() {
    let a = Pubkey::new_from_array([5u8; 32]);
    let b = Pubkey::new_from_array([5u8; 32]);
    let mut differing = [5u8; 32];
    differing[31] = 6;
    let c = Pubkey::new_from_array(differing);
    let mut differing_first = [5u8; 32];
    differing_first[0] = 4;
    let d = Pubkey::new_from_array(differing_first);
    assert!(a.same_as(&b));
    assert!(a.same_as(&a));
    assert!(!a.same_as(&c));
    assert!(!a.same_as(&d));
    assert!(!c.same_as(&a));
}

#[test]
fn holds_compares_the_list_with_the_reserved_storage() {
    let account = account_with_space(Wallet::size_of(3));
    assert!(account.holds(0));
    assert!(account.holds(3));
    assert!(!account.holds(4));
}

#[test]
fn holds_nothing_in_storage_below_the_fixed_part() {
    let account = account_with_space(66);
    assert!(!account.holds(0));
    let exact = account_with_space(67);
    assert!(exact.holds(0));
    assert!(!exact.holds(1));
}

#[test]
fn holds_rounds_down_a_partial_slot() {
    let account = account_with_space(67 + 32 + 31);
    assert!(account.holds(1));
    assert!(!account.holds(2));
}
