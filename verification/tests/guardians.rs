use anchor_lang::prelude::ProgramError;
use wallet_program::instructions::guardians_set::guardians_set_check;
use wallet_program::{
    guardians_set, guardians_set_at, wallet_create_at, GuardiansSet, GuardiansSetArgs, Pubkey,
    Wallet, WalletAccount, WalletCreate, WalletCreateArgs, WalletError,
};

fn owner() -> Pubkey {
    Pubkey::new_from_array([2u8; 32])
}

fn guardian(tag: u8) -> Pubkey {
    Pubkey::new_from_array([tag; 32])
}

fn created(num_guardians: u8, now: i64) -> WalletAccount {
    let mut ctx = WalletCreate {
        program_id: Pubkey::new_from_array([42u8; 32]),
        payer: Pubkey::new_from_array([1u8; 32]),
        owner: owner(),
        wallet: None,
    };
    let args = WalletCreateArgs {
        uid: "abc123".to_string(),
        num_guardians,
        recovery_grace_period: 3_600,
    };
    assert_eq!(wallet_create_at(&mut ctx, args, now), Ok(()));
    ctx.wallet.expect("created")
}

fn signed_by(signer: Pubkey, wallet: WalletAccount) -> GuardiansSet {
    GuardiansSet { owner: signer, wallet }
}

fn list(guardians: &[Pubkey]) -> GuardiansSetArgs {
    GuardiansSetArgs { guardians: guardians.to_vec() }
}

#[test]
fn owner_replaces_the_whole_list() {
    let mut ctx = signed_by(owner(), created(3, 100));
    let before = ctx.clone();
    let new_list = [guardian(10), guardian(11), guardian(12)];
    assert_eq!(guardians_set_at(&mut ctx, list(&new_list), 250), Ok(()));
    assert_eq!(ctx.wallet.data.guardians, new_list.to_vec());
    assert_eq!(ctx.wallet.data.updated_at, 250);
    assert!(ctx.wallet.data.updated_at > before.wallet.data.updated_at);
    assert_eq!(ctx.owner, before.owner);
    assert_eq!(ctx.wallet.address, before.wallet.address);
    assert_eq!(ctx.wallet.space, before.wallet.space);
    assert_eq!(ctx.wallet.data.bump, before.wallet.data.bump);
    assert_eq!(ctx.wallet.data.uid, before.wallet.data.uid);
    assert_eq!(ctx.wallet.data.owner, before.wallet.data.owner);
    assert_eq!(ctx.wallet.data.recovery_grace_period, 3_600);
}

#[test]
fn stranger_cannot_replace_the_list() {
    let mut ctx = signed_by(guardian(99), created(3, 100));
    let before = ctx.clone();
    assert_eq!(
        guardians_set_at(&mut ctx, list(&[guardian(10)]), 250),
        Err(WalletError::Unauthorized)
    );
    assert_eq!(ctx, before);
    assert_eq!(ctx.wallet.data.guardians, vec![Pubkey::default(); 3]);
    assert_eq!(ctx.wallet.data.updated_at, 100);
}

#[test]
fn signer_differing_in_one_byte_is_a_stranger() {
    let mut almost = owner().to_bytes();
    almost[31] ^= 1;
    let mut ctx = signed_by(Pubkey::new_from_array(almost), created(3, 100));
    assert_eq!(
        guardians_set_at(&mut ctx, list(&[guardian(10)]), 250),
        Err(WalletError::Unauthorized)
    );
}

#[test]
fn guardian_is_not_the_owner() {
    let mut wallet = created(2, 100);
    wallet.data.guardians = vec![guardian(10), guardian(11)];
    let mut ctx = signed_by(guardian(10), wallet);
    let before = ctx.clone();
    assert_eq!(guardians_set_at(&mut ctx, list(&[]), 250), Err(WalletError::Unauthorized));
    assert_eq!(ctx, before);
}

#[test]
fn shorter_list_is_accepted() {
    let mut ctx = signed_by(owner(), created(3, 100));
    assert_eq!(guardians_set_at(&mut ctx, list(&[guardian(10)]), 101), Ok(()));
    assert_eq!(ctx.wallet.data.guardians, vec![guardian(10)]);
    assert_eq!(ctx.wallet.space, Wallet::size_of(3));
}

#[test]
fn empty_list_is_accepted() {
    let mut ctx = signed_by(owner(), created(3, 100));
    assert_eq!(guardians_set_at(&mut ctx, list(&[]), 101), Ok(()));
    assert!(ctx.wallet.data.guardians.is_empty());
    assert_eq!(ctx.wallet.data.updated_at, 101);
}

#[test]
fn capacity_is_that_of_creation_not_of_the_present_list() {
    let mut ctx = signed_by(owner(), created(3, 100));
    assert_eq!(guardians_set_at(&mut ctx, list(&[guardian(10)]), 101), Ok(()));
    let full = [guardian(20), guardian(21), guardian(22)];
    assert_eq!(guardians_set_at(&mut ctx, list(&full), 102), Ok(()));
    assert_eq!(ctx.wallet.data.guardians, full.to_vec());
}

#[test]
fn longer_list_exceeds_the_capacity() {
    let mut ctx = signed_by(owner(), created(3, 100));
    let before = ctx.clone();
    let too_many = [guardian(10), guardian(11), guardian(12), guardian(13)];
    assert_eq!(
        guardians_set_at(&mut ctx, list(&too_many), 250),
        Err(WalletError::CapacityExceeded)
    );
    assert_eq!(ctx, before);
}

#[test]
fn wallet_without_room_takes_only_the_empty_list() {
    let mut ctx = signed_by(owner(), created(0, 100));
    assert_eq!(
        guardians_set_at(&mut ctx, list(&[guardian(10)]), 250),
        Err(WalletError::CapacityExceeded)
    );
    assert_eq!(guardians_set_at(&mut ctx, list(&[]), 250), Ok(()));
    assert_eq!(ctx.wallet.data.updated_at, 250);
}

#[test]
fn stranger_with_a_long_list_is_unauthorized() {
    let mut ctx = signed_by(guardian(99), created(1, 100));
    assert_eq!(
        guardians_set_at(&mut ctx, list(&[guardian(10), guardian(11)]), 250),
        Err(WalletError::Unauthorized)
    );
}

#[test]
fn same_request_twice_succeeds_twice() {
    let mut ctx = signed_by(owner(), created(2, 100));
    let new_list = [guardian(10), guardian(11)];
    assert_eq!(guardians_set_at(&mut ctx, list(&new_list), 200), Ok(()));
    let after_first = ctx.clone();
    assert_eq!(after_first.wallet.data.updated_at, 200);
    assert_eq!(guardians_set_at(&mut ctx, list(&new_list), 300), Ok(()));
    assert_eq!(ctx.wallet.data.guardians, after_first.wallet.data.guardians);
    assert_eq!(ctx.wallet.data.guardians, new_list.to_vec());
    assert_eq!(ctx.wallet.data.updated_at, 300);
    assert!(ctx.wallet.data.updated_at > after_first.wallet.data.updated_at);
}

#[test]
fn time_of_last_change_is_the_time_given() {
    let mut ctx = signed_by(owner(), created(1, 100));
    assert_eq!(guardians_set_at(&mut ctx, list(&[]), 100), Ok(()));
    assert_eq!(ctx.wallet.data.updated_at, 100);
    assert_eq!(guardians_set_at(&mut ctx, list(&[]), i64::MAX), Ok(()));
    assert_eq!(ctx.wallet.data.updated_at, i64::MAX);
}

#[test]
fn duplicate_guardians_are_stored_as_given() {
    let mut ctx = signed_by(owner(), created(3, 100));
    let new_list = [guardian(10), guardian(10), owner()];
    assert_eq!(guardians_set_at(&mut ctx, list(&new_list), 200), Ok(()));
    assert_eq!(ctx.wallet.data.guardians, new_list.to_vec());
}

#[test]
fn check_names_the_reason() {
    let ctx = signed_by(owner(), created(1, 100));
    assert_eq!(guardians_set_check(&ctx, &list(&[guardian(1)])), Ok(()));
    assert_eq!(
        guardians_set_check(&ctx, &list(&[guardian(1), guardian(2)])),
        Err(WalletError::CapacityExceeded)
    );
    let stranger = signed_by(guardian(9), created(1, 100));
    assert_eq!(guardians_set_check(&stranger, &list(&[])), Err(WalletError::Unauthorized));
}

#[test]
fn set_without_a_ledger_clock_changes_nothing() {
    let mut ctx = signed_by(owner(), created(2, 100));
    let before = ctx.clone();
    assert_eq!(
        guardians_set(&mut ctx, list(&[guardian(10)])),
        Err(WalletError::ClockUnavailable { error: ProgramError::UnsupportedSysvar })
    );
    assert_eq!(ctx, before);
}

#[test]
fn set_refuses_a_stranger_before_reading_the_clock() {
    let mut ctx = signed_by(guardian(99), created(2, 100));
    let before = ctx.clone();
    assert_eq!(guardians_set(&mut ctx, list(&[guardian(10)])), Err(WalletError::Unauthorized));
    assert_eq!(ctx, before);
}

#[test]
fn set_refuses_a_long_list_before_reading_the_clock() {
    let mut ctx = signed_by(owner(), created(0, 100));
    assert_eq!(guardians_set(&mut ctx, list(&[guardian(10)])), Err(WalletError::CapacityExceeded));
}
