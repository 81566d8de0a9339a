//! Creation of a wallet at the address derived from its identifier.

use vstd::prelude::*;
use vstd::string::StringSliceAdditionalSpecFns;
use vstd::utf8::encode_utf8;
use crate::constants::{spec_wallet_seed, wallet_seed};
use crate::errors::WalletError;
use crate::runtime::{program_address, seeds_view, try_find_program_address, unix_timestamp};
use crate::structs::accounts::{Wallet, WalletAccount, WalletAccountView, WalletView};
use crate::structs::models::Pubkey;

verus! {

/// The accounts of a creation request.
#[derive(Clone, Debug, PartialEq, Eq)]
pub struct WalletCreate {
    /// The program that creates the wallet and will own it.
    pub program_id: Pubkey,
    /// The signer that pays for the storage.
    pub payer: Pubkey,
    /// The identity to install as the wallet's owner.
    pub owner: Pubkey,
    /// What lives at the wallet's address: `None` until the wallet is created.
    pub wallet: Option<WalletAccount>,
}

/// The arguments of a creation request.
#[derive(Clone, Debug, PartialEq, Eq)]
pub struct WalletCreateArgs {
    /// The wallet's identifier: six alphanumeric characters.
    pub uid: String,
    /// How many guardians the wallet has room for, for good.
    pub num_guardians: u8,
    /// Seconds between the approval of a recovery and its taking effect.
    pub recovery_grace_period: i64,
}

/// The seed of the address of the wallet named `uid`: the domain tag, then
/// the identifier.
pub open spec fn wallet_seeds(uid: Seq<u8>) -> Seq<Seq<u8>> {
    seq![spec_wallet_seed(), uid]
}

/// The address of the wallet named `uid` under `program_id`, with its bump.
pub open spec fn wallet_address(uid: Seq<u8>, program_id: Seq<u8>) -> Option<(Seq<u8>, u8)> {
    program_address(wallet_seeds(uid), program_id)
}

/// The account that a creation request makes at `address`.
pub open spec fn created_account(
    ctx: WalletCreate,
    args: WalletCreateArgs,
    now: i64,
    address: Seq<u8>,
    bump: u8,
) -> WalletAccountView {
    WalletAccountView {
        address,
        space: Wallet::spec_size_of(args.num_guardians as int),
        data: WalletView {
            bump,
            uid: encode_utf8(args.uid@),
            owner: ctx.owner@,
            guardians: Seq::new(args.num_guardians as nat, |i: int| Pubkey::spec_zero()),
            recovery_grace_period: args.recovery_grace_period,
            updated_at: now,
        },
    }
}

/// Why a creation request is refused, if it is. The ledger time has no
/// part in it.
pub open spec fn wallet_create_refusal(ctx: WalletCreate, args: WalletCreateArgs) -> Option<
    WalletError,
> {
    let uid = encode_utf8(args.uid@);
    if uid.len() != 6 {
        Some(WalletError::InvalidUID)
    } else if wallet_address(uid, ctx.program_id@) is None {
        Some(WalletError::AddressNotFound)
    } else if ctx.wallet is Some {
        Some(WalletError::AddressInUse)
    } else {
        None
    }
}

/// What a creation request at ledger time `now` comes to: the new account,
/// or the reason why none is made.
pub open spec fn wallet_create_outcome(ctx: WalletCreate, args: WalletCreateArgs, now: i64) -> Result<
    WalletAccountView,
    WalletError,
> {
    match wallet_create_refusal(ctx, args) {
        Some(error) => Err(error),
        None => {
            let uid = encode_utf8(args.uid@);
            let (address, bump) = wallet_address(uid, ctx.program_id@)->Some_0;
            Ok(created_account(ctx, args, now, address, bump))
        },
    }
}

/// Whether `result` and the accounts `post` are what the request on `pre`
/// at ledger time `now` comes to.
pub open spec fn wallet_create_step(
    pre: WalletCreate,
    args: WalletCreateArgs,
    now: i64,
    result: Result<(), WalletError>,
    post: WalletCreate,
) -> bool {
    match wallet_create_outcome(pre, args, now) {
        Ok(account) => {
            &&& result is Ok
            &&& post.program_id == pre.program_id
            &&& post.payer == pre.payer
            &&& post.owner == pre.owner
            &&& post.wallet is Some
            &&& post.wallet->Some_0@ == account
        },
        Err(error) => result == Err::<(), WalletError>(error) && post == pre,
    }
}

/// A full list of `num_guardians` placeholder entries.
pub fn placeholder_guardians(num_guardians: u8) -> (guardians: Vec<Pubkey>)
    ensures
        guardians@.len() == num_guardians,
        forall|i: int| 0 <= i < num_guardians ==> (#[trigger] guardians@[i])@ == Pubkey::spec_zero(),
{
    let mut guardians: Vec<Pubkey> = Vec::new();
    let mut filled: u8 = 0;
    while filled < num_guardians
        invariant
            filled <= num_guardians,
            guardians@.len() == filled,
            forall|i: int| 0 <= i < filled ==> (#[trigger] guardians@[i])@ == Pubkey::spec_zero(),
        decreases num_guardians - filled,
    {
        guardians.push(Pubkey::default());
        filled += 1;
    }
    guardians
}

/// The seed of the address of the wallet named `uid`.
pub fn address_seeds(uid: &[u8; 6]) -> (seeds: Vec<Vec<u8>>)
    ensures
        seeds_view(seeds@) == wallet_seeds(uid@),
{
    let mut name: Vec<u8> = Vec::new();
    let mut copied: usize = 0;
    while copied < 6
        invariant
            copied <= 6,
            name@.len() == copied,
            forall|i: int| 0 <= i < copied ==> name@[i] == uid@[i],
        decreases 6 - copied,
    {
        name.push(uid[copied]);
        copied += 1;
    }
    assert(name@ =~= uid@);
    let mut seeds: Vec<Vec<u8>> = Vec::new();
    seeds.push(wallet_seed());
    seeds.push(name);
    assert(seeds_view(seeds@) =~= wallet_seeds(uid@));
    seeds
}

/// The identifier, address and bump of the wallet that the request asks
/// for, or the reason why the request is refused.
pub fn wallet_create_plan(ctx: &WalletCreate, args: &WalletCreateArgs) -> (plan: Result<
    ([u8; 6], Pubkey, u8),
    WalletError,
>)
    ensures
        match wallet_create_refusal(*ctx, *args) {
            Some(error) => plan == Err::<([u8; 6], Pubkey, u8), WalletError>(error),
            None => {
                &&& plan matches Ok((uid, address, bump))
                &&& uid@ == encode_utf8(args.uid@)
                &&& wallet_address(uid@, ctx.program_id@) == Some((address@, bump))
            },
        },
{
    let bytes = args.uid.as_str().as_bytes();
    if bytes.len() != 6 {
        return Err(WalletError::InvalidUID);
    }
    let uid: [u8; 6] = [bytes[0], bytes[1], bytes[2], bytes[3], bytes[4], bytes[5]];
    assert(uid@ =~= encode_utf8(args.uid@));
    let seeds = address_seeds(&uid);
    match try_find_program_address(&seeds, &ctx.program_id) {
        None => Err(WalletError::AddressNotFound),
        Some((address, bump)) => {
            if ctx.wallet.is_some() {
                Err(WalletError::AddressInUse)
            } else {
                Ok((uid, address, bump))
            }
        },
    }
}

/// Makes the planned account, with `now` as its time of last change.
fn install_wallet(
    ctx: &mut WalletCreate,
    args: &WalletCreateArgs,
    uid: [u8; 6],
    address: Pubkey,
    bump: u8,
    now: i64,
)
    requires
        uid@ == encode_utf8(args.uid@),
    ensures
        final(ctx).program_id == old(ctx).program_id,
        final(ctx).payer == old(ctx).payer,
        final(ctx).owner == old(ctx).owner,
        final(ctx).wallet is Some,
        final(ctx).wallet->Some_0@ == created_account(*old(ctx), *args, now, address@, bump),
{
    let guardians = placeholder_guardians(args.num_guardians);
    let account = WalletAccount {
        address,
        space: Wallet::size_of(args.num_guardians),
        data: Wallet {
            bump,
            uid,
            owner: ctx.owner,
            guardians,
            recovery_grace_period: args.recovery_grace_period,
            updated_at: now,
        },
    };
    assert(account@.data.guardians =~= Seq::new(
        args.num_guardians as nat,
        |i: int| Pubkey::spec_zero(),
    ));
    ctx.wallet = Some(account);
}

/// Creates the wallet that the request describes, at ledger time `now`.
///
/// The identifier must be six bytes long, an address must be derivable from
/// it, and nothing may live at that address yet. Then the account is made
/// with storage for `num_guardians` guardians, the given owner, a full list
/// of placeholder guardians and `now` as its time of last change. A request
/// that fails leaves the accounts as they were.
pub fn wallet_create_at(ctx: &mut WalletCreate, args: WalletCreateArgs, now: i64) -> (result: Result<
    (),
    WalletError,
>)
    ensures
        wallet_create_step(*old(ctx), args, now, result, *final(ctx)),
{
    match wallet_create_plan(ctx, &args) {
        Err(error) => Err(error),
        Ok((uid, address, bump)) => {
            install_wallet(ctx, &args, uid, address, bump, now);
            Ok(())
        },
    }
}

/// Creates the wallet that the request describes, at the ledger's present
/// time.
///
/// A request that is refused whatever the time is refused before the clock
/// is read. Otherwise either the ledger does not tell the time and nothing
/// changes, or the wallet is created at the time that it told.
pub fn wallet_create(ctx: &mut WalletCreate, args: WalletCreateArgs) -> (result: Result<
    (),
    WalletError,
>)
    ensures
        wallet_create_refusal(*old(ctx), args) matches Some(error) ==> result == Err::<
            (),
            WalletError,
        >(error) && *final(ctx) == *old(ctx),
        wallet_create_refusal(*old(ctx), args) is None ==> {
            ||| result matches Err(WalletError::ClockUnavailable { .. }) && *final(ctx) == *old(ctx)
            ||| exists|now: i64| wallet_create_step(*old(ctx), args, now, result, *final(ctx))
        },
{
    match wallet_create_plan(ctx, &args) {
        Err(error) => Err(error),
        Ok((uid, address, bump)) => match unix_timestamp() {
            Err(error) => Err(WalletError::ClockUnavailable { error }),
            Ok(now) => {
                install_wallet(ctx, &args, uid, address, bump, now);
                assert(wallet_create_step(*old(ctx), args, now, Ok(()), *ctx));
                Ok(())
            },
        },
    }
}

/// Whether a character is an ASCII letter or digit.
pub open spec fn is_alphanumeric(c: char) -> bool {
    ('0' <= c && c <= '9') || ('a' <= c && c <= 'z') || ('A' <= c && c <= 'Z')
}

/// Whether an identifier is six ASCII letters or digits.
pub open spec fn is_valid_uid(uid: Seq<char>) -> bool {
    uid.len() == 6 && forall|i: int| 0 <= i < 6 ==> is_alphanumeric(#[trigger] uid[i])
}

/// An identifier of six ASCII letters or digits is six bytes long, one byte
/// for each character.
pub proof fn valid_uid_bytes(uid: Seq<char>)
    requires
        is_valid_uid(uid),
    ensures
        encode_utf8(uid).len() == 6,
        forall|i: int| 0 <= i < 6 ==> (#[trigger] encode_utf8(uid)[i]) == uid[i] as u8,
{
    assert(vstd::utf8::is_ascii_chars(uid)) by {
        assert forall|i: int| 0 <= i < uid.len() implies '\0' <= #[trigger] uid[i] <= '\u{7f}' by {
            assert(is_alphanumeric(uid[i]));
        }
    }
    vstd::utf8::is_ascii_chars_encode_utf8(uid);
}

/// Every identifier of six ASCII letters or digits is accepted: where an
/// address can be derived from it and nothing lives there yet, the wallet
/// is created, and the identifier read back from the new account is the
/// one that was given.
pub proof fn valid_uid_is_accepted(
    pre: WalletCreate,
    args: WalletCreateArgs,
    now: i64,
    result: Result<(), WalletError>,
    post: WalletCreate,
)
    requires
        is_valid_uid(args.uid@),
        wallet_address(encode_utf8(args.uid@), pre.program_id@) is Some,
        pre.wallet is None,
        wallet_create_step(pre, args, now, result, post),
    ensures
        result is Ok,
        post.wallet is Some,
        post.wallet->Some_0@.data.uid.len() == 6,
        vstd::utf8::decode_utf8(post.wallet->Some_0@.data.uid) == args.uid@,
{
    valid_uid_bytes(args.uid@);
    vstd::utf8::encode_utf8_decode_utf8(args.uid@);
}

/// An identifier that is not exactly six bytes long is refused with
/// `InvalidUID`, and no account is made.
pub proof fn malformed_uid_is_refused(
    pre: WalletCreate,
    args: WalletCreateArgs,
    now: i64,
    result: Result<(), WalletError>,
    post: WalletCreate,
)
    requires
        encode_utf8(args.uid@).len() != 6,
        wallet_create_step(pre, args, now, result, post),
    ensures
        result == Err::<(), WalletError>(WalletError::InvalidUID),
        post == pre,
{
}

/// A wallet cannot be created twice: after a creation that succeeded, a
/// second request with the same identifier fails with `AddressInUse` and
/// leaves the first account as it is.
pub proof fn second_creation_collides(
    pre: WalletCreate,
    first: WalletCreateArgs,
    first_time: i64,
    first_result: Result<(), WalletError>,
    between: WalletCreate,
    second: WalletCreateArgs,
    second_time: i64,
    second_result: Result<(), WalletError>,
    post: WalletCreate,
)
    requires
        wallet_create_step(pre, first, first_time, first_result, between),
        first_result is Ok,
        second.uid@ == first.uid@,
        wallet_create_step(between, second, second_time, second_result, post),
    ensures
        second_result == Err::<(), WalletError>(WalletError::AddressInUse),
        post == between,
{
}

/// A wallet that was just created fits its storage exactly: a guardian
/// list fits if and only if it is no longer than the number of guardians
/// asked for at creation.
pub proof fn creation_fixes_capacity(
    pre: WalletCreate,
    args: WalletCreateArgs,
    now: i64,
    result: Result<(), WalletError>,
    post: WalletCreate,
    num_guardians: int,
)
    requires
        wallet_create_step(pre, args, now, result, post),
        result is Ok,
    ensures
        post.wallet is Some,
        post.wallet->Some_0@.well_formed(),
        post.wallet->Some_0@.space == Wallet::spec_size_of(args.num_guardians as int),
        post.wallet->Some_0@.data.guardians.len() == args.num_guardians,
        post.wallet->Some_0@.holds(num_guardians) <==> num_guardians <= args.num_guardians,
{
}

} // verus!
