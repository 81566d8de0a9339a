//! Replacement of a wallet's guardian list by its owner.

use vstd::prelude::*;
use crate::errors::WalletError;
use crate::runtime::unix_timestamp;
use crate::structs::accounts::{WalletAccount, WalletAccountView, WalletView};
use crate::structs::models::Pubkey;

verus! {

/// The accounts of a request to replace the guardians.
#[derive(Clone, Debug, PartialEq, Eq)]
pub struct GuardiansSet {
    /// The identity that signed the request.
    pub owner: Pubkey,
    /// The wallet whose guardians are replaced.
    pub wallet: WalletAccount,
}

/// The arguments of a request to replace the guardians.
#[derive(Clone, Debug, PartialEq, Eq)]
pub struct GuardiansSetArgs {
    /// The complete new list.
    pub guardians: Vec<Pubkey>,
}

/// A list of identities as the bytes that they hold.
pub open spec fn guardians_view(guardians: Seq<Pubkey>) -> Seq<Seq<u8>> {
    Seq::new(guardians.len(), |i: int| guardians[i]@)
}

/// Why a request to replace the guardians is refused, if it is: the signer
/// is not the stored owner, or else the list does not fit the storage
/// reserved at creation. The ledger time has no part in it.
pub open spec fn guardians_set_refusal(ctx: GuardiansSet, args: GuardiansSetArgs) -> Option<
    WalletError,
> {
    if ctx.owner@ != ctx.wallet@.data.owner {
        Some(WalletError::Unauthorized)
    } else if !ctx.wallet@.holds(args.guardians@.len() as int) {
        Some(WalletError::CapacityExceeded)
    } else {
        None
    }
}

/// The wallet account after its guardians were replaced at time `now`.
pub open spec fn with_guardians(account: WalletAccountView, guardians: Seq<Seq<u8>>, now: i64) -> WalletAccountView {
    WalletAccountView {
        data: WalletView { guardians, updated_at: now, ..account.data },
        ..account
    }
}

/// Whether `result` and the accounts `post` are what the request on `pre`
/// at ledger time `now` comes to.
pub open spec fn guardians_set_step(
    pre: GuardiansSet,
    args: GuardiansSetArgs,
    now: i64,
    result: Result<(), WalletError>,
    post: GuardiansSet,
) -> bool {
    match guardians_set_refusal(pre, args) {
        Some(error) => result == Err::<(), WalletError>(error) && post == pre,
        None => {
            &&& result is Ok
            &&& post.owner == pre.owner
            &&& post.wallet@ == with_guardians(pre.wallet@, guardians_view(args.guardians@), now)
        },
    }
}

/// Tells whether the request may go ahead, and why not if it may not.
pub fn guardians_set_check(ctx: &GuardiansSet, args: &GuardiansSetArgs) -> (verdict: Result<
    (),
    WalletError,
>)
    ensures
        match guardians_set_refusal(*ctx, *args) {
            Some(error) => verdict == Err::<(), WalletError>(error),
            None => verdict is Ok,
        },
{
    if !ctx.owner.same_as(&ctx.wallet.data.owner) {
        Err(WalletError::Unauthorized)
    } else if !ctx.wallet.holds(args.guardians.len()) {
        Err(WalletError::CapacityExceeded)
    } else {
        Ok(())
    }
}

/// Puts the new list in place, with `now` as the time of last change.
fn install_guardians(ctx: &mut GuardiansSet, args: GuardiansSetArgs, now: i64)
    ensures
        final(ctx).owner == old(ctx).owner,
        final(ctx).wallet@ == with_guardians(old(ctx).wallet@, guardians_view(args.guardians@), now),
{
    ctx.wallet.data.guardians = args.guardians;
    ctx.wallet.data.updated_at = now;
    assert(ctx.wallet@.data.guardians =~= guardians_view(args.guardians@));
}

/// Replaces the wallet's guardians by the given list, at ledger time `now`.
///
/// The signer must be the wallet's stored owner and the list must fit the
/// storage reserved at creation. Then the whole list is replaced and `now`
/// becomes the time of last change; everything else stays. A request that
/// fails leaves the accounts as they were.
pub fn guardians_set_at(ctx: &mut GuardiansSet, args: GuardiansSetArgs, now: i64) -> (result: Result<
    (),
    WalletError,
>)
    ensures
        guardians_set_step(*old(ctx), args, now, result, *final(ctx)),
{
    match guardians_set_check(ctx, &args) {
        Err(error) => Err(error),
        Ok(()) => {
            install_guardians(ctx, args, now);
            Ok(())
        },
    }
}

/// Replaces the wallet's guardians by the given list, at the ledger's
/// present time.
///
/// A request that is refused whatever the time is refused before the clock
/// is read. Otherwise either the ledger does not tell the time and nothing
/// changes, or the list is replaced at the time that it told.
pub fn guardians_set(ctx: &mut GuardiansSet, args: GuardiansSetArgs) -> (result: Result<
    (),
    WalletError,
>)
    ensures
        guardians_set_refusal(*old(ctx), args) matches Some(error) ==> result == Err::<
            (),
            WalletError,
        >(error) && *final(ctx) == *old(ctx),
        guardians_set_refusal(*old(ctx), args) is None ==> {
            ||| result matches Err(WalletError::ClockUnavailable { .. }) && *final(ctx) == *old(ctx)
            ||| exists|now: i64| guardians_set_step(*old(ctx), args, now, result, *final(ctx))
        },
{
    match guardians_set_check(ctx, &args) {
        Err(error) => Err(error),
        Ok(()) => match unix_timestamp() {
            Err(error) => Err(WalletError::ClockUnavailable { error }),
            Ok(now) => {
                install_guardians(ctx, args, now);
                assert(guardians_set_step(*old(ctx), args, now, Ok(()), *ctx));
                Ok(())
            },
        },
    }
}

/// A request that the stored owner did not sign fails with `Unauthorized`
/// and changes nothing: the guardians and the time of last change stay.
pub proof fn stranger_is_refused(
    pre: GuardiansSet,
    args: GuardiansSetArgs,
    now: i64,
    result: Result<(), WalletError>,
    post: GuardiansSet,
)
    requires
        pre.owner@ != pre.wallet@.data.owner,
        guardians_set_step(pre, args, now, result, post),
    ensures
        result == Err::<(), WalletError>(WalletError::Unauthorized),
        post == pre,
        post.wallet@.data.guardians == pre.wallet@.data.guardians,
        post.wallet@.data.updated_at == pre.wallet@.data.updated_at,
{
}

/// A request of the owner with a list no longer than the `capacity` that
/// the storage was reserved for succeeds: the list is replaced as a whole,
/// the time of last change becomes `now`, and so moves forward whenever the
/// ledger's time has.
pub proof fn owner_replaces_guardians(
    pre: GuardiansSet,
    args: GuardiansSetArgs,
    now: i64,
    result: Result<(), WalletError>,
    post: GuardiansSet,
    capacity: int,
)
    requires
        pre.owner@ == pre.wallet@.data.owner,
        pre.wallet@.space == crate::structs::accounts::Wallet::spec_size_of(capacity),
        args.guardians@.len() <= capacity,
        guardians_set_step(pre, args, now, result, post),
    ensures
        result is Ok,
        post.wallet@.data.guardians == guardians_view(args.guardians@),
        post.wallet@.data.updated_at == now,
        now > pre.wallet@.data.updated_at ==> post.wallet@.data.updated_at
            > pre.wallet@.data.updated_at,
        now >= pre.wallet@.data.updated_at ==> post.wallet@.data.updated_at
            >= pre.wallet@.data.updated_at,
{
}

/// A list longer than the `capacity` that the storage was reserved for is
/// refused with `CapacityExceeded`, and nothing changes.
pub proof fn long_list_is_refused(
    pre: GuardiansSet,
    args: GuardiansSetArgs,
    now: i64,
    result: Result<(), WalletError>,
    post: GuardiansSet,
    capacity: int,
)
    requires
        pre.owner@ == pre.wallet@.data.owner,
        pre.wallet@.space == crate::structs::accounts::Wallet::spec_size_of(capacity),
        args.guardians@.len() > capacity,
        guardians_set_step(pre, args, now, result, post),
    ensures
        result == Err::<(), WalletError>(WalletError::CapacityExceeded),
        post == pre,
{
}

/// The same request twice in succession succeeds both times: the second
/// leaves the guardians as the first set them and takes the time of last
/// change on to its own time.
pub proof fn repeated_request_succeeds(
    pre: GuardiansSet,
    first: GuardiansSetArgs,
    first_time: i64,
    first_result: Result<(), WalletError>,
    between: GuardiansSet,
    second: GuardiansSetArgs,
    second_time: i64,
    second_result: Result<(), WalletError>,
    post: GuardiansSet,
)
    requires
        guardians_set_step(pre, first, first_time, first_result, between),
        first_result is Ok,
        guardians_view(second.guardians@) == guardians_view(first.guardians@),
        guardians_set_step(between, second, second_time, second_result, post),
    ensures
        second_result is Ok,
        post.wallet@.data.guardians == between.wallet@.data.guardians,
        between.wallet@.data.updated_at == first_time,
        post.wallet@.data.updated_at == second_time,
        second_time > first_time ==> post.wallet@.data.updated_at
            > between.wallet@.data.updated_at,
{
    assert(guardians_view(second.guardians@).len() == second.guardians@.len());
    assert(guardians_view(first.guardians@).len() == first.guardians@.len());
}

/// Replacing the guardians touches nothing else, whether it succeeds or
/// not: the address, the reserved storage, the bump, the identifier, the
/// owner and the grace period stay, and a record that fitted its storage
/// still fits it.
pub proof fn replacement_keeps_the_rest(
    pre: GuardiansSet,
    args: GuardiansSetArgs,
    now: i64,
    result: Result<(), WalletError>,
    post: GuardiansSet,
)
    requires
        guardians_set_step(pre, args, now, result, post),
    ensures
        post.owner == pre.owner,
        post.wallet@.address == pre.wallet@.address,
        post.wallet@.space == pre.wallet@.space,
        post.wallet@.data.bump == pre.wallet@.data.bump,
        post.wallet@.data.uid == pre.wallet@.data.uid,
        post.wallet@.data.owner == pre.wallet@.data.owner,
        post.wallet@.data.recovery_grace_period == pre.wallet@.data.recovery_grace_period,
        pre.wallet@.well_formed() ==> post.wallet@.well_formed(),
        result is Err ==> post == pre,
{
}

} // verus!
