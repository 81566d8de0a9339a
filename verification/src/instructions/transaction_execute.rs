//! The relay: operations on other programs that the wallet co-signs for
//! its owner.

use vstd::prelude::*;
use crate::constants::{spec_wallet_seed, wallet_seed};
use crate::errors::WalletError;
use crate::runtime::{invoke_signed, seeds_view};
use crate::structs::accounts::{Wallet, WalletAccount, WalletView};
use crate::structs::models::{Instruction, Pubkey};

verus! {

/// The accounts of a relay request.
#[derive(Clone, Debug, PartialEq, Eq)]
pub struct TransactionExecute {
    /// The identity that signed the request.
    pub owner: Pubkey,
    /// The wallet on whose behalf the operations run.
    pub wallet: WalletAccount,
}

/// The arguments of a relay request.
#[derive(Clone, Debug, PartialEq, Eq)]
pub struct TransactionExecuteArgs {
    /// The operations to relay, in order.
    pub instructions: Vec<Instruction>,
}

/// The seeds by which the wallet proves authority over its address: the
/// domain tag, the wallet's identifier and its bump.
pub open spec fn signer_seeds(wallet: WalletView) -> Seq<Seq<u8>> {
    seq![spec_wallet_seed(), wallet.uid, seq![wallet.bump]]
}

/// Whether the signer of the request is the wallet's stored owner.
pub open spec fn signed_by_owner(ctx: TransactionExecute) -> bool {
    ctx.owner@ == ctx.wallet@.data.owner
}

/// Whether `trace` can be the outcomes, in order, of the operations that a
/// relay of `operations` operations hands to the runtime. A relay that the
/// owner did not sign hands over none. One that the owner signed hands
/// them over in order, goes on only after a success, and stops only at a
/// failure or at the end.
pub open spec fn relay_trace(
    authorized: bool,
    operations: nat,
    trace: Seq<Result<(), anchor_lang::prelude::ProgramError>>,
) -> bool {
    if !authorized {
        trace.len() == 0
    } else {
        &&& trace.len() <= operations
        &&& forall|i: int| 0 <= i < trace.len() - 1 ==> (#[trigger] trace[i]) is Ok
        &&& trace.len() < operations ==> trace.len() > 0 && trace.last() is Err
    }
}

/// What the relay reports after the operations whose outcomes are `trace`:
/// `Unauthorized` where the owner did not sign, else the failure of the
/// last operation if it failed, else success.
pub open spec fn relay_verdict(
    authorized: bool,
    trace: Seq<Result<(), anchor_lang::prelude::ProgramError>>,
) -> Result<(), WalletError> {
    if !authorized {
        Err(WalletError::Unauthorized)
    } else if trace.len() > 0 && trace.last() is Err {
        Err(
            WalletError::RelayFailed {
                index: (trace.len() - 1) as usize,
                error: trace.last()->Err_0,
            },
        )
    } else {
        Ok(())
    }
}

/// Whether a relay of `operations` operations can have handed over the
/// operations whose outcomes are `trace` and then reported `result`.
pub open spec fn relay_run(
    authorized: bool,
    operations: nat,
    trace: Seq<Result<(), anchor_lang::prelude::ProgramError>>,
    result: Result<(), WalletError>,
) -> bool {
    relay_trace(authorized, operations, trace) && result == relay_verdict(authorized, trace)
}

/// The seeds by which `wallet` signs.
pub fn wallet_signer_seeds(wallet: &Wallet) -> (seeds: Vec<Vec<u8>>)
    ensures
        seeds_view(seeds@) == signer_seeds(wallet@),
{
    let mut name: Vec<u8> = Vec::new();
    let mut copied: usize = 0;
    while copied < 6
        invariant
            copied <= 6,
            name@.len() == copied,
            forall|i: int| 0 <= i < copied ==> name@[i] == wallet.uid@[i],
        decreases 6 - copied,
    {
        name.push(wallet.uid[copied]);
        copied += 1;
    }
    assert(name@ =~= wallet.uid@);
    let mut bump: Vec<u8> = Vec::new();
    bump.push(wallet.bump);
    assert(bump@ =~= seq![wallet.bump]);
    let mut seeds: Vec<Vec<u8>> = Vec::new();
    seeds.push(wallet_seed());
    seeds.push(name);
    seeds.push(bump);
    assert(seeds_view(seeds@) =~= signer_seeds(wallet@));
    seeds
}

/// What the relay makes of the outcome of the operation at `index`: it goes
/// on after a success and reports a failure with the operation's index.
pub fn relay_outcome(index: usize, outcome: Result<(), anchor_lang::prelude::ProgramError>) -> (verdict:
    Result<(), WalletError>)
    ensures
        match outcome {
            Ok(()) => verdict is Ok,
            Err(error) => verdict == Err::<(), WalletError>(
                WalletError::RelayFailed { index, error },
            ),
        },
{
    match outcome {
        Ok(()) => Ok(()),
        Err(error) => Err(WalletError::RelayFailed { index, error }),
    }
}

/// Relays the operations in order, each with the wallet's address as an
/// additional signer.
///
/// A request that the wallet's stored owner did not sign fails with
/// `Unauthorized`, and nothing is relayed. Otherwise the operations are
/// handed to the runtime one by one; the first that fails ends the relay,
/// which reports that failure and the operation's index. With no failure
/// the relay succeeds.
pub fn transaction_execute<'a>(
    ctx: &TransactionExecute,
    args: TransactionExecuteArgs,
    remaining_accounts: &[anchor_lang::prelude::AccountInfo<'a>],
) -> (result: Result<(), WalletError>)
    ensures
        exists|trace: Seq<Result<(), anchor_lang::prelude::ProgramError>>|
            relay_run(signed_by_owner(*ctx), args.instructions@.len(), trace, result),
        !signed_by_owner(*ctx) ==> result == Err::<(), WalletError>(WalletError::Unauthorized),
        signed_by_owner(*ctx) && args.instructions@.len() == 0 ==> result is Ok,
{
    let ghost operations = args.instructions@.len();
    if !ctx.owner.same_as(&ctx.wallet.data.owner) {
        let ghost none: Seq<Result<(), anchor_lang::prelude::ProgramError>> = Seq::empty();
        assert(relay_run(signed_by_owner(*ctx), operations, none, Err(WalletError::Unauthorized)));
        return Err(WalletError::Unauthorized);
    }
    let seeds = wallet_signer_seeds(&ctx.wallet.data);
    let ghost mut trace: Seq<Result<(), anchor_lang::prelude::ProgramError>> = Seq::empty();
    let mut index: usize = 0;
    while index < args.instructions.len()
        invariant
            signed_by_owner(*ctx),
            operations == args.instructions@.len(),
            index <= operations,
            trace.len() == index,
            forall|i: int| 0 <= i < trace.len() ==> (#[trigger] trace[i]) is Ok,
        decreases operations - index,
    {
        let outcome = invoke_signed(&args.instructions[index], remaining_accounts, &seeds);
        proof {
            trace = trace.push(outcome);
        }
        match relay_outcome(index, outcome) {
            Err(error) => {
                assert(relay_run(true, operations, trace, Err(error)));
                return Err(error);
            },
            Ok(()) => {},
        }
        index += 1;
    }
    assert(relay_run(true, operations, trace, Ok(())));
    Ok(())
}

/// A relay that the owner did not sign hands nothing to the runtime and
/// reports `Unauthorized`.
pub proof fn stranger_relays_nothing(
    operations: nat,
    trace: Seq<Result<(), anchor_lang::prelude::ProgramError>>,
    result: Result<(), WalletError>,
)
    requires
        relay_run(false, operations, trace, result),
    ensures
        trace.len() == 0,
        result == Err::<(), WalletError>(WalletError::Unauthorized),
{
}

/// Where the operation at `failed` fails in a relay that the owner signed,
/// it is the last one handed to the runtime, all before it succeeded, and
/// the relay reports its failure with its index.
pub proof fn first_failure_ends_relay(
    operations: nat,
    trace: Seq<Result<(), anchor_lang::prelude::ProgramError>>,
    result: Result<(), WalletError>,
    failed: int,
)
    requires
        relay_run(true, operations, trace, result),
        0 <= failed < trace.len(),
        trace[failed] is Err,
    ensures
        failed == trace.len() - 1,
        forall|i: int| 0 <= i < failed ==> (#[trigger] trace[i]) is Ok,
        result == Err::<(), WalletError>(
            WalletError::RelayFailed { index: failed as usize, error: trace[failed]->Err_0 },
        ),
{
}

/// A relay that the owner signed succeeds if and only if it handed every
/// operation to the runtime and each of them succeeded.
pub proof fn relay_succeeds_when_all_do(
    operations: nat,
    trace: Seq<Result<(), anchor_lang::prelude::ProgramError>>,
    result: Result<(), WalletError>,
)
    requires
        relay_run(true, operations, trace, result),
    ensures
        result is Ok <==> trace.len() == operations && forall|i: int|
            0 <= i < trace.len() ==> (#[trigger] trace[i]) is Ok,
{
    if trace.len() > 0 && trace.last() is Ok {
        assert forall|i: int| 0 <= i < trace.len() implies (#[trigger] trace[i]) is Ok by {
            if i == trace.len() - 1 {
                assert(trace[i] == trace.last());
            }
        }
    }
}

/// The wallet signs with the seeds that its address was derived from,
/// followed by its bump.
pub proof fn signer_seeds_extend_address_seeds(wallet: WalletView)
    ensures
        signer_seeds(wallet) == crate::instructions::wallet_create::wallet_seeds(wallet.uid).push(
            seq![wallet.bump],
        ),
{
    assert(signer_seeds(wallet) =~= crate::instructions::wallet_create::wallet_seeds(
        wallet.uid,
    ).push(seq![wallet.bump]));
}

} // verus!
