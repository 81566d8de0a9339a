use vstd::prelude::*;

verus! {

/// Why a request was aborted. No request that fails changes any state.
#[derive(Debug, PartialEq, Eq)]
pub enum WalletError {
    /// The identifier given at creation is not exactly six bytes long.
    InvalidUID,
    /// The signer of the request is not the wallet's stored owner.
    Unauthorized,
    /// The guardian list does not fit the storage reserved at creation.
    CapacityExceeded,
    /// An account already lives at the address derived from the identifier.
    AddressInUse,
    /// No address can be derived from the identifier for this program.
    AddressNotFound,
    /// The ledger did not tell the time.
    ClockUnavailable { error: anchor_lang::prelude::ProgramError },
    /// The relayed operation at `index` (counted from zero) failed; the
    /// operations after it were not attempted.
    RelayFailed { index: usize, error: anchor_lang::prelude::ProgramError },
}

} // verus!
