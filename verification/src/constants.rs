use vstd::prelude::*;

verus! {

/// Number of bytes in a wallet's unique identifier.
pub const UID_LEN: usize = 6;

/// Number of bytes in an identity.
pub const PUBKEY_LEN: usize = 32;

/// Bytes of a stored wallet that do not depend on the guardian list: type
/// tag (8), bump (1), uid (6), owner (32), guardian count (4), grace period
/// (8) and timestamp (8).
pub const WALLET_FIXED_LEN: usize = 67;

/// The domain tag that starts the seed of every wallet address.
pub open spec fn spec_wallet_seed() -> Seq<u8> {
    seq![119u8, 97u8, 108u8, 108u8, 101u8, 116u8]
}

/// The domain tag `wallet`, as bytes.
pub fn wallet_seed() -> (seed: Vec<u8>)
    ensures
        seed@ == spec_wallet_seed(),
{
    let mut seed: Vec<u8> = Vec::new();
    seed.push(119u8);
    seed.push(97u8);
    seed.push(108u8);
    seed.push(108u8);
    seed.push(101u8);
    seed.push(116u8);
    seed
}

} // verus!
