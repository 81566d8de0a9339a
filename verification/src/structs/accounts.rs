//! The persistent wallet record and the storage it lives in.

use vstd::prelude::*;
use crate::constants::WALLET_FIXED_LEN;
use crate::structs::models::Pubkey;

verus! {

/// The record stored for one wallet.
#[derive(Clone, Debug, PartialEq, Eq)]
pub struct Wallet {
    /// The byte that, with the seed, reproduces the wallet's address.
    pub bump: u8,
    /// The identifier that names the wallet.
    pub uid: [u8; 6],
    /// The identity that may direct the wallet.
    pub owner: Pubkey,
    /// The identities that may take part in a recovery.
    pub guardians: Vec<Pubkey>,
    /// Seconds between the approval of a recovery and its taking effect.
    pub recovery_grace_period: i64,
    /// Ledger time of the last change of configuration.
    pub updated_at: i64,
}

/// What a wallet record is, as mathematics.
pub struct WalletView {
    pub bump: u8,
    pub uid: Seq<u8>,
    pub owner: Seq<u8>,
    pub guardians: Seq<Seq<u8>>,
    pub recovery_grace_period: i64,
    pub updated_at: i64,
}

impl View for Wallet {
    type V = WalletView;

    open spec fn view(&self) -> WalletView {
        WalletView {
            bump: self.bump,
            uid: self.uid@,
            owner: self.owner@,
            guardians: Seq::new(self.guardians@.len(), |i: int| self.guardians@[i]@),
            recovery_grace_period: self.recovery_grace_period,
            updated_at: self.updated_at,
        }
    }
}

impl Wallet {
    /// Bytes that a wallet with `num_guardians` guardian entries occupies:
    /// type tag, bump, identifier, owner, the guardian list with its count
    /// in front, grace period and timestamp.
    pub open spec fn spec_size_of(num_guardians: int) -> int {
        8 + 1 + 6 + 32 + (4 + 32 * num_guardians) + 8 + 8
    }

    /// The storage to reserve for a wallet with room for `num_guardians`
    /// guardians.
    pub fn size_of(num_guardians: u8) -> (size: usize)
        ensures
            size == Wallet::spec_size_of(num_guardians as int),
    {
        let n: usize = num_guardians as usize;
        WALLET_FIXED_LEN + n * 32
    }
}

/// A wallet record in its place on the ledger: the address it lives at and
/// the storage reserved for it when it was created.
#[derive(Clone, Debug, PartialEq, Eq)]
pub struct WalletAccount {
    /// The address derived from the wallet's identifier.
    pub address: Pubkey,
    /// Bytes reserved at creation; the record can never outgrow them.
    pub space: usize,
    /// The record itself.
    pub data: Wallet,
}

/// What a wallet account is, as mathematics.
pub struct WalletAccountView {
    pub address: Seq<u8>,
    pub space: int,
    pub data: WalletView,
}

impl View for WalletAccount {
    type V = WalletAccountView;

    open spec fn view(&self) -> WalletAccountView {
        WalletAccountView { address: self.address@, space: self.space as int, data: self.data@ }
    }
}

impl WalletAccountView {
    /// Whether a list of `num_guardians` guardians fits the reserved storage.
    pub open spec fn holds(self, num_guardians: int) -> bool {
        Wallet::spec_size_of(num_guardians) <= self.space
    }

    /// The record fits the storage reserved for it.
    pub open spec fn well_formed(self) -> bool {
        self.holds(self.data.guardians.len() as int)
    }
}

impl WalletAccount {
    /// Whether a list of `num_guardians` guardians fits the reserved storage.
    pub fn holds(&self, num_guardians: usize) -> (fits: bool)
        ensures
            fits == self@.holds(num_guardians as int),
    {
        if self.space < WALLET_FIXED_LEN {
            false
        } else {
            num_guardians <= (self.space - WALLET_FIXED_LEN) / 32
        }
    }
}

} // verus!
