//! Plain values that requests carry: identities and downstream operations.

use vstd::prelude::*;

verus! {

/// An identity on the ledger: the 32 bytes of a public key or of a derived
/// address.
#[derive(Clone, Copy, Debug, PartialEq, Eq, Hash)]
pub struct Pubkey {
    pub bytes: [u8; 32],
}

impl View for Pubkey {
    type V = Seq<u8>;

    open spec fn view(&self) -> Seq<u8> {
        self.bytes@
    }
}

impl Pubkey {
    /// The placeholder identity: thirty-two zero bytes.
    pub open spec fn spec_zero() -> Seq<u8> {
        Seq::new(32, |i: int| 0u8)
    }

    /// The identity made of the given bytes.
    pub fn new_from_array(bytes: [u8; 32]) -> (key: Pubkey)
        ensures
            key@ == bytes@,
            key.bytes == bytes,
    {
        Pubkey { bytes }
    }

    /// The bytes of this identity.
    pub fn to_bytes(&self) -> (bytes: [u8; 32])
        ensures
            bytes@ == self@,
            bytes == self.bytes,
    {
        self.bytes
    }

    /// Whether two identities are the same, byte for byte.
    pub fn same_as(&self, other: &Pubkey) -> (same: bool)
        ensures
            same == (self@ == other@),
            same == (*self == *other),
    {
        let mut i: usize = 0;
        while i < 32
            invariant
                i <= 32,
                forall|j: int| 0 <= j < i ==> self.bytes@[j] == other.bytes@[j],
            decreases 32 - i,
        {
            if self.bytes[i] != other.bytes[i] {
                return false;
            }
            i += 1;
        }
        assert(self.bytes@ =~= other.bytes@);
        assert(self.bytes =~= other.bytes);
        true
    }
}

impl Default for Pubkey {
    /// The placeholder that fills an unused guardian slot.
    fn default() -> (key: Pubkey)
        ensures
            key@ == Pubkey::spec_zero(),
    {
        let key = Pubkey { bytes: [0u8; 32] };
        assert(key@ =~= Pubkey::spec_zero());
        key
    }
}

/// One account that a downstream operation touches.
#[derive(Clone, Copy, Debug, PartialEq, Eq)]
pub struct AccountMeta {
    /// The account's identity.
    pub pubkey: Pubkey,
    /// Whether the operation needs a signature matching `pubkey`.
    pub is_signer: bool,
    /// Whether the operation may change the account.
    pub is_writable: bool,
}

/// A downstream operation that the wallet relays to another program.
#[derive(Clone, Debug, PartialEq, Eq)]
pub struct Instruction {
    /// The program that executes the operation.
    pub program_id: Pubkey,
    /// The accounts handed to that program, in order.
    pub keys: Vec<AccountMeta>,
    /// Bytes that only the target program interprets.
    pub data: Vec<u8>,
}

} // verus!
