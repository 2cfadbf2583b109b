//! What every operation shares: the context it runs in and the ways in which
//! it can be refused.

use crate::identity::Identity;
use vstd::prelude::*;

verus! {

/// The setting of one operation: the program that issues it and the accounts
/// presented to it.
#[derive(Clone, Debug, PartialEq, Eq)]
pub struct Context<T> {
    /// Identity of the issuing program; every derived address is scoped to it.
    pub program_id: Identity,
    /// The accounts presented by the caller.
    pub accounts: T,
}

/// Bytes at the head of every stored record, before its fields.
pub const RECORD_HEADER_LEN: usize = 8;

/// The instruction that a successful creation hands to the ledger: make room
/// for a record at an address that only the given seeds can sign for.
#[derive(Debug, PartialEq, Eq)]
pub struct Creation {
    /// Address of the new record.
    pub address: Identity,
    /// Bytes to allocate for it.
    pub space: usize,
    /// The seeds and bump seed from which the ledger re-derives `address`.
    pub signer_seeds: Vec<Vec<u8>>,
}

impl Creation {
    /// The instruction allocates `space` bytes at `address`, signed for with
    /// `seeds`.
    pub open spec fn allocates(self, address: Identity, space: nat, seeds: Seq<Seq<u8>>) -> bool {
        &&& self.address == address
        &&& self.space == space
        &&& self.signer_seeds.deep_view() == seeds
    }
}

/// Why an operation was refused. A refused operation changes nothing.
#[derive(Clone, Copy, Debug, PartialEq, Eq)]
pub enum Failure<E> {
    /// An account presented to the operation is not the one that the seeds or
    /// the record commit to.
    ConstraintViolation,
    /// The address at which a record was to be created already holds one.
    AddressInUse,
    /// A rule of the operation itself was broken.
    Rule(E),
}

} // verus!
