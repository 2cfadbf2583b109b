//! Keyless addresses derived from seeds.
//!
//! A record and the authority over its custody account live at addresses that
//! are computed from seed bytes and the identity of the issuing program. No
//! private key belongs to such an address: only logic that can present the
//! seeds acts for it. The computation itself is the ledger's, reached here
//! through `anchor_lang`; this module names its results and states how the two
//! forms of the computation relate.

use crate::identity::Identity;
use anchor_lang::prelude::Pubkey;
use vstd::prelude::*;

verus! {

/// The address that `Pubkey::create_program_address` derives from `seeds`
/// under `program_id`, or `None` where it derives none: the seeds are too many
/// or too long, or the digest of the seeds is a point of the curve and so could
/// have a private key.
pub uninterp spec fn program_address(seeds: Seq<Seq<u8>>, program_id: Seq<u8>) -> Option<Seq<u8>>;

/// The address and bump seed that `Pubkey::try_find_program_address` finds for
/// `seeds` under `program_id`, or `None` where it finds none: the seeds are too
/// many or too long, or no bump seed that it tries gives an address.
pub uninterp spec fn found_program_address(seeds: Seq<Seq<u8>>, program_id: Seq<u8>) -> Option<
    (Seq<u8>, u8),
>;

/// A derived address together with the bump seed that was found for it.
#[derive(Clone, Copy, Debug, PartialEq, Eq)]
pub struct Derived {
    pub address: Identity,
    pub bump: u8,
}

impl View for Derived {
    type V = (Seq<u8>, u8);

    open spec fn view(&self) -> (Seq<u8>, u8) {
        (self.address@, self.bump)
    }
}

/// The bytes of an address that may be absent.
pub open spec fn address_bytes(address: Option<Identity>) -> Option<Seq<u8>> {
    match address {
        Some(a) => Some(a@),
        None => None,
    }
}

/// The bytes and bump seed of a derivation that may have found nothing.
pub open spec fn derived_bytes(derived: Option<Derived>) -> Option<(Seq<u8>, u8)> {
    match derived {
        Some(d) => Some(d@),
        None => None,
    }
}

/// `seeds` followed by the one-byte seed `bump`.
pub open spec fn with_bump(seeds: Seq<Seq<u8>>, bump: u8) -> Seq<Seq<u8>> {
    seeds.push(seq![bump])
}

/// The bytes of a tag as a seed.
pub(crate) fn tag_seed<const N: usize>(tag: &[u8; N]) -> (seed: Vec<u8>)
    ensures
        seed@ == tag@,
{
    let mut seed: Vec<u8> = Vec::new();
    let mut i: usize = 0;
    while i < N
        invariant
            i <= N,
            seed@ == tag@.subrange(0, i as int),
        decreases N - i,
    {
        seed.push(tag[i]);
        i += 1;
        assert(seed@ =~= tag@.subrange(0, i as int));
    }
    assert(seed@ =~= tag@);
    seed
}

/// Decides `address == Some(key)` on the bytes.
pub(crate) fn is_address(address: &Option<Identity>, key: &Identity) -> (same: bool)
    ensures
        same == (address_bytes(*address) == Some(key@)),
{
    match address {
        Some(a) => {
            proof {
                if a@ == key@ {
                    Identity::lemma_view_injective(*a, *key);
                }
            }
            *a == *key
        },
        None => false,
    }
}

/// Decides whether a search found exactly `key`.
pub(crate) fn found_is(found: &Option<Derived>, key: &Identity) -> (same: bool)
    ensures
        same == (derived_bytes(*found) matches Some(f) && f.0 == key@),
{
    match found {
        Some(d) => {
            proof {
                if d.address@ == key@ {
                    Identity::lemma_view_injective(d.address, *key);
                }
            }
            d.address == *key
        },
        None => false,
    }
}

/// Appends the one-byte seed `bump` to `seeds`.
pub(crate) fn push_bump(seeds: Vec<Vec<u8>>, bump: u8) -> (extended: Vec<Vec<u8>>)
    ensures
        extended.deep_view() == with_bump(seeds.deep_view(), bump),
{
    let mut extended = seeds;
    let mut last: Vec<u8> = Vec::new();
    last.push(bump);
    extended.push(last);
    assert(extended.deep_view() =~~= with_bump(seeds.deep_view(), bump));
    extended
}

/// Calls `Pubkey::create_program_address`. The contract names the address it
/// returns and folds both of its errors into `None`; nothing is claimed of
/// which seeds give an address.
#[verifier::external_body]
pub(crate) fn create_program_address(seeds: &Vec<Vec<u8>>, program_id: &Identity) -> (address:
    Option<Identity>)
    ensures
        address_bytes(address) == program_address(seeds.deep_view(), program_id@),
{
    let mut parts: Vec<&[u8]> = Vec::new();
    for seed in seeds {
        parts.push(seed.as_slice());
    }
    match Pubkey::create_program_address(&parts, &Pubkey::new_from_array(program_id.bytes)) {
        Ok(key) => Some(Identity { bytes: key.to_bytes() }),
        Err(_) => None,
    }
}

/// Calls `Pubkey::try_find_program_address`. The contract names what the
/// search returns and adds the one relation its source shows: the address it
/// returns is the one that `Pubkey::create_program_address` derives from the
/// same seeds followed by the bump seed it returns.
#[verifier::external_body]
pub(crate) fn find_program_address(seeds: &Vec<Vec<u8>>, program_id: &Identity) -> (found: Option<
    Derived,
>)
    ensures
        derived_bytes(found) == found_program_address(seeds.deep_view(), program_id@),
        found matches Some(d) ==> program_address(
            with_bump(seeds.deep_view(), d.bump),
            program_id@,
        ) == Some(d.address@),
{
    let mut parts: Vec<&[u8]> = Vec::new();
    for seed in seeds {
        parts.push(seed.as_slice());
    }
    match Pubkey::try_find_program_address(&parts, &Pubkey::new_from_array(program_id.bytes)) {
        Some((key, bump)) => Some(Derived { address: Identity { bytes: key.to_bytes() }, bump }),
        None => None,
    }
}

} // verus!
