//! The timelocked vault: a record per asset and destination that lets the
//! custody balance leave once, to the committed destination, and only from the
//! unlock time on.

use crate::derivation::{
    address_bytes, create_program_address, derived_bytes, find_program_address, found_is,
    found_program_address, is_address, program_address, push_bump, tag_seed, with_bump, Derived,
};
use crate::identity::Identity;
use crate::ledger::{Context, Creation, Failure, RECORD_HEADER_LEN};
use vstd::prelude::*;

verus! {

/// First seed of a vault record's address: the bytes of `vault_state`.
pub const VAULT_STATE_TAG: [u8; 11] = [
    0x76, 0x61, 0x75, 0x6c, 0x74, 0x5f, 0x73, 0x74, 0x61, 0x74, 0x65,
];

/// First seed of a custody authority's address: the bytes of `vault_auth`.
pub const VAULT_AUTHORITY_TAG: [u8; 10] = [
    0x76, 0x61, 0x75, 0x6c, 0x74, 0x5f, 0x61, 0x75, 0x74, 0x68,
];

/// The rules of the vault that a call can break.
#[derive(Clone, Copy, Debug, PartialEq, Eq)]
pub enum TimelockError {
    /// The unlock time is not strictly later than the clock at creation.
    ReleaseInPast,
    /// The clock has not reached the unlock time.
    TooEarly,
    /// The record was released before.
    AlreadyReleased,
    /// The custody account holds nothing.
    NothingToRelease,
}

/// The stored record of one vault.
#[derive(Clone, Copy, Debug, PartialEq, Eq)]
pub struct VaultState {
    /// The asset held in custody.
    pub mint: Identity,
    /// The only identity the balance may go to.
    pub destination: Identity,
    /// Release is permitted at this instant and after it.
    pub release_at: i64,
    /// Set by the one successful release; never cleared.
    pub released: bool,
    /// Bump seed of the record's own address.
    pub bump: u8,
    /// Bump seed of the custody authority's address.
    pub vault_bump: u8,
}

/// What the ledger shows of a token holding account.
#[derive(Clone, Copy, Debug, PartialEq, Eq)]
pub struct TokenAccount {
    /// The asset the account holds.
    pub mint: Identity,
    /// The identity that may spend from it.
    pub owner: Identity,
    /// The balance.
    pub amount: u64,
}

/// The accounts presented to `initialize`.
#[derive(Clone, Copy, Debug, PartialEq, Eq)]
pub struct Initialize {
    /// Whoever pays for the new record.
    pub payer: Identity,
    /// Address of the asset.
    pub mint: Identity,
    /// The identity the balance is committed to.
    pub destination: Identity,
    /// Address presented for the vault record.
    pub state_key: Identity,
    /// What that address holds: `None` while it is unoccupied.
    pub state: Option<VaultState>,
    /// The identity presented as authority over the custody account.
    pub vault_authority: Identity,
}

/// The accounts presented to `release`.
#[derive(Clone, Copy, Debug, PartialEq, Eq)]
pub struct Release {
    /// Whoever asked for the release; any identity may.
    pub caller: Identity,
    /// Address of the asset.
    pub mint: Identity,
    /// Address of the vault record.
    pub state_key: Identity,
    /// The vault record.
    pub state: VaultState,
    /// The identity presented as authority over the custody account.
    pub vault_authority: Identity,
    /// Address of the custody account.
    pub vault_ata_key: Identity,
    /// The custody account.
    pub vault_ata: TokenAccount,
    /// Address of the destination's holding account.
    pub destination_ata_key: Identity,
    /// The destination's holding account.
    pub destination_ata: TokenAccount,
}

/// The instruction that a successful release hands to the ledger.
#[derive(Clone, Debug, PartialEq, Eq)]
pub struct Transfer {
    /// Address of the account to debit.
    pub from: Identity,
    /// Address of the account to credit.
    pub to: Identity,
    /// The identity that authorizes the debit.
    pub authority: Identity,
    /// The amount to move.
    pub amount: u64,
    /// The seeds and bump seed from which the ledger re-derives `authority`.
    pub signer_seeds: Vec<Vec<u8>>,
}

/// Seeds of the address of the vault record for `mint` and `destination`.
pub open spec fn vault_state_seeds(mint: Identity, destination: Identity) -> Seq<Seq<u8>> {
    seq![VAULT_STATE_TAG@, mint@, destination@]
}

/// Seeds of the address of the authority over the custody account of the
/// record at `state_key`.
pub open spec fn vault_authority_seeds(state_key: Identity) -> Seq<Seq<u8>> {
    seq![VAULT_AUTHORITY_TAG@, state_key@]
}

impl VaultState {
    /// Bytes that the record takes in storage.
    pub const SIZE: usize = 32 + 32 + 8 + 1 + 1 + 1;

    /// The address that the record's seeds and stored bump seed derive under
    /// `program_id`.
    pub open spec fn derived_key(self, program_id: Identity) -> Option<Seq<u8>> {
        program_address(
            with_bump(vault_state_seeds(self.mint, self.destination), self.bump),
            program_id@,
        )
    }

    /// The custody authority that the stored bump seed derives for a record at
    /// `state_key` under `program_id`.
    pub open spec fn derived_authority(self, program_id: Identity, state_key: Identity) -> Option<
        Seq<u8>,
    > {
        program_address(with_bump(vault_authority_seeds(state_key), self.vault_bump), program_id@)
    }
}

impl Initialize {
    /// The record that a creation at clock reading `now` stores, or why it is
    /// refused, given what the search found for the record's seeds
    /// (`state_found`) and for the custody authority's (`authority_found`).
    pub open spec fn verdict(
        self,
        state_found: Option<(Seq<u8>, u8)>,
        authority_found: Option<(Seq<u8>, u8)>,
        release_at: i64,
        now: i64,
    ) -> Result<VaultState, Failure<TimelockError>> {
        if !(state_found matches Some(found) && found.0 == self.state_key@) {
            Err(Failure::ConstraintViolation)
        } else if self.state is Some {
            Err(Failure::AddressInUse)
        } else if !(authority_found matches Some(found) && found.0 == self.vault_authority@) {
            Err(Failure::ConstraintViolation)
        } else if release_at <= now {
            Err(Failure::Rule(TimelockError::ReleaseInPast))
        } else {
            Ok(
                VaultState {
                    mint: self.mint,
                    destination: self.destination,
                    release_at,
                    released: false,
                    bump: state_found.unwrap().1,
                    vault_bump: authority_found.unwrap().1,
                },
            )
        }
    }

    /// The accounts once `record` is stored at the presented address.
    pub open spec fn holding(self, record: VaultState) -> Initialize {
        Initialize { state: Some(record), ..self }
    }
}

impl Release {
    /// The accounts are the ones the record commits to, given the address
    /// `state_address` derived for the record and the authority
    /// `authority_address` derived for its custody account.
    pub open spec fn bound(
        self,
        state_address: Option<Seq<u8>>,
        authority_address: Option<Seq<u8>>,
    ) -> bool {
        &&& state_address == Some(self.state_key@)
        &&& self.state.mint == self.mint
        &&& authority_address == Some(self.vault_authority@)
        &&& self.vault_ata.mint == self.mint
        &&& self.vault_ata.owner == self.vault_authority
        &&& self.destination_ata.mint == self.mint
        &&& self.destination_ata.owner == self.state.destination
    }

    /// Whether a release at clock reading `now` goes through, and if not, why.
    pub open spec fn verdict(
        self,
        state_address: Option<Seq<u8>>,
        authority_address: Option<Seq<u8>>,
        now: i64,
    ) -> Result<(), Failure<TimelockError>> {
        if !self.bound(state_address, authority_address) {
            Err(Failure::ConstraintViolation)
        } else if now < self.state.release_at {
            Err(Failure::Rule(TimelockError::TooEarly))
        } else if self.state.released {
            Err(Failure::Rule(TimelockError::AlreadyReleased))
        } else if self.vault_ata.amount == 0 {
            Err(Failure::Rule(TimelockError::NothingToRelease))
        } else {
            Ok(())
        }
    }

    /// The accounts after a successful release: the record is marked, nothing
    /// else differs.
    pub open spec fn after_release(self) -> Release {
        Release { state: VaultState { released: true, ..self.state }, ..self }
    }
}

impl Transfer {
    /// The instruction moves the whole custody balance of `accounts` to the
    /// destination's holding account, on the authority derived for the record.
    pub open spec fn empties(self, accounts: Release) -> bool {
        &&& self.from == accounts.vault_ata_key
        &&& self.to == accounts.destination_ata_key
        &&& self.authority == accounts.vault_authority
        &&& self.amount == accounts.vault_ata.amount
        &&& self.signer_seeds.deep_view() == with_bump(
            vault_authority_seeds(accounts.state_key),
            accounts.state.vault_bump,
        )
    }
}

/// Builds the seeds of the custody authority of the record at `state_key`.
fn authority_seed_list(state_key: &Identity) -> (seeds: Vec<Vec<u8>>)
    ensures
        seeds.deep_view() == vault_authority_seeds(*state_key),
{
    let mut seeds: Vec<Vec<u8>> = Vec::new();
    seeds.push(tag_seed(&VAULT_AUTHORITY_TAG));
    seeds.push(state_key.to_vec());
    assert(seeds.deep_view() =~~= vault_authority_seeds(*state_key));
    seeds
}

/// Builds the seeds of the vault record for `mint` and `destination`.
fn state_seed_list(mint: &Identity, destination: &Identity) -> (seeds: Vec<Vec<u8>>)
    ensures
        seeds.deep_view() == vault_state_seeds(*mint, *destination),
{
    let mut seeds: Vec<Vec<u8>> = Vec::new();
    seeds.push(tag_seed(&VAULT_STATE_TAG));
    seeds.push(mint.to_vec());
    seeds.push(destination.to_vec());
    assert(seeds.deep_view() =~~= vault_state_seeds(*mint, *destination));
    seeds
}

/// Finds the address of the vault record for `mint` and `destination` under
/// `program_id`, and its bump seed.
pub fn vault_state_address(program_id: &Identity, mint: &Identity, destination: &Identity) -> (found:
    Option<Derived>)
    ensures
        derived_bytes(found) == found_program_address(
            vault_state_seeds(*mint, *destination),
            program_id@,
        ),
        found matches Some(d) ==> program_address(
            with_bump(vault_state_seeds(*mint, *destination), d.bump),
            program_id@,
        ) == Some(d.address@),
{
    let seeds = state_seed_list(mint, destination);
    find_program_address(&seeds, program_id)
}

/// Finds the authority over the custody account of the record at `state_key`
/// under `program_id`, and its bump seed.
pub fn vault_authority_address(program_id: &Identity, state_key: &Identity) -> (found: Option<
    Derived,
>)
    ensures
        derived_bytes(found) == found_program_address(
            vault_authority_seeds(*state_key),
            program_id@,
        ),
        found matches Some(d) ==> program_address(
            with_bump(vault_authority_seeds(*state_key), d.bump),
            program_id@,
        ) == Some(d.address@),
{
    let seeds = authority_seed_list(state_key);
    find_program_address(&seeds, program_id)
}

/// One creation, given what the search found for the record's seeds and for
/// the custody authority's.
///
/// The presented record address must be the one found for the asset and the
/// destination, it must be unoccupied, the presented authority must be the one
/// found for the record's address, and the unlock time must lie strictly after
/// `now`. Then the record is stored, unreleased, with both bump seeds, and
/// the creation of a record of the fixed size is returned for the ledger to
/// carry out. No funds move. A refusal leaves everything as it was.
pub fn initialize_step(
    ctx: &mut Context<Initialize>,
    state_found: Option<Derived>,
    authority_found: Option<Derived>,
    release_at: i64,
    now: i64,
) -> (result: Result<Creation, Failure<TimelockError>>)
    ensures
        final(ctx).program_id == old(ctx).program_id,
        (match old(ctx).accounts.verdict(
            derived_bytes(state_found),
            derived_bytes(authority_found),
            release_at,
            now,
        ) {
            Ok(record) => {
                &&& result matches Ok(creation)
                &&& creation.allocates(
                    old(ctx).accounts.state_key,
                    (RECORD_HEADER_LEN + VaultState::SIZE) as nat,
                    with_bump(
                        vault_state_seeds(old(ctx).accounts.mint, old(ctx).accounts.destination),
                        record.bump,
                    ),
                )
                &&& final(ctx).accounts == old(ctx).accounts.holding(record)
            },
            Err(failure) => result === Err(failure) && *final(ctx) == *old(ctx),
        }),
{
    if !found_is(&state_found, &ctx.accounts.state_key) {
        return Err(Failure::ConstraintViolation);
    }
    if ctx.accounts.state.is_some() {
        return Err(Failure::AddressInUse);
    }
    if !found_is(&authority_found, &ctx.accounts.vault_authority) {
        return Err(Failure::ConstraintViolation);
    }
    if release_at <= now {
        return Err(Failure::Rule(TimelockError::ReleaseInPast));
    }
    let bump = state_found.unwrap().bump;
    let creation = Creation {
        address: ctx.accounts.state_key,
        space: RECORD_HEADER_LEN + VaultState::SIZE,
        signer_seeds: push_bump(
            state_seed_list(&ctx.accounts.mint, &ctx.accounts.destination),
            bump,
        ),
    };
    ctx.accounts.state = Some(
        VaultState {
            mint: ctx.accounts.mint,
            destination: ctx.accounts.destination,
            release_at,
            released: false,
            bump,
            vault_bump: authority_found.unwrap().bump,
        },
    );
    Ok(creation)
}

/// Creates the vault record for the asset and destination in `ctx`, to unlock
/// at `release_at`, at clock reading `now`.
///
/// Searches the record's address and the custody authority, then decides as
/// `initialize_step` does. The record that a success stores re-derives, with
/// its stored bump seeds, the presented record address and authority.
pub fn initialize(ctx: &mut Context<Initialize>, release_at: i64, now: i64) -> (result: Result<
    Creation,
    Failure<TimelockError>,
>)
    ensures
        final(ctx).program_id == old(ctx).program_id,
        (match old(ctx).accounts.verdict(
            found_program_address(
                vault_state_seeds(old(ctx).accounts.mint, old(ctx).accounts.destination),
                old(ctx).program_id@,
            ),
            found_program_address(
                vault_authority_seeds(old(ctx).accounts.state_key),
                old(ctx).program_id@,
            ),
            release_at,
            now,
        ) {
            Ok(record) => {
                &&& result matches Ok(creation)
                &&& creation.allocates(
                    old(ctx).accounts.state_key,
                    (RECORD_HEADER_LEN + VaultState::SIZE) as nat,
                    with_bump(
                        vault_state_seeds(old(ctx).accounts.mint, old(ctx).accounts.destination),
                        record.bump,
                    ),
                )
                &&& final(ctx).accounts == old(ctx).accounts.holding(record)
                &&& record.derived_key(old(ctx).program_id) == Some(old(ctx).accounts.state_key@)
                &&& record.derived_authority(old(ctx).program_id, old(ctx).accounts.state_key)
                    == Some(old(ctx).accounts.vault_authority@)
            },
            Err(failure) => result === Err(failure) && *final(ctx) == *old(ctx),
        }),
{
    let state_found = vault_state_address(
        &ctx.program_id,
        &ctx.accounts.mint,
        &ctx.accounts.destination,
    );
    let authority_found = vault_authority_address(&ctx.program_id, &ctx.accounts.state_key);
    initialize_step(ctx, state_found, authority_found, release_at, now)
}

/// One release, given the addresses that the record's seeds derive.
///
/// `state_address` is the address derived for the record from its asset, its
/// destination and its stored bump seed; `authority_address` the one derived
/// for the custody authority from the record's address and the other stored
/// bump seed. Anyone may call: the accounts must be the committed ones, the
/// clock must have reached the unlock time, the record must not have been
/// released, and the custody account must hold something. Then the record is
/// marked released and the transfer of the whole balance is returned for the
/// ledger to carry out. A refusal leaves everything as it was.
pub fn release_step(
    ctx: &mut Context<Release>,
    state_address: Option<Identity>,
    authority_address: Option<Identity>,
    now: i64,
) -> (result: Result<Transfer, Failure<TimelockError>>)
    ensures
        final(ctx).program_id == old(ctx).program_id,
        (match old(ctx).accounts.verdict(
            address_bytes(state_address),
            address_bytes(authority_address),
            now,
        ) {
            Ok(()) => {
                &&& result matches Ok(transfer)
                &&& transfer.empties(old(ctx).accounts)
                &&& final(ctx).accounts == old(ctx).accounts.after_release()
            },
            Err(failure) => result === Err(failure) && *final(ctx) == *old(ctx),
        }),
{
    let bound = is_address(&state_address, &ctx.accounts.state_key)
        && ctx.accounts.state.mint == ctx.accounts.mint
        && is_address(&authority_address, &ctx.accounts.vault_authority)
        && ctx.accounts.vault_ata.mint == ctx.accounts.mint
        && ctx.accounts.vault_ata.owner == ctx.accounts.vault_authority
        && ctx.accounts.destination_ata.mint == ctx.accounts.mint
        && ctx.accounts.destination_ata.owner == ctx.accounts.state.destination;
    if !bound {
        return Err(Failure::ConstraintViolation);
    }
    if now < ctx.accounts.state.release_at {
        return Err(Failure::Rule(TimelockError::TooEarly));
    }
    if ctx.accounts.state.released {
        return Err(Failure::Rule(TimelockError::AlreadyReleased));
    }
    let amount = ctx.accounts.vault_ata.amount;
    if amount == 0 {
        return Err(Failure::Rule(TimelockError::NothingToRelease));
    }
    let transfer = Transfer {
        from: ctx.accounts.vault_ata_key,
        to: ctx.accounts.destination_ata_key,
        authority: ctx.accounts.vault_authority,
        amount,
        signer_seeds: push_bump(
            authority_seed_list(&ctx.accounts.state_key),
            ctx.accounts.state.vault_bump,
        ),
    };
    ctx.accounts.state.released = true;
    Ok(transfer)
}

/// Releases the custody balance of the vault in `ctx` at clock reading `now`.
///
/// Derives the record's address and the custody authority from the record's
/// seeds and stored bump seeds, then decides as `release_step` does.
pub fn release(ctx: &mut Context<Release>, now: i64) -> (result: Result<
    Transfer,
    Failure<TimelockError>,
>)
    ensures
        final(ctx).program_id == old(ctx).program_id,
        (match old(ctx).accounts.verdict(
            old(ctx).accounts.state.derived_key(old(ctx).program_id),
            old(ctx).accounts.state.derived_authority(
                old(ctx).program_id,
                old(ctx).accounts.state_key,
            ),
            now,
        ) {
            Ok(()) => {
                &&& result matches Ok(transfer)
                &&& transfer.empties(old(ctx).accounts)
                &&& final(ctx).accounts == old(ctx).accounts.after_release()
            },
            Err(failure) => result === Err(failure) && *final(ctx) == *old(ctx),
        }),
{
    let state_seeds = push_bump(
        state_seed_list(&ctx.accounts.mint, &ctx.accounts.state.destination),
        ctx.accounts.state.bump,
    );
    let state_address = create_program_address(&state_seeds, &ctx.program_id);
    let authority_seeds = push_bump(
        authority_seed_list(&ctx.accounts.state_key),
        ctx.accounts.state.vault_bump,
    );
    let authority_address = create_program_address(&authority_seeds, &ctx.program_id);
    release_step(ctx, state_address, authority_address, now)
}

/// The unlock time alone decides a creation at the record's address, while
/// that address is unoccupied, with the authority derived for it: an unlock
/// time at or before the clock reading is `ReleaseInPast`, a later one is
/// accepted and stored, unreleased.
pub proof fn lemma_creation_timing(
    accounts: Initialize,
    state_found: Option<(Seq<u8>, u8)>,
    authority_found: Option<(Seq<u8>, u8)>,
    release_at: i64,
    now: i64,
)
    requires
        state_found matches Some(f) && f.0 == accounts.state_key@,
        accounts.state is None,
        authority_found matches Some(f) && f.0 == accounts.vault_authority@,
    ensures
        release_at <= now ==> accounts.verdict(state_found, authority_found, release_at, now)
            === Err(Failure::Rule(TimelockError::ReleaseInPast)),
        release_at > now ==> (accounts.verdict(state_found, authority_found, release_at, now)
            matches Ok(record) && record.release_at == release_at && !record.released
            && record.mint == accounts.mint && record.destination == accounts.destination),
{
}

/// A vault is created once for an asset and a destination. After a creation
/// that succeeded on the accounts `first`, any creation for the same asset and
/// destination under the same program fails: at the record's address, which
/// the ledger now shows occupied, with `AddressInUse`, and at any other
/// address with `ConstraintViolation`.
pub proof fn lemma_vault_created_once(
    first: Initialize,
    state_found: Option<(Seq<u8>, u8)>,
    authority_found: Option<(Seq<u8>, u8)>,
    release_at: i64,
    now: i64,
    later: Initialize,
    later_authority_found: Option<(Seq<u8>, u8)>,
    later_release_at: i64,
    later_now: i64,
)
    requires
        first.verdict(state_found, authority_found, release_at, now) is Ok,
        later.mint == first.mint,
        later.destination == first.destination,
        later.state_key == first.state_key ==> later.state is Some,
    ensures
        later.state_key == first.state_key ==> later.verdict(
            state_found,
            later_authority_found,
            later_release_at,
            later_now,
        ) === Err(Failure::AddressInUse),
        later.state_key != first.state_key ==> later.verdict(
            state_found,
            later_authority_found,
            later_release_at,
            later_now,
        ) === Err(Failure::ConstraintViolation),
{
    if later.state_key != first.state_key {
        if later.state_key@ == first.state_key@ {
            Identity::lemma_view_injective(later.state_key, first.state_key);
        }
    }
}

/// What `initialize` creates, `release` accepts. A record whose stored bump
/// seeds re-derive its address and its custody authority, presented with that
/// address, that authority, its own asset, a custody account of that asset
/// under that authority and an account of that asset owned by its
/// destination, is bound; funded and unreleased, it is released at its unlock
/// time and at any time after it.
pub proof fn lemma_created_vault_is_releasable(program_id: Identity, accounts: Release, now: i64)
    requires
        accounts.state.derived_key(program_id) == Some(accounts.state_key@),
        accounts.state.derived_authority(program_id, accounts.state_key) == Some(
            accounts.vault_authority@,
        ),
        accounts.mint == accounts.state.mint,
        accounts.vault_ata.mint == accounts.state.mint,
        accounts.vault_ata.owner == accounts.vault_authority,
        accounts.destination_ata.mint == accounts.state.mint,
        accounts.destination_ata.owner == accounts.state.destination,
        !accounts.state.released,
        accounts.vault_ata.amount > 0,
        now >= accounts.state.release_at,
    ensures
        accounts.verdict(
            accounts.state.derived_key(program_id),
            accounts.state.derived_authority(program_id, accounts.state_key),
            now,
        ) is Ok,
{
}

/// Timing alone decides the release of a funded, unreleased record presented
/// with its committed accounts: before the unlock time it is `TooEarly`, at
/// the unlock time and ever after it goes through.
pub proof fn lemma_release_timing(
    accounts: Release,
    state_address: Option<Seq<u8>>,
    authority_address: Option<Seq<u8>>,
    now: i64,
)
    requires
        accounts.bound(state_address, authority_address),
        !accounts.state.released,
        accounts.vault_ata.amount > 0,
    ensures
        now < accounts.state.release_at ==> accounts.verdict(state_address, authority_address, now)
            === Err(Failure::Rule(TimelockError::TooEarly)),
        now >= accounts.state.release_at ==> accounts.verdict(
            state_address,
            authority_address,
            now,
        ) is Ok,
{
}

/// An empty custody account releases nothing: once the unlock time is reached,
/// an unreleased record with a balance of zero is refused with
/// `NothingToRelease`.
pub proof fn lemma_nothing_to_release(
    accounts: Release,
    state_address: Option<Seq<u8>>,
    authority_address: Option<Seq<u8>>,
    now: i64,
)
    requires
        accounts.bound(state_address, authority_address),
        now >= accounts.state.release_at,
        !accounts.state.released,
        accounts.vault_ata.amount == 0,
    ensures
        accounts.verdict(state_address, authority_address, now) === Err(
            Failure::Rule(TimelockError::NothingToRelease),
        ),
{
}

/// The accounts are bound to the record. Whatever the clock, the flag and the
/// balance, a release is refused with `ConstraintViolation` if the record is
/// not at the address its seeds derive, holds another asset than the one
/// presented, the authority is not the one derived for the record, the custody
/// account holds another asset or answers to another authority, or the
/// destination's account holds another asset or belongs to another identity
/// than the committed destination.
pub proof fn lemma_release_needs_bound_accounts(
    accounts: Release,
    state_address: Option<Seq<u8>>,
    authority_address: Option<Seq<u8>>,
    now: i64,
)
    requires
        state_address != Some(accounts.state_key@) || accounts.state.mint != accounts.mint
            || authority_address != Some(accounts.vault_authority@) || accounts.vault_ata.mint
            != accounts.mint || accounts.vault_ata.owner != accounts.vault_authority
            || accounts.destination_ata.mint != accounts.mint || accounts.destination_ata.owner
            != accounts.state.destination,
    ensures
        accounts.verdict(state_address, authority_address, now) === Err(
            Failure::ConstraintViolation,
        ),
{
}

/// A record is released once. After a release that succeeded on the accounts
/// `first` at clock reading `now`, every release of the record as it then
/// stands is refused, whatever accounts and balances come with it; where the
/// accounts are the committed ones and the clock has not gone back, the
/// refusal is `AlreadyReleased`.
pub proof fn lemma_released_once(
    first: Release,
    state_address: Option<Seq<u8>>,
    authority_address: Option<Seq<u8>>,
    now: i64,
    later: Release,
    later_state_address: Option<Seq<u8>>,
    later_authority_address: Option<Seq<u8>>,
    later_now: i64,
)
    requires
        first.verdict(state_address, authority_address, now) is Ok,
        later.state == first.after_release().state,
    ensures
        later.verdict(later_state_address, later_authority_address, later_now) is Err,
        later.bound(later_state_address, later_authority_address) && now <= later_now
            ==> later.verdict(later_state_address, later_authority_address, later_now) === Err(Failure::Rule(TimelockError::AlreadyReleased)),
{
}

/// Release is permissionless: who asks for it has no part in the decision.
pub proof fn lemma_release_ignores_caller(
    accounts: Release,
    other_caller: Identity,
    state_address: Option<Seq<u8>>,
    authority_address: Option<Seq<u8>>,
    now: i64,
)
    ensures
        (Release { caller: other_caller, ..accounts }).verdict(
            state_address,
            authority_address,
            now,
        ) == accounts.verdict(state_address, authority_address, now),
{
}

} // verus!
