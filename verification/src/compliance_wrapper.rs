//! The governance registry: the one record of a deployment that names the
//! approvers, how many of them must approve, and how long an approved action
//! waits.

use crate::derivation::{
    derived_bytes, find_program_address, found_is, found_program_address, program_address,
    push_bump, tag_seed, with_bump, Derived,
};
use crate::distinct::has_duplicate;
use crate::identity::Identity;
use crate::ledger::{Context, Creation, Failure, RECORD_HEADER_LEN};
use vstd::prelude::*;

verus! {

/// Largest number of approvers a governance record can hold.
pub const MAX_MEMBERS: usize = 12;

/// The only seed of the governance record's address: the bytes of
/// `governance`.
pub const GOVERNANCE_TAG: [u8; 10] = [0x67, 0x6f, 0x76, 0x65, 0x72, 0x6e, 0x61, 0x6e, 0x63, 0x65];

/// The rules of formation that a candidate configuration can break.
#[derive(Clone, Copy, Debug, PartialEq, Eq)]
pub enum ComplianceError {
    /// No approver was named.
    EmptyMembers,
    /// More approvers were named than a record can hold.
    TooManyMembers,
    /// The threshold is zero or exceeds the number of approvers.
    InvalidThreshold,
    /// Some approver was named twice.
    DuplicateMember,
}

/// The stored governance record.
#[derive(Clone, Debug, PartialEq, Eq)]
pub struct Governance {
    /// The approvers, in the order in which the caller named them.
    pub members: Vec<Identity>,
    /// Approvals required to authorize a governed action.
    pub threshold: u8,
    /// Seconds between approval and execution of a governed action.
    pub delay_seconds: i64,
    /// Bump seed of the record's address.
    pub bump: u8,
}

/// A governance record as a mathematical value.
pub struct GovernanceView {
    pub members: Seq<Identity>,
    pub threshold: u8,
    pub delay_seconds: i64,
    pub bump: u8,
}

impl View for Governance {
    type V = GovernanceView;

    open spec fn view(&self) -> GovernanceView {
        GovernanceView {
            members: self.members@,
            threshold: self.threshold,
            delay_seconds: self.delay_seconds,
            bump: self.bump,
        }
    }
}

impl GovernanceView {
    /// What holds of every stored record: between one and twelve approvers,
    /// none of them twice, and a threshold between one and their number.
    pub open spec fn well_formed(self) -> bool {
        &&& 1 <= self.members.len() <= MAX_MEMBERS
        &&& 1 <= self.threshold <= self.members.len()
        &&& self.members.no_duplicates()
    }
}

/// Bytes that a record of `members_len` approvers takes in storage: an
/// eight-byte header, a four-byte count, thirty-two bytes for each approver,
/// the threshold byte, the eight-byte delay and the bump byte.
pub open spec fn record_space(members_len: nat) -> nat {
    (RECORD_HEADER_LEN + 4 + members_len * 32 + 1 + 8 + 1) as nat
}

impl Governance {
    /// Computes `record_space`.
    pub fn space_for(members_len: usize) -> (space: usize)
        requires
            record_space(members_len as nat) <= usize::MAX,
        ensures
            space == record_space(members_len as nat),
    {
        RECORD_HEADER_LEN + 4 + (members_len * 32) + 1 + 8 + 1
    }
}

/// The accounts presented to `initialize_governance`.
#[derive(Clone, Debug, PartialEq, Eq)]
pub struct InitializeGovernance {
    /// Whoever pays for the new record.
    pub payer: Identity,
    /// Address presented for the governance record.
    pub governance_key: Identity,
    /// What that address holds: `None` while it is unoccupied.
    pub governance: Option<Governance>,
}

/// The accounts presented to `initialize_registry`.
#[derive(Clone, Copy, Debug, PartialEq, Eq)]
pub struct InitializeRegistry {
    /// Whoever pays for the registry.
    pub payer: Identity,
}

/// The accounts presented to `add_blocked` and `remove_blocked`.
#[derive(Clone, Copy, Debug, PartialEq, Eq)]
pub struct UpdateRegistry {
    /// The identity on whose authority the registry changes.
    pub authority: Identity,
}

/// Seeds of the governance record's address.
pub open spec fn governance_seeds() -> Seq<Seq<u8>> {
    seq![GOVERNANCE_TAG@]
}

/// The first rule of formation, in the order in which they are examined, that
/// `members` and `threshold` break; `None` where they break none.
pub open spec fn formation_fault(members: Seq<Identity>, threshold: u8) -> Option<ComplianceError> {
    if members.len() == 0 {
        Some(ComplianceError::EmptyMembers)
    } else if members.len() > MAX_MEMBERS {
        Some(ComplianceError::TooManyMembers)
    } else if threshold > members.len() {
        Some(ComplianceError::InvalidThreshold)
    } else if threshold == 0 {
        Some(ComplianceError::InvalidThreshold)
    } else if !members.no_duplicates() {
        Some(ComplianceError::DuplicateMember)
    } else {
        None
    }
}

impl InitializeGovernance {
    /// The record that a formation stores, or why it is refused, given what
    /// the search found for the record's seeds.
    pub open spec fn verdict(
        self,
        found: Option<(Seq<u8>, u8)>,
        members: Seq<Identity>,
        threshold: u8,
        delay_seconds: i64,
    ) -> Result<GovernanceView, Failure<ComplianceError>> {
        if !(found matches Some(f) && f.0 == self.governance_key@) {
            Err(Failure::ConstraintViolation)
        } else if self.governance is Some {
            Err(Failure::AddressInUse)
        } else {
            match formation_fault(members, threshold) {
                Some(fault) => Err(Failure::Rule(fault)),
                None => Ok(
                    GovernanceView { members, threshold, delay_seconds, bump: found.unwrap().1 },
                ),
            }
        }
    }

    /// These are the accounts `before` with `record` stored at the presented
    /// address.
    pub open spec fn holds(self, before: InitializeGovernance, record: GovernanceView) -> bool {
        &&& self.payer == before.payer
        &&& self.governance_key == before.governance_key
        &&& self.governance matches Some(stored)
        &&& stored@ == record
    }
}

/// Examines a candidate configuration against the rules of formation, in
/// order: some approver, at most twelve, a threshold no larger than their
/// number, a threshold above zero, no approver twice.
pub fn check_formation(members: &Vec<Identity>, threshold: u8) -> (result: Result<
    (),
    ComplianceError,
>)
    ensures
        result === (match formation_fault(members@, threshold) {
            Some(fault) => Err(fault),
            None => Ok(()),
        }),
{
    if members.len() == 0 {
        return Err(ComplianceError::EmptyMembers);
    }
    if members.len() > MAX_MEMBERS {
        return Err(ComplianceError::TooManyMembers);
    }
    if threshold as usize > members.len() {
        return Err(ComplianceError::InvalidThreshold);
    }
    if threshold == 0 {
        return Err(ComplianceError::InvalidThreshold);
    }
    if has_duplicate(members) {
        return Err(ComplianceError::DuplicateMember);
    }
    Ok(())
}

/// Builds the seeds of the governance record.
fn governance_seed_list() -> (seeds: Vec<Vec<u8>>)
    ensures
        seeds.deep_view() == governance_seeds(),
{
    let mut seeds: Vec<Vec<u8>> = Vec::new();
    seeds.push(tag_seed(&GOVERNANCE_TAG));
    assert(seeds.deep_view() =~~= governance_seeds());
    seeds
}

/// Finds the address of the governance record under `program_id`, and its
/// bump seed.
pub fn governance_address(program_id: &Identity) -> (found: Option<Derived>)
    ensures
        derived_bytes(found) == found_program_address(governance_seeds(), program_id@),
        found matches Some(d) ==> program_address(
            with_bump(governance_seeds(), d.bump),
            program_id@,
        ) == Some(d.address@),
{
    let seeds = governance_seed_list();
    find_program_address(&seeds, program_id)
}

/// One formation, given what the search found for the record's seeds.
///
/// The presented address must be the one found, it must be unoccupied, and
/// the configuration must pass `check_formation`. Then the record is stored
/// with the approvers in the caller's order, and the creation of a record
/// sized for exactly that many approvers is returned for the ledger to carry
/// out. A refusal leaves everything as it was.
pub fn initialize_governance_step(
    ctx: &mut Context<InitializeGovernance>,
    found: Option<Derived>,
    members: Vec<Identity>,
    threshold: u8,
    delay_seconds: i64,
) -> (result: Result<Creation, Failure<ComplianceError>>)
    ensures
        final(ctx).program_id == old(ctx).program_id,
        (match old(ctx).accounts.verdict(derived_bytes(found), members@, threshold, delay_seconds) {
            Ok(record) => {
                &&& result matches Ok(creation)
                &&& creation.allocates(
                    old(ctx).accounts.governance_key,
                    record_space(record.members.len()),
                    with_bump(governance_seeds(), record.bump),
                )
                &&& final(ctx).accounts.holds(old(ctx).accounts, record)
                &&& record.well_formed()
            },
            Err(failure) => result === Err(failure) && *final(ctx) == *old(ctx),
        }),
{
    if !found_is(&found, &ctx.accounts.governance_key) {
        return Err(Failure::ConstraintViolation);
    }
    if ctx.accounts.governance.is_some() {
        return Err(Failure::AddressInUse);
    }
    if let Err(fault) = check_formation(&members, threshold) {
        return Err(Failure::Rule(fault));
    }
    let bump = found.unwrap().bump;
    let creation = Creation {
        address: ctx.accounts.governance_key,
        space: Governance::space_for(members.len()),
        signer_seeds: push_bump(governance_seed_list(), bump),
    };
    ctx.accounts.governance = Some(Governance { members, threshold, delay_seconds, bump });
    Ok(creation)
}

/// Forms the governance of the deployment in `ctx`.
///
/// Searches the record's address, then decides as `initialize_governance_step`
/// does. The record that a success stores re-derives, with its stored bump
/// seed, the presented address.
pub fn initialize_governance(
    ctx: &mut Context<InitializeGovernance>,
    members: Vec<Identity>,
    threshold: u8,
    delay_seconds: i64,
) -> (result: Result<Creation, Failure<ComplianceError>>)
    ensures
        final(ctx).program_id == old(ctx).program_id,
        (match old(ctx).accounts.verdict(
            found_program_address(governance_seeds(), old(ctx).program_id@),
            members@,
            threshold,
            delay_seconds,
        ) {
            Ok(record) => {
                &&& result matches Ok(creation)
                &&& creation.allocates(
                    old(ctx).accounts.governance_key,
                    record_space(record.members.len()),
                    with_bump(governance_seeds(), record.bump),
                )
                &&& final(ctx).accounts.holds(old(ctx).accounts, record)
                &&& record.well_formed()
                &&& program_address(
                    with_bump(governance_seeds(), record.bump),
                    old(ctx).program_id@,
                ) == Some(old(ctx).accounts.governance_key@)
            },
            Err(failure) => result === Err(failure) && *final(ctx) == *old(ctx),
        }),
{
    let found = governance_address(&ctx.program_id);
    initialize_governance_step(ctx, found, members, threshold, delay_seconds)
}

/// The rules of formation, one by one. No approver is `EmptyMembers`; more
/// than twelve is `TooManyMembers`; with one to twelve approvers, a threshold
/// of zero or above their number is `InvalidThreshold`; with a threshold in
/// range, an approver named twice, at whatever positions, is
/// `DuplicateMember`; and a configuration is accepted exactly when it is well
/// formed.
pub proof fn lemma_formation_rules(members: Seq<Identity>, threshold: u8, delay_seconds: i64, bump: u8)
    ensures
        members.len() == 0 ==> formation_fault(members, threshold) == Some(
            ComplianceError::EmptyMembers,
        ),
        members.len() > MAX_MEMBERS ==> formation_fault(members, threshold) == Some(
            ComplianceError::TooManyMembers,
        ),
        1 <= members.len() <= MAX_MEMBERS && (threshold == 0 || threshold > members.len())
            ==> formation_fault(members, threshold) == Some(ComplianceError::InvalidThreshold),
        1 <= threshold <= members.len() <= MAX_MEMBERS && (exists|i: int, j: int|
            0 <= i < j < members.len() && members[i] == members[j]) ==> formation_fault(
            members,
            threshold,
        ) == Some(ComplianceError::DuplicateMember),
        formation_fault(members, threshold) is None <==> (GovernanceView {
            members,
            threshold,
            delay_seconds,
            bump,
        }).well_formed(),
{
}

/// A well-formed configuration, presented with the record's address while
/// that address is unoccupied, is accepted and stored as given.
pub proof fn lemma_well_formed_is_accepted(
    accounts: InitializeGovernance,
    found: Option<(Seq<u8>, u8)>,
    members: Seq<Identity>,
    threshold: u8,
    delay_seconds: i64,
)
    requires
        found matches Some(f) && f.0 == accounts.governance_key@,
        accounts.governance is None,
        1 <= members.len() <= MAX_MEMBERS,
        1 <= threshold <= members.len(),
        members.no_duplicates(),
    ensures
        accounts.verdict(found, members, threshold, delay_seconds) matches Ok(record)
            && record.members == members && record.threshold == threshold
            && record.delay_seconds == delay_seconds,
{
}

/// Governance is formed once. After a formation that succeeded on the
/// accounts `first`, any formation under the same program fails: at the
/// record's address, which the ledger now shows occupied, with `AddressInUse`,
/// and at any other address with `ConstraintViolation`.
pub proof fn lemma_governance_formed_once(
    first: InitializeGovernance,
    found: Option<(Seq<u8>, u8)>,
    members: Seq<Identity>,
    threshold: u8,
    delay_seconds: i64,
    later: InitializeGovernance,
    later_members: Seq<Identity>,
    later_threshold: u8,
    later_delay_seconds: i64,
)
    requires
        first.verdict(found, members, threshold, delay_seconds) is Ok,
        later.governance_key == first.governance_key ==> later.governance is Some,
    ensures
        later.governance_key == first.governance_key ==> later.verdict(
            found,
            later_members,
            later_threshold,
            later_delay_seconds,
        ) === Err(Failure::AddressInUse),
        later.governance_key != first.governance_key ==> later.verdict(
            found,
            later_members,
            later_threshold,
            later_delay_seconds,
        ) === Err(Failure::ConstraintViolation),
{
    if later.governance_key != first.governance_key {
        if later.governance_key@ == first.governance_key@ {
            Identity::lemma_view_injective(later.governance_key, first.governance_key);
        }
    }
}

/// Reserved for the blocklist registry, which a collaborator keeps: accepts
/// the call and changes nothing.
pub fn initialize_registry(_ctx: &Context<InitializeRegistry>) -> (result: Result<
    (),
    Failure<ComplianceError>,
>)
    ensures
        result === Ok(()),
{
    Ok(())
}

/// Reserved for the blocklist registry: the shape of blocking `_subject` for
/// the reason `_reason_code`. Accepts the call and changes nothing.
pub fn add_blocked(_ctx: &Context<UpdateRegistry>, _subject: Identity, _reason_code: u16) -> (result:
    Result<(), Failure<ComplianceError>>)
    ensures
        result === Ok(()),
{
    Ok(())
}

/// Reserved for the blocklist registry: the shape of unblocking `_subject`.
/// Accepts the call and changes nothing.
pub fn remove_blocked(_ctx: &Context<UpdateRegistry>, _subject: Identity) -> (result: Result<
    (),
    Failure<ComplianceError>,
>)
    ensures
        result === Ok(()),
{
    Ok(())
}

} // verus!
