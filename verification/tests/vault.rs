use anchor_lang::prelude::Pubkey;
use custody_core::derivation::Derived;
use custody_core::identity::Identity;
use custody_core::ledger::{Context, Failure};
use custody_core::timelock_vault::{
    initialize, initialize_step, release, release_step, vault_authority_address,
    vault_state_address, Initialize, Release, TimelockError, TokenAccount, VaultState,
};

const UNLOCK: i64 = 1_700_000_000;

fn party(n: u8) -> Identity {
    Identity::new([n; 32])
}

fn program() -> Identity {
    party(42)
}

fn mint() -> Identity {
    party(1)
}

fn destination() -> Identity {
    party(2)
}

fn state_key() -> Derived {
    vault_state_address(&program(), &mint(), &destination()).unwrap()
}

fn authority() -> Derived {
    vault_authority_address(&program(), &state_key().address).unwrap()
}

fn unopened() -> Context<Initialize> {
    Context {
        program_id: program(),
        accounts: Initialize {
            payer: party(9),
            mint: mint(),
            destination: destination(),
            state_key: state_key().address,
            state: None,
            vault_authority: authority().address,
        },
    }
}

/// The accounts of a vault created by `initialize`, funded with `balance`.
fn locked(balance: u64) -> Context<Release> {
    let mut opened = unopened();
    initialize(&mut opened, UNLOCK, UNLOCK - 1000).unwrap();
    Context {
        program_id: program(),
        accounts: Release {
            caller: party(77),
            mint: mint(),
            state_key: state_key().address,
            state: opened.accounts.state.unwrap(),
            vault_authority: authority().address,
            vault_ata_key: party(20),
            vault_ata: TokenAccount { mint: mint(), owner: authority().address, amount: balance },
            destination_ata_key: party(21),
            destination_ata: TokenAccount { mint: mint(), owner: destination(), amount: 5 },
        },
    }
}

#[test]
fn vault_record_size_is_fixed() {
    assert_eq!(VaultState::SIZE, 32 + 32 + 8 + 1 + 1 + 1);
    assert_eq!(VaultState::SIZE, 75);
}

#[test]
fn vault_with_unlock_in_the_past_is_refused() {
    let mut ctx = unopened();
    assert_eq!(
        initialize(&mut ctx, UNLOCK, UNLOCK + 1),
        Err(Failure::Rule(TimelockError::ReleaseInPast))
    );
    assert_eq!(ctx, unopened());
    assert_eq!(
        initialize(&mut ctx, i64::MIN, i64::MAX),
        Err(Failure::Rule(TimelockError::ReleaseInPast))
    );
}

#[test]
fn vault_with_unlock_at_the_present_is_refused() {
    let mut ctx = unopened();
    assert_eq!(
        initialize(&mut ctx, UNLOCK, UNLOCK),
        Err(Failure::Rule(TimelockError::ReleaseInPast))
    );
    assert_eq!(ctx, unopened());
}

#[test]
fn vault_with_unlock_in_the_future_is_created() {
    let mut ctx = unopened();
    let creation = initialize(&mut ctx, UNLOCK, UNLOCK - 1).unwrap();
    assert_eq!(creation.address, state_key().address);
    assert_eq!(creation.space, 83);
    assert_eq!(
        creation.signer_seeds,
        vec![
            b"vault_state".to_vec(),
            mint().bytes.to_vec(),
            destination().bytes.to_vec(),
            vec![state_key().bump]
        ]
    );
    assert_eq!(
        ctx.accounts.state,
        Some(VaultState {
            mint: mint(),
            destination: destination(),
            release_at: UNLOCK,
            released: false,
            bump: state_key().bump,
            vault_bump: authority().bump,
        })
    );
    let expected = Initialize { state: ctx.accounts.state, ..unopened().accounts };
    assert_eq!(ctx.accounts, expected);
    assert_eq!(ctx.program_id, program());
}

#[test]
fn vault_is_created_only_once() {
    let mut ctx = unopened();
    assert!(initialize(&mut ctx, UNLOCK, 0).is_ok());
    let created = ctx.clone();
    assert_eq!(initialize(&mut ctx, UNLOCK + 50, 10), Err(Failure::AddressInUse));
    assert_eq!(ctx, created);
    // An occupied address is reported before the unlock time is looked at.
    assert_eq!(initialize(&mut ctx, 5, 10), Err(Failure::AddressInUse));
}

#[test]
fn vault_at_another_address_is_refused() {
    let mut wrong_record = unopened();
    wrong_record.accounts.state_key = party(99);
    assert_eq!(initialize(&mut wrong_record, UNLOCK, 0), Err(Failure::ConstraintViolation));
    assert_eq!(wrong_record.accounts.state, None);

    let mut wrong_authority = unopened();
    wrong_authority.accounts.vault_authority = party(98);
    assert_eq!(initialize(&mut wrong_authority, UNLOCK, 0), Err(Failure::ConstraintViolation));
    assert_eq!(wrong_authority.accounts.state, None);

    // The record of another destination does not serve.
    let mut other_destination = unopened();
    other_destination.accounts.destination = party(3);
    assert_eq!(initialize(&mut other_destination, UNLOCK, 0), Err(Failure::ConstraintViolation));
}

#[test]
fn creation_step_decides_on_what_was_found() {
    let blank = || Context {
        program_id: program(),
        accounts: Initialize {
            payer: party(9),
            mint: mint(),
            destination: destination(),
            state_key: party(30),
            state: None,
            vault_authority: party(31),
        },
    };
    let record_at = Some(Derived { address: party(30), bump: 250 });
    let authority_at = Some(Derived { address: party(31), bump: 249 });
    let mut ctx = blank();
    assert_eq!(
        initialize_step(&mut ctx, None, authority_at, 10, 0),
        Err(Failure::ConstraintViolation)
    );
    assert_eq!(
        initialize_step(&mut ctx, record_at, None, 10, 0),
        Err(Failure::ConstraintViolation)
    );
    assert_eq!(
        initialize_step(&mut ctx, authority_at, record_at, 10, 0),
        Err(Failure::ConstraintViolation)
    );
    // A wrong address is reported before a late unlock time.
    assert_eq!(
        initialize_step(&mut ctx, record_at, None, 0, 10),
        Err(Failure::ConstraintViolation)
    );
    assert_eq!(
        initialize_step(&mut ctx, record_at, authority_at, 10, 10),
        Err(Failure::Rule(TimelockError::ReleaseInPast))
    );
    assert_eq!(ctx, blank());
    let creation = initialize_step(&mut ctx, record_at, authority_at, 11, 10).unwrap();
    assert_eq!(creation.address, party(30));
    assert_eq!(creation.space, 83);
    assert_eq!(creation.signer_seeds[3], vec![250u8]);
    let stored = ctx.accounts.state.unwrap();
    assert_eq!((stored.bump, stored.vault_bump), (250, 249));
    assert_eq!((stored.release_at, stored.released), (11, false));
    assert_eq!(
        initialize_step(&mut ctx, record_at, authority_at, 11, 10),
        Err(Failure::AddressInUse)
    );
}

#[test]
fn release_before_unlock_is_too_early() {
    let mut ctx = locked(100);
    let before = ctx.clone();
    assert_eq!(release(&mut ctx, UNLOCK - 1), Err(Failure::Rule(TimelockError::TooEarly)));
    assert_eq!(ctx, before);
    assert_eq!(release(&mut ctx, i64::MIN), Err(Failure::Rule(TimelockError::TooEarly)));
    assert_eq!(ctx, before);
}

#[test]
fn release_at_unlock_succeeds() {
    let mut ctx = locked(100);
    let transfer = release(&mut ctx, UNLOCK).unwrap();
    assert_eq!(transfer.amount, 100);
    assert!(ctx.accounts.state.released);
}

#[test]
fn release_after_unlock_succeeds() {
    let mut ctx = locked(100);
    assert_eq!(release(&mut ctx, UNLOCK + 1).unwrap().amount, 100);
    let mut much_later = locked(1);
    assert_eq!(release(&mut much_later, i64::MAX).unwrap().amount, 1);
}

#[test]
fn release_moves_the_whole_balance_to_the_destination() {
    let mut ctx = locked(u64::MAX);
    let before = ctx.clone();
    let transfer = release(&mut ctx, UNLOCK + 10).unwrap();
    assert_eq!(transfer.from, party(20));
    assert_eq!(transfer.to, party(21));
    assert_eq!(transfer.authority, authority().address);
    assert_eq!(transfer.amount, u64::MAX);
    assert_eq!(
        transfer.signer_seeds,
        vec![b"vault_auth".to_vec(), state_key().address.bytes.to_vec(), vec![authority().bump]]
    );
    // Only the flag of the record has changed.
    let mut expected = before.clone();
    expected.accounts.state.released = true;
    assert_eq!(ctx, expected);
}

#[test]
fn release_signs_with_seeds_that_derive_the_authority() {
    let mut ctx = locked(3);
    let transfer = release(&mut ctx, UNLOCK).unwrap();
    let seeds: Vec<&[u8]> = transfer.signer_seeds.iter().map(|seed| seed.as_slice()).collect();
    let derived =
        Pubkey::create_program_address(&seeds, &Pubkey::new_from_array(program().bytes)).unwrap();
    assert_eq!(derived.to_bytes(), transfer.authority.bytes);
}

#[test]
fn release_happens_only_once() {
    let mut ctx = locked(100);
    assert!(release(&mut ctx, UNLOCK).is_ok());
    let released = ctx.clone();
    assert_eq!(release(&mut ctx, UNLOCK), Err(Failure::Rule(TimelockError::AlreadyReleased)));
    assert_eq!(ctx, released);
    assert_eq!(release(&mut ctx, UNLOCK + 500), Err(Failure::Rule(TimelockError::AlreadyReleased)));
    // Emptied by the ledger, the account still answers that it was released.
    ctx.accounts.vault_ata.amount = 0;
    ctx.accounts.destination_ata.amount = 105;
    assert_eq!(release(&mut ctx, UNLOCK + 501), Err(Failure::Rule(TimelockError::AlreadyReleased)));
    assert!(ctx.accounts.state.released);
}

#[test]
fn release_of_an_empty_custody_account_is_refused() {
    let mut ctx = locked(0);
    let before = ctx.clone();
    assert_eq!(release(&mut ctx, UNLOCK), Err(Failure::Rule(TimelockError::NothingToRelease)));
    assert_eq!(release(&mut ctx, UNLOCK + 9), Err(Failure::Rule(TimelockError::NothingToRelease)));
    assert_eq!(ctx, before);
    assert!(!ctx.accounts.state.released);
}

#[test]
fn release_rules_are_examined_in_order() {
    // The clock comes before the flag.
    let mut released = locked(100);
    released.accounts.state.released = true;
    assert_eq!(release(&mut released, UNLOCK - 1), Err(Failure::Rule(TimelockError::TooEarly)));
    // The clock comes before the balance.
    let mut empty = locked(0);
    assert_eq!(release(&mut empty, UNLOCK - 1), Err(Failure::Rule(TimelockError::TooEarly)));
    // The flag comes before the balance.
    let mut both = locked(0);
    both.accounts.state.released = true;
    assert_eq!(release(&mut both, UNLOCK), Err(Failure::Rule(TimelockError::AlreadyReleased)));
    // The accounts come before all of them.
    let mut unbound = locked(0);
    unbound.accounts.state.released = true;
    unbound.accounts.vault_authority = party(66);
    assert_eq!(release(&mut unbound, UNLOCK - 1), Err(Failure::ConstraintViolation));
}

#[test]
fn release_with_unbound_accounts_is_refused() {
    let tamper: Vec<fn(&mut Release)> = vec![
        |a| a.state_key = party(50),
        |a| a.mint = party(51),
        |a| a.state.mint = party(51),
        |a| a.state.destination = party(52),
        |a| a.state.bump = a.state.bump.wrapping_sub(1),
        |a| a.state.vault_bump = a.state.vault_bump.wrapping_sub(1),
        |a| a.vault_authority = party(53),
        |a| a.vault_ata.mint = party(54),
        |a| a.vault_ata.owner = party(55),
        |a| a.vault_ata.owner = a.state.destination,
        |a| a.destination_ata.mint = party(56),
        |a| a.destination_ata.owner = party(57),
        |a| a.destination_ata.owner = a.vault_authority,
    ];
    for change in tamper {
        let mut ctx = locked(100);
        change(&mut ctx.accounts);
        let before = ctx.clone();
        assert_eq!(release(&mut ctx, UNLOCK + 1), Err(Failure::ConstraintViolation));
        assert_eq!(ctx, before);
    }
}

#[test]
fn release_under_another_program_is_refused() {
    let mut ctx = locked(100);
    ctx.program_id = party(43);
    assert_eq!(release(&mut ctx, UNLOCK + 1), Err(Failure::ConstraintViolation));
}

#[test]
fn release_does_not_ask_who_calls() {
    let mut by_stranger = locked(100);
    by_stranger.accounts.caller = party(250);
    let mut by_destination = locked(100);
    by_destination.accounts.caller = destination();
    assert_eq!(release(&mut by_stranger, UNLOCK), release(&mut by_destination, UNLOCK));
    assert_eq!(
        release(&mut locked(100), UNLOCK - 1),
        Err(Failure::Rule(TimelockError::TooEarly))
    );
}

#[test]
fn release_step_decides_on_the_derived_addresses() {
    let mut ctx = locked(100);
    let record = Some(state_key().address);
    let auth = Some(authority().address);
    let before = ctx.clone();
    assert_eq!(release_step(&mut ctx, None, auth, UNLOCK), Err(Failure::ConstraintViolation));
    assert_eq!(release_step(&mut ctx, record, None, UNLOCK), Err(Failure::ConstraintViolation));
    assert_eq!(release_step(&mut ctx, auth, record, UNLOCK), Err(Failure::ConstraintViolation));
    assert_eq!(
        release_step(&mut ctx, record, auth, UNLOCK - 1),
        Err(Failure::Rule(TimelockError::TooEarly))
    );
    assert_eq!(ctx, before);
    let transfer = release_step(&mut ctx, record, auth, UNLOCK).unwrap();
    assert_eq!(transfer.amount, 100);
    assert!(ctx.accounts.state.released);
    assert_eq!(
        release_step(&mut ctx, record, auth, UNLOCK),
        Err(Failure::Rule(TimelockError::AlreadyReleased))
    );
}

#[test]
fn concurrent_releases_debit_the_balance_once() {
    // Two callers read the same unlocked, funded record.
    let first_view = locked(100);
    let second_view = first_view.clone();

    // The ledger serializes them. The first one goes through, and the ledger
    // carries out its transfer and stores the record.
    let mut ledger = first_view;
    let transfer = release(&mut ledger, UNLOCK + 1).unwrap();
    ledger.accounts.vault_ata.amount -= transfer.amount;
    ledger.accounts.destination_ata.amount += transfer.amount;

    // The second one is decided on the record as it now stands.
    let mut second = second_view;
    second.accounts.caller = party(78);
    second.accounts.state = ledger.accounts.state;
    second.accounts.vault_ata = ledger.accounts.vault_ata;
    second.accounts.destination_ata = ledger.accounts.destination_ata;
    assert_eq!(
        release(&mut second, UNLOCK + 1),
        Err(Failure::Rule(TimelockError::AlreadyReleased))
    );

    assert_eq!(transfer.amount, 100);
    assert_eq!(ledger.accounts.vault_ata.amount, 0);
    assert_eq!(ledger.accounts.destination_ata.amount, 105);
    assert_eq!(second.accounts.vault_ata.amount, 0);
    assert_eq!(second.accounts.destination_ata.amount, 105);
}
