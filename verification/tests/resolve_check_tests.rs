use squads_index::addr::Address;
use squads_index::check::{check_start, check_step, CheckOutcome, CheckState};
use squads_index::instruction::build_index_instruction;
use squads_index::pda::{
    derive_authority, derive_index, derive_program_data, index_program_id, is_derivable_authority,
    loader_id, squads_program_id, system_program_id,
};
use squads_index::resolve::{
    resolve_start, resolve_step, AccountSnapshot, ResolveError, ResolveEvent, ResolveState,
    ResolvedTarget,
};

fn multisig_record_bytes(threshold: u16, keys: &[[u8; 32]]) -> Vec<u8> {
    let mut data = vec![70u8, 118, 9, 108, 254, 215, 31, 120];
    data.extend_from_slice(&threshold.to_le_bytes());
    while data.len() < 54 {
        data.push(0);
    }
    data.extend_from_slice(&(keys.len() as u32).to_le_bytes());
    for k in keys {
        data.extend_from_slice(k);
    }
    data
}

/// A 32-byte value that is a valid signing key: found by trying candidates,
/// since roughly half of all byte patterns decode to a curve point.
fn find_signing_key() -> Address {
    for b in 0u8..=255 {
        let mut bytes = [0u8; 32];
        bytes[0] = b;
        let a = Address::new(bytes);
        if !is_derivable_authority(&a) {
            return a;
        }
    }
    panic!("no signing key among the candidates");
}

fn program_data_bytes(mutable: bool, authority: &Address) -> Vec<u8> {
    let mut data = vec![0u8; 13];
    data[12] = if mutable { 1 } else { 0 };
    data.extend_from_slice(&authority.bytes);
    data.push(0);
    data
}

#[test]
fn resolve_missing_account_is_not_found() {
    let s = resolve_start(Address::new([7u8; 32]));
    let s = resolve_step(s, ResolveEvent::AccountFetched { account: None });
    match s {
        ResolveState::Done { result } => assert_eq!(result.err(), Some(ResolveError::AccountNotFound)),
        _ => panic!("expected a final state"),
    }
}

#[test]
fn resolve_multisig_input_derives_its_authority() {
    let multisig = Address::new([7u8; 32]);
    let expected = derive_authority(&multisig).expect("authority derivation").0;
    let account = AccountSnapshot {
        owner: squads_program_id(),
        lamports: 1_000_000,
        data: multisig_record_bytes(2, &[[1u8; 32], [2u8; 32], [3u8; 32]]),
    };
    let s = resolve_start(multisig);
    let s = resolve_step(s, ResolveEvent::AccountFetched { account: Some(account) });
    match s {
        ResolveState::Done { result } => match result.expect("resolution") {
            ResolvedTarget::DirectAuthority { multisig: m, authority } => {
                assert_eq!(m.bytes, [7u8; 32]);
                assert_eq!(authority.bytes, expected.bytes);
            },
            _ => panic!("expected the direct variant"),
        },
        _ => panic!("expected a final state"),
    }
}

#[test]
fn resolve_rejects_garbled_multisig_account() {
    let account = AccountSnapshot {
        owner: squads_program_id(),
        lamports: 1,
        data: vec![1, 2, 3],
    };
    let s = resolve_step(
        resolve_start(Address::new([7u8; 32])),
        ResolveEvent::AccountFetched { account: Some(account) },
    );
    match s {
        ResolveState::Done { result } => assert_eq!(result.err(), Some(ResolveError::InvalidAccount)),
        _ => panic!("expected a final state"),
    }
}

#[test]
fn resolve_rejects_unrecognised_owner() {
    let account = AccountSnapshot {
        owner: Address::new([42u8; 32]),
        lamports: 1,
        data: vec![0; 36],
    };
    let s = resolve_step(
        resolve_start(Address::new([7u8; 32])),
        ResolveEvent::AccountFetched { account: Some(account) },
    );
    match s {
        ResolveState::Done { result } => assert_eq!(result.err(), Some(ResolveError::InvalidAccount)),
        _ => panic!("expected a final state"),
    }
}

#[test]
fn resolve_program_input_walks_to_program_data() {
    let program = Address::new([7u8; 32]);
    let expected_pd = derive_program_data(&program).expect("program data derivation").0;
    let account = AccountSnapshot { owner: loader_id(), lamports: 1, data: vec![0; 36] };
    let s = resolve_step(
        resolve_start(program),
        ResolveEvent::AccountFetched { account: Some(account) },
    );
    match s {
        ResolveState::AwaitProgramData { input, program_data } => {
            assert_eq!(input.bytes, program.bytes);
            assert_eq!(program_data.bytes, expected_pd.bytes);
        },
        _ => panic!("expected the program-data fetch state"),
    }
}

#[test]
fn resolve_immutable_program_is_terminal() {
    let program = Address::new([7u8; 32]);
    let pd = derive_program_data(&program).expect("program data derivation").0;
    let s = ResolveState::AwaitProgramData { input: program, program_data: pd };
    let account = AccountSnapshot {
        owner: loader_id(),
        lamports: 1,
        data: program_data_bytes(false, &Address::new([1u8; 32])),
    };
    let s = resolve_step(s, ResolveEvent::AccountFetched { account: Some(account) });
    match s {
        ResolveState::Done { result } => {
            assert_eq!(result.err(), Some(ResolveError::ImmutableProgram))
        },
        _ => panic!("expected a final state"),
    }
}

#[test]
fn resolve_on_curve_upgrade_authority_is_rejected() {
    let program = Address::new([7u8; 32]);
    let pd = derive_program_data(&program).expect("program data derivation").0;
    let signing_key = find_signing_key();
    let s = ResolveState::AwaitProgramData { input: program, program_data: pd };
    let account = AccountSnapshot {
        owner: loader_id(),
        lamports: 1,
        data: program_data_bytes(true, &signing_key),
    };
    let s = resolve_step(s, ResolveEvent::AccountFetched { account: Some(account) });
    match s {
        ResolveState::Done { result } => {
            assert_eq!(result.err(), Some(ResolveError::AuthorityNotDerivable))
        },
        _ => panic!("expected a final state"),
    }
}

#[test]
fn resolve_discovery_result_completes_the_program_path() {
    let program = Address::new([7u8; 32]);
    let pd = derive_program_data(&program).expect("program data derivation").0;
    let multisig = Address::new([8u8; 32]);
    let authority = derive_authority(&multisig).expect("authority derivation").0;
    let s = ResolveState::Discovering { input: program, program_data: pd, authority };
    let s = resolve_step(s, ResolveEvent::DiscoveryFinished { multisig: Some(multisig) });
    match s {
        ResolveState::Done { result } => match result.expect("resolution") {
            ResolvedTarget::ViaProgram { program: p, multisig: m, authority: a } => {
                assert_eq!(p.bytes, program.bytes);
                assert_eq!(m.bytes, multisig.bytes);
                assert_eq!(a.bytes, authority.bytes);
            },
            _ => panic!("expected the program variant"),
        },
        _ => panic!("expected a final state"),
    }
}

#[test]
fn resolve_empty_discovery_is_not_found() {
    let program = Address::new([7u8; 32]);
    let pd = derive_program_data(&program).expect("program data derivation").0;
    let multisig = Address::new([8u8; 32]);
    let authority = derive_authority(&multisig).expect("authority derivation").0;
    let s = ResolveState::Discovering { input: program, program_data: pd, authority };
    let s = resolve_step(s, ResolveEvent::DiscoveryFinished { multisig: None });
    match s {
        ResolveState::Done { result } => {
            assert_eq!(result.err(), Some(ResolveError::MultisigNotFound))
        },
        _ => panic!("expected a final state"),
    }
}

#[test]
fn check_signing_key_is_not_derivable_and_nothing_is_looked_up() {
    let signing_key = find_signing_key();
    let s = check_start(signing_key);
    // The input account does not even need to exist: the curve check decides
    // first, and the machine never asks for an index account.
    let s = check_step(s, None);
    match s {
        CheckState::Done { outcome } => match outcome {
            CheckOutcome::NotDerivable { authority } => {
                assert_eq!(authority.bytes, signing_key.bytes)
            },
            _ => panic!("expected the not-derivable outcome"),
        },
        _ => panic!("expected a final state with no further lookups"),
    }
}

#[test]
fn check_derived_authority_walks_to_its_index_account() {
    let multisig = Address::new([7u8; 32]);
    let authority = derive_authority(&multisig).expect("authority derivation").0;
    let expected_index = derive_index(&authority).expect("index derivation").0;
    let s = check_step(check_start(authority), None);
    match s {
        CheckState::AwaitIndexAccount { authority: a, index_address, program } => {
            assert_eq!(a.bytes, authority.bytes);
            assert_eq!(index_address.bytes, expected_index.bytes);
            assert!(program.is_none());
        },
        _ => panic!("expected the index fetch state"),
    }
}

#[test]
fn check_reports_indexed_when_the_index_program_owns_the_account() {
    let multisig = Address::new([7u8; 32]);
    let authority = derive_authority(&multisig).expect("authority derivation").0;
    let index_address = derive_index(&authority).expect("index derivation").0;
    let s = CheckState::AwaitIndexAccount { authority, index_address, program: None };
    let account = AccountSnapshot { owner: index_program_id(), lamports: 890880, data: Vec::new() };
    let s = check_step(s, Some(account));
    match s {
        CheckState::Done { outcome } => match outcome {
            CheckOutcome::Indexed { authority: a, .. } => assert_eq!(a.bytes, authority.bytes),
            _ => panic!("expected the indexed outcome"),
        },
        _ => panic!("expected a final state"),
    }
}

#[test]
fn check_reports_not_indexed_without_an_account() {
    let multisig = Address::new([7u8; 32]);
    let authority = derive_authority(&multisig).expect("authority derivation").0;
    let index_address = derive_index(&authority).expect("index derivation").0;
    let s = CheckState::AwaitIndexAccount { authority, index_address, program: None };
    let s = check_step(s, None);
    match s {
        CheckState::Done { outcome } => match outcome {
            CheckOutcome::NotIndexed { authority: a } => assert_eq!(a.bytes, authority.bytes),
            _ => panic!("expected the not-indexed outcome"),
        },
        _ => panic!("expected a final state"),
    }
}

#[test]
fn check_foreign_owner_is_not_indexed() {
    let multisig = Address::new([7u8; 32]);
    let authority = derive_authority(&multisig).expect("authority derivation").0;
    let index_address = derive_index(&authority).expect("index derivation").0;
    let s = CheckState::AwaitIndexAccount { authority, index_address, program: None };
    let account = AccountSnapshot { owner: system_program_id(), lamports: 890880, data: Vec::new() };
    let s = check_step(s, Some(account));
    match s {
        CheckState::Done { outcome } => {
            assert!(matches!(outcome, CheckOutcome::NotIndexed { .. }))
        },
        _ => panic!("expected a final state"),
    }
}

#[test]
fn instruction_has_the_five_slots_in_order() {
    let multisig = Address::new([7u8; 32]);
    let authority = derive_authority(&multisig).expect("authority derivation").0;
    let payer = Address::new([9u8; 32]);
    let index_address = derive_index(&authority).expect("index derivation").0;
    let ix = build_index_instruction(&authority, &multisig, &payer).expect("instruction");
    assert_eq!(ix.program.bytes, index_program_id().bytes);
    assert!(ix.data.is_empty());
    assert_eq!(ix.accounts.len(), 5);
    assert_eq!(ix.accounts[0].address.bytes, system_program_id().bytes);
    assert!(!ix.accounts[0].is_signer && !ix.accounts[0].is_writable);
    assert_eq!(ix.accounts[1].address.bytes, authority.bytes);
    assert!(!ix.accounts[1].is_signer && !ix.accounts[1].is_writable);
    assert_eq!(ix.accounts[2].address.bytes, multisig.bytes);
    assert!(!ix.accounts[2].is_signer && !ix.accounts[2].is_writable);
    assert_eq!(ix.accounts[3].address.bytes, payer.bytes);
    assert!(ix.accounts[3].is_signer && ix.accounts[3].is_writable);
    assert_eq!(ix.accounts[4].address.bytes, index_address.bytes);
    assert!(!ix.accounts[4].is_signer && ix.accounts[4].is_writable);
}
