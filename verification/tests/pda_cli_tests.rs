use std::str::FromStr;

use squads_index::addr::Address;
use squads_index::cli::{get_network, parse_confirmation};
use squads_index::pda::{
    derive_authority, derive_index, derive_program_data, index_program_id, loader_id,
    squads_program_id, system_program_id,
};

#[test]
fn authority_derivation_is_deterministic() {
    let multisig = Address::new([7u8; 32]);
    let a = derive_authority(&multisig).expect("authority derivation");
    let b = derive_authority(&multisig).expect("authority derivation");
    assert_eq!(a.0.bytes, b.0.bytes);
    assert_eq!(a.1, b.1);
}

#[test]
fn authority_derivation_transforms_its_input() {
    let multisig = Address::new([7u8; 32]);
    let (authority, _) = derive_authority(&multisig).expect("authority derivation");
    assert_ne!(authority.bytes, multisig.bytes);
}

#[test]
fn index_derivation_is_deterministic_and_transforms() {
    let authority = derive_authority(&Address::new([7u8; 32])).expect("authority derivation").0;
    let a = derive_index(&authority).expect("index derivation");
    let b = derive_index(&authority).expect("index derivation");
    assert_eq!(a.0.bytes, b.0.bytes);
    assert_ne!(a.0.bytes, authority.bytes);
}

#[test]
fn different_multisigs_derive_different_authorities() {
    let a = derive_authority(&Address::new([7u8; 32])).expect("authority derivation").0;
    let b = derive_authority(&Address::new([8u8; 32])).expect("authority derivation").0;
    assert_ne!(a.bytes, b.bytes);
}

#[test]
fn program_data_derivation_transforms_its_input() {
    let program = Address::new([7u8; 32]);
    let (pd, _) = derive_program_data(&program).expect("program data derivation");
    assert_ne!(pd.bytes, program.bytes);
}

#[test]
fn address_equality_is_by_bytes() {
    let a = Address::new([7u8; 32]);
    let b = Address::new([7u8; 32]);
    let mut c_bytes = [7u8; 32];
    c_bytes[31] = 8;
    let c = Address::new(c_bytes);
    assert!(a.equals(&b));
    assert!(!a.equals(&c));
}

#[test]
fn mainnet_aliases_resolve_to_the_default_endpoint() {
    let url = "https://api.mainnet-beta.solana.com";
    assert_eq!(get_network("mainnet"), url);
    assert_eq!(get_network("main"), url);
    assert_eq!(get_network("m"), url);
    assert_eq!(get_network("mainnet-beta"), url);
}

#[test]
fn other_endpoints_pass_through() {
    assert_eq!(get_network("http://localhost:8899"), "http://localhost:8899");
    assert_eq!(get_network("devnet"), "devnet");
    assert_eq!(get_network(""), "");
}

#[test]
fn confirmation_answers_are_classified() {
    assert_eq!(parse_confirmation("Yes"), Some(true));
    assert_eq!(parse_confirmation("yes"), Some(true));
    assert_eq!(parse_confirmation("y"), Some(true));
    assert_eq!(parse_confirmation("No"), Some(false));
    assert_eq!(parse_confirmation("no"), Some(false));
    assert_eq!(parse_confirmation("n"), Some(false));
    assert_eq!(parse_confirmation("maybe"), None);
    assert_eq!(parse_confirmation(""), None);
    assert_eq!(parse_confirmation("Y"), None);
}

#[test]
fn program_id_constants_match_their_known_addresses() {
    let index_pk = solana_pubkey::Pubkey::from_str("idxqM2xnXsym7KL9YQmC8GG6TvdV9XxvHeMWdiswpwr").unwrap();
    let squads_pk = solana_pubkey::Pubkey::from_str("SMPLecH534NA9acpos4G6x7uf3LWbCAwZQE9e8ZekMu").unwrap();
    let loader_pk = solana_pubkey::Pubkey::from_str("BPFLoaderUpgradeab1e11111111111111111111111").unwrap();
    let system_pk = solana_pubkey::Pubkey::from_str("11111111111111111111111111111111").unwrap();
    assert_eq!(index_program_id().bytes, index_pk.to_bytes());
    assert_eq!(squads_program_id().bytes, squads_pk.to_bytes());
    assert_eq!(loader_id().bytes, loader_pk.to_bytes());
    assert_eq!(system_program_id().bytes, system_pk.to_bytes());
}

#[test]
fn authority_seed_tuple_is_byte_exact() {
    let multisig_bytes = [7u8; 32];
    let (derived, bump) = derive_authority(&Address::new(multisig_bytes)).expect("authority derivation");
    let squads_pk = solana_pubkey::Pubkey::from_str("SMPLecH534NA9acpos4G6x7uf3LWbCAwZQE9e8ZekMu").unwrap();
    let (expected, expected_bump) = solana_pubkey::Pubkey::find_program_address(
        &[b"squad", &multisig_bytes, &1u32.to_le_bytes(), b"authority"],
        &squads_pk,
    );
    assert_eq!(derived.bytes, expected.to_bytes());
    assert_eq!(bump, expected_bump);
}

#[test]
fn index_seed_tuple_is_byte_exact() {
    let authority = derive_authority(&Address::new([7u8; 32])).expect("authority derivation").0;
    let (derived, bump) = derive_index(&authority).expect("index derivation");
    let index_pk = solana_pubkey::Pubkey::from_str("idxqM2xnXsym7KL9YQmC8GG6TvdV9XxvHeMWdiswpwr").unwrap();
    let (expected, expected_bump) =
        solana_pubkey::Pubkey::find_program_address(&[&authority.bytes], &index_pk);
    assert_eq!(derived.bytes, expected.to_bytes());
    assert_eq!(bump, expected_bump);
}

#[test]
fn program_data_seed_tuple_is_byte_exact() {
    let program_bytes = [9u8; 32];
    let (derived, _) = derive_program_data(&Address::new(program_bytes)).expect("derivation");
    let loader_pk = solana_pubkey::Pubkey::from_str("BPFLoaderUpgradeab1e11111111111111111111111").unwrap();
    let (expected, _) = solana_pubkey::Pubkey::find_program_address(&[&program_bytes], &loader_pk);
    assert_eq!(derived.bytes, expected.to_bytes());
}
