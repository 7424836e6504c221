use vstd::prelude::*;
use crate::addr::Address;

verus! {

// ---------------------------------------------------------------------------
// Program identities
// ---------------------------------------------------------------------------

/// The index program's own identity.
pub open spec fn index_program_id_view() -> Seq<u8> {
    seq![
        10u8, 170u8, 155u8, 98u8, 108u8, 151u8, 41u8, 95u8, 25u8, 104u8, 251u8, 222u8, 229u8,
        101u8, 242u8, 242u8, 167u8, 175u8, 95u8, 38u8, 88u8, 169u8, 205u8, 121u8, 125u8, 154u8,
        148u8, 12u8, 159u8, 4u8, 61u8, 185u8,
    ]
}

/// The multisig program's identity, under whose namespace authorities derive.
pub open spec fn squads_program_id_view() -> Seq<u8> {
    seq![
        6u8, 126u8, 145u8, 221u8, 206u8, 113u8, 192u8, 199u8, 95u8, 63u8, 255u8, 186u8, 30u8,
        214u8, 44u8, 175u8, 64u8, 4u8, 111u8, 29u8, 216u8, 195u8, 82u8, 136u8, 59u8, 16u8, 168u8,
        125u8, 183u8, 58u8, 217u8, 48u8,
    ]
}

/// The upgradeable-program loader's identity.
pub open spec fn loader_id_view() -> Seq<u8> {
    seq![
        2u8, 168u8, 246u8, 145u8, 78u8, 136u8, 161u8, 176u8, 226u8, 16u8, 21u8, 62u8, 247u8, 99u8,
        174u8, 43u8, 0u8, 194u8, 185u8, 61u8, 22u8, 193u8, 36u8, 210u8, 192u8, 83u8, 122u8, 16u8,
        4u8, 128u8, 0u8, 0u8,
    ]
}

/// The system program's identity: thirty-two zero bytes.
pub open spec fn system_program_id_view() -> Seq<u8> {
    Seq::new(32, |i: int| 0u8)
}

pub fn index_program_id() -> (a: Address)
    ensures
        a@ == index_program_id_view(),
{
    let bytes: [u8; 32] = [
        10, 170, 155, 98, 108, 151, 41, 95, 25, 104, 251, 222, 229, 101, 242, 242, 167, 175, 95,
        38, 88, 169, 205, 121, 125, 154, 148, 12, 159, 4, 61, 185,
    ];
    proof {
        assert(bytes@ =~= index_program_id_view());
    }
    Address { bytes }
}

pub fn squads_program_id() -> (a: Address)
    ensures
        a@ == squads_program_id_view(),
{
    let bytes: [u8; 32] = [
        6, 126, 145, 221, 206, 113, 192, 199, 95, 63, 255, 186, 30, 214, 44, 175, 64, 4, 111, 29,
        216, 195, 82, 136, 59, 16, 168, 125, 183, 58, 217, 48,
    ];
    proof {
        assert(bytes@ =~= squads_program_id_view());
    }
    Address { bytes }
}

pub fn loader_id() -> (a: Address)
    ensures
        a@ == loader_id_view(),
{
    let bytes: [u8; 32] = [
        2, 168, 246, 145, 78, 136, 161, 176, 226, 16, 21, 62, 247, 99, 174, 43, 0, 194, 185, 61,
        22, 193, 36, 210, 192, 83, 122, 16, 4, 128, 0, 0,
    ];
    proof {
        assert(bytes@ =~= loader_id_view());
    }
    Address { bytes }
}

pub fn system_program_id() -> (a: Address)
    ensures
        a@ == system_program_id_view(),
{
    let bytes: [u8; 32] = [0; 32];
    proof {
        assert(bytes@ =~= system_program_id_view());
    }
    Address { bytes }
}

// ---------------------------------------------------------------------------
// Derivation: the trusted boundary
// ---------------------------------------------------------------------------

/// What address derivation returns for given seed byte strings under a given
/// program namespace: the derived address with its bump byte, or `None` when
/// no bump yields a valid derived address. The result is a function of the
/// seeds and the namespace alone; it is named, not spelled out, because it is
/// a hashing scheme.
pub uninterp spec fn pda_of(seeds: Seq<Seq<u8>>, namespace: Seq<u8>) -> Option<(Seq<u8>, u8)>;

/// Whether 32 bytes are a valid signing key (a point on the signing curve);
/// a function of the bytes alone.
pub uninterp spec fn on_curve(key: Seq<u8>) -> bool;

/// Relies on `solana_pubkey::Pubkey::try_find_program_address`: the result is
/// a deterministic function of the seeds and the namespace; a derived address
/// is 32 bytes and never lies on the signing curve.
#[verifier::external_body]
fn try_find_pda(seeds: &Vec<Vec<u8>>, namespace: &Address) -> (r: Option<(Address, u8)>)
    ensures
        r is Some <==> pda_of(seeds.deep_view(), namespace@) is Some,
        r matches Some(p) ==> pda_of(seeds.deep_view(), namespace@) == Some((p.0@, p.1))
            && !on_curve(p.0@),
{
    let seed_slices: Vec<&[u8]> = seeds.iter().map(|s| s.as_slice()).collect();
    let ns = solana_pubkey::Pubkey::new_from_array(namespace.bytes);
    solana_pubkey::Pubkey::try_find_program_address(&seed_slices, &ns)
        .map(|(key, bump)| (Address { bytes: key.to_bytes() }, bump))
}

/// Relies on `solana_pubkey::Pubkey::is_on_curve`: whether the bytes decode
/// to a point on the signing curve, a function of the bytes alone.
#[verifier::external_body]
fn key_on_curve(key: &Address) -> (r: bool)
    ensures
        r == on_curve(key@),
{
    solana_pubkey::Pubkey::new_from_array(key.bytes).is_on_curve()
}

/// An address can carry an index entry only if it is not a plain signing key.
pub fn is_derivable_authority(key: &Address) -> (r: bool)
    ensures
        r == !on_curve(key@),
{
    !key_on_curve(key)
}

// ---------------------------------------------------------------------------
// The fixed seed tuples of this system
// ---------------------------------------------------------------------------

/// The byte string "squad".
pub open spec fn squad_tag_view() -> Seq<u8> {
    seq![115u8, 113u8, 117u8, 97u8, 100u8]
}

/// The byte string "authority".
pub open spec fn authority_tag_view() -> Seq<u8> {
    seq![97u8, 117u8, 116u8, 104u8, 111u8, 114u8, 105u8, 116u8, 121u8]
}

/// The authority slot number 1, little-endian over four bytes.
pub open spec fn authority_index_le_view() -> Seq<u8> {
    seq![1u8, 0u8, 0u8, 0u8]
}

/// Seed tuple deriving a multisig's authority under the multisig program.
pub open spec fn authority_seeds(multisig: Seq<u8>) -> Seq<Seq<u8>> {
    seq![squad_tag_view(), multisig, authority_index_le_view(), authority_tag_view()]
}

/// The authority derived from a multisig address.
pub open spec fn authority_pda(multisig: Seq<u8>) -> Option<(Seq<u8>, u8)> {
    pda_of(authority_seeds(multisig), squads_program_id_view())
}

/// The index address derived from an authority address.
pub open spec fn index_pda(authority: Seq<u8>) -> Option<(Seq<u8>, u8)> {
    pda_of(seq![authority], index_program_id_view())
}

/// The account holding an upgradeable program's data, derived from its id.
pub open spec fn program_data_pda(program: Seq<u8>) -> Option<(Seq<u8>, u8)> {
    pda_of(seq![program], loader_id_view())
}

/// Derives the authority controlled by a multisig.
pub fn derive_authority(multisig: &Address) -> (r: Option<(Address, u8)>)
    ensures
        r is Some <==> authority_pda(multisig@) is Some,
        r matches Some(p) ==> authority_pda(multisig@) == Some((p.0@, p.1)) && !on_curve(p.0@),
{
    let mut seeds: Vec<Vec<u8>> = Vec::new();
    seeds.push(vec![115u8, 113u8, 117u8, 97u8, 100u8]);
    seeds.push(multisig.to_vec());
    seeds.push(vec![1u8, 0u8, 0u8, 0u8]);
    seeds.push(vec![97u8, 117u8, 116u8, 104u8, 111u8, 114u8, 105u8, 116u8, 121u8]);
    proof {
        assert(seeds.deep_view() =~~= authority_seeds(multisig@));
    }
    try_find_pda(&seeds, &squads_program_id())
}

/// Derives the index address registered for an authority.
pub fn derive_index(authority: &Address) -> (r: Option<(Address, u8)>)
    ensures
        r is Some <==> index_pda(authority@) is Some,
        r matches Some(p) ==> index_pda(authority@) == Some((p.0@, p.1)) && !on_curve(p.0@),
{
    let mut seeds: Vec<Vec<u8>> = Vec::new();
    seeds.push(authority.to_vec());
    proof {
        assert(seeds.deep_view() =~~= seq![authority@]);
    }
    try_find_pda(&seeds, &index_program_id())
}

/// Derives the program-data address of an upgradeable program.
pub fn derive_program_data(program: &Address) -> (r: Option<(Address, u8)>)
    ensures
        r is Some <==> program_data_pda(program@) is Some,
        r matches Some(p) ==> program_data_pda(program@) == Some((p.0@, p.1)) && !on_curve(p.0@),
{
    let mut seeds: Vec<Vec<u8>> = Vec::new();
    seeds.push(program.to_vec());
    proof {
        assert(seeds.deep_view() =~~= seq![program@]);
    }
    try_find_pda(&seeds, &loader_id())
}

// ---------------------------------------------------------------------------
// Determinism of derivation
// ---------------------------------------------------------------------------

/// The authority derived from a multisig address is a function of that
/// address alone: equal multisig addresses always derive the same authority.
pub proof fn lemma_authority_derivation_deterministic(m1: Seq<u8>, m2: Seq<u8>)
    requires
        m1 == m2,
    ensures
        authority_pda(m1) == authority_pda(m2),
{
}

/// The index address derived from an authority is a function of that
/// authority and the index program's own identity alone.
pub proof fn lemma_index_derivation_deterministic(a1: Seq<u8>, a2: Seq<u8>)
    requires
        a1 == a2,
    ensures
        index_pda(a1) == index_pda(a2),
        index_pda(a1) == pda_of(seq![a1], index_program_id_view()),
{
}

} // verus!
