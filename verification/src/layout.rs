use vstd::prelude::*;
use crate::addr::Address;

verus! {

// ---------------------------------------------------------------------------
// The multisig account layout
//
// A multisig account's payload is an 8-byte discriminator, scalar fields at
// fixed offsets (the threshold at offset 8), a 4-byte little-endian member
// count at offset 54, and the member keys, 32 bytes each, from offset 58.
// Bytes past the declared member-vector end are never read: some ledger
// accounts append unrelated bytes there.
// ---------------------------------------------------------------------------

/// The fixed 8-byte tag that identifies a multisig record.
pub open spec fn discriminator_view() -> Seq<u8> {
    seq![70u8, 118u8, 9u8, 108u8, 254u8, 215u8, 31u8, 120u8]
}

/// Offset of the 4-byte little-endian member count.
pub const MEMBER_COUNT_OFFSET: usize = 54;

/// Offset of the first member key.
pub const MEMBER_VEC_OFFSET: usize = 58;

/// Width of one member key.
pub const MEMBER_KEY_WIDTH: usize = 32;

pub open spec fn threshold_of(raw: Seq<u8>) -> int {
    raw[8] + 256 * raw[9]
}

pub open spec fn member_count_of(raw: Seq<u8>) -> int {
    raw[54] + 256 * raw[55] + 65536 * raw[56] + 16777216 * raw[57]
}

/// The byte span the declared member vector requires.
pub open spec fn required_len_of(raw: Seq<u8>) -> int {
    58 + 32 * member_count_of(raw)
}

/// The k-th member key's bytes.
pub open spec fn member_key_at(raw: Seq<u8>, k: int) -> Seq<u8> {
    raw.subrange(58 + 32 * k, 58 + 32 * k + 32)
}

/// A parsed multisig record, abstractly.
pub ghost struct MultisigView {
    pub threshold: int,
    pub member_keys: Seq<Seq<u8>>,
}

#[derive(Clone, Copy, PartialEq, Eq, Structural, Debug)]
pub enum ParseError {
    /// Fewer than 8 bytes: no discriminator to inspect.
    TooShort,
    /// The first 8 bytes are not the multisig record's tag.
    DiscriminatorMismatch,
    /// The remaining bytes cannot hold the declared member vector.
    MalformedBody,
}

/// Whether the bytes begin with the multisig record's tag.
pub open spec fn has_discriminator(raw: Seq<u8>) -> bool {
    raw.len() >= 8 && raw.subrange(0, 8) == discriminator_view()
}

/// What parsing a multisig account's raw bytes yields.
pub open spec fn parse_result(raw: Seq<u8>) -> Result<MultisigView, ParseError> {
    if raw.len() < 8 {
        Err(ParseError::TooShort)
    } else if raw.subrange(0, 8) != discriminator_view() {
        Err(ParseError::DiscriminatorMismatch)
    } else if raw.len() < 58 || raw.len() < required_len_of(raw) {
        Err(ParseError::MalformedBody)
    } else {
        Ok(
            MultisigView {
                threshold: threshold_of(raw),
                member_keys: Seq::new(
                    member_count_of(raw) as nat,
                    |k: int| member_key_at(raw, k),
                ),
            },
        )
    }
}

/// A multisig record: the threshold and the member keys.
pub struct MultisigRecord {
    pub threshold: u16,
    pub member_keys: Vec<Address>,
}

impl View for MultisigRecord {
    type V = MultisigView;

    open spec fn view(&self) -> MultisigView {
        MultisigView { threshold: self.threshold as int, member_keys: self.member_keys.deep_view() }
    }
}

/// True exactly when the first 8 bytes carry the multisig record's tag.
pub fn matches_discriminator(raw: &Vec<u8>) -> (r: bool)
    requires
        raw@.len() >= 8,
    ensures
        r == (raw@.subrange(0, 8) == discriminator_view()),
{
    let disc: [u8; 8] = [70, 118, 9, 108, 254, 215, 31, 120];
    proof {
        assert(disc@ =~= discriminator_view());
    }
    let mut i: usize = 0;
    while i < 8
        invariant
            0 <= i <= 8,
            raw@.len() >= 8,
            disc@ == discriminator_view(),
            forall|j: int| 0 <= j < i ==> raw@[j] == discriminator_view()[j],
        decreases 8 - i,
    {
        if raw[i] != disc[i] {
            assert(raw@.subrange(0, 8)[i as int] != discriminator_view()[i as int]);
            return false;
        }
        i += 1;
    }
    proof {
        assert(raw@.subrange(0, 8) =~= discriminator_view());
    }
    true
}

/// Parses a multisig account's raw bytes, reading only the span that the
/// declared member count prescribes.
pub fn parse_multisig(raw: &Vec<u8>) -> (r: Result<MultisigRecord, ParseError>)
    ensures
        r matches Ok(rec) ==> parse_result(raw@) == Ok::<MultisigView, ParseError>(rec@),
        r matches Err(e) ==> parse_result(raw@) == Err::<MultisigView, ParseError>(e),
{
    if raw.len() < 8 {
        return Err(ParseError::TooShort);
    }
    if !matches_discriminator(raw) {
        return Err(ParseError::DiscriminatorMismatch);
    }
    if raw.len() < 58 {
        return Err(ParseError::MalformedBody);
    }
    let len: usize = raw.len();
    let count: u64 = raw[54] as u64 + 256 * (raw[55] as u64) + 65536 * (raw[56] as u64)
        + 16777216 * (raw[57] as u64);
    proof {
        assert(count == member_count_of(raw@));
    }
    if (len as u64) < 58 + 32 * count {
        return Err(ParseError::MalformedBody);
    }
    let threshold: u16 = raw[8] as u16 + 256 * (raw[9] as u16);
    let n: usize = count as usize;
    let mut member_keys: Vec<Address> = Vec::new();
    let mut k: usize = 0;
    while k < n
        invariant
            0 <= k <= n,
            n == member_count_of(raw@),
            len == raw@.len(),
            58 + 32 * n <= len,
            member_keys.deep_view().len() == k,
            forall|j: int| 0 <= j < k ==> member_keys.deep_view()[j] == member_key_at(raw@, j),
        decreases n - k,
    {
        let start: usize = 58 + 32 * k;
        let a = Address::from_slice(raw.as_slice(), start);
        member_keys.push(a);
        k += 1;
    }
    let rec = MultisigRecord { threshold, member_keys };
    proof {
        assert(rec@.member_keys =~= Seq::new(
            member_count_of(raw@) as nat,
            |j: int| member_key_at(raw@, j),
        ));
        assert(rec@.threshold == threshold_of(raw@));
    }
    Ok(rec)
}

// ---------------------------------------------------------------------------
// What parsing rejects, and what it never reads
// ---------------------------------------------------------------------------

/// Any byte sequence shorter than 8 bytes is rejected outright.
pub proof fn lemma_parse_rejects_short(raw: Seq<u8>)
    requires
        raw.len() < 8,
    ensures
        parse_result(raw) == Err::<MultisigView, ParseError>(ParseError::TooShort),
{
}

/// Any sequence whose first 8 bytes differ from the record tag is rejected.
pub proof fn lemma_parse_rejects_bad_discriminator(raw: Seq<u8>)
    requires
        raw.len() >= 8,
        raw.subrange(0, 8) != discriminator_view(),
    ensures
        parse_result(raw) == Err::<MultisigView, ParseError>(ParseError::DiscriminatorMismatch),
{
}

/// Parsing never reads past the declared member-vector end: bytes appended
/// after it change nothing about a successfully parsed record.
pub proof fn lemma_parse_ignores_trailing(raw: Seq<u8>, ext: Seq<u8>)
    requires
        parse_result(raw) is Ok,
    ensures
        parse_result(raw + ext) == parse_result(raw),
{
    let w = raw + ext;
    assert(w.subrange(0, 8) =~= raw.subrange(0, 8));
    assert(w[54] == raw[54] && w[55] == raw[55] && w[56] == raw[56] && w[57] == raw[57]);
    assert(member_count_of(w) == member_count_of(raw));
    assert(w[8] == raw[8] && w[9] == raw[9]);
    let n = member_count_of(raw);
    assert forall|k: int| 0 <= k < n implies member_key_at(w, k) == member_key_at(raw, k) by {
        assert(58 + 32 * k + 32 <= raw.len());
        assert(member_key_at(w, k) =~= member_key_at(raw, k));
    }
    assert(Seq::new(member_count_of(w) as nat, |k: int| member_key_at(w, k)) =~= Seq::new(
        member_count_of(raw) as nat,
        |k: int| member_key_at(raw, k),
    ));
}

} // verus!
