use squads_index::layout::{parse_multisig, ParseError, MultisigRecord};

const DISC: [u8; 8] = [70, 118, 9, 108, 254, 215, 31, 120];

fn record_bytes(threshold: u16, keys: &[[u8; 32]]) -> Vec<u8> {
    let mut data = DISC.to_vec();
    data.extend_from_slice(&threshold.to_le_bytes());
    while data.len() < 54 {
        data.push(0);
    }
    data.extend_from_slice(&(keys.len() as u32).to_le_bytes());
    for k in keys {
        data.extend_from_slice(k);
    }
    data
}

fn parse(data: &Vec<u8>) -> Result<MultisigRecord, ParseError> {
    parse_multisig(data)
}

#[test]
fn rejects_empty_bytes() {
    assert_eq!(parse(&Vec::new()).err(), Some(ParseError::TooShort));
}

#[test]
fn rejects_seven_bytes() {
    assert_eq!(parse(&vec![70, 118, 9, 108, 254, 215, 31]).err(), Some(ParseError::TooShort));
}

#[test]
fn rejects_wrong_discriminator() {
    let mut data = record_bytes(2, &[[1u8; 32]]);
    data[7] = 121;
    assert_eq!(parse(&data).err(), Some(ParseError::DiscriminatorMismatch));
}

#[test]
fn rejects_discriminator_only() {
    assert_eq!(parse(&DISC.to_vec()).err(), Some(ParseError::MalformedBody));
}

#[test]
fn rejects_truncated_member_vector() {
    let mut data = record_bytes(2, &[[1u8; 32], [2u8; 32]]);
    data.truncate(data.len() - 1);
    assert_eq!(parse(&data).err(), Some(ParseError::MalformedBody));
}

#[test]
fn rejects_overdeclared_member_count() {
    let mut data = record_bytes(1, &[[1u8; 32]]);
    data[54] = 200;
    assert_eq!(parse(&data).err(), Some(ParseError::MalformedBody));
}

#[test]
fn parses_two_of_three_record() {
    let keys = [[11u8; 32], [22u8; 32], [33u8; 32]];
    let data = record_bytes(2, &keys);
    let rec = parse(&data).expect("valid record");
    assert_eq!(rec.threshold, 2);
    assert_eq!(rec.member_keys.len(), 3);
    for (i, k) in keys.iter().enumerate() {
        assert_eq!(&rec.member_keys[i].bytes, k);
    }
}

#[test]
fn parses_record_with_zero_members() {
    let data = record_bytes(1, &[]);
    let rec = parse(&data).expect("valid record");
    assert_eq!(rec.threshold, 1);
    assert_eq!(rec.member_keys.len(), 0);
}

#[test]
fn trailing_bytes_change_nothing() {
    let keys = [[11u8; 32], [22u8; 32]];
    let clean = record_bytes(2, &keys);
    let mut padded = clean.clone();
    padded.extend_from_slice(&[0xAB; 100]);
    let a = parse(&clean).expect("valid record");
    let b = parse(&padded).expect("valid record");
    assert_eq!(a.threshold, b.threshold);
    assert_eq!(a.member_keys.len(), b.member_keys.len());
    for i in 0..a.member_keys.len() {
        assert_eq!(a.member_keys[i].bytes, b.member_keys[i].bytes);
    }
}

#[test]
fn threshold_is_little_endian() {
    let data = record_bytes(0x0102, &[]);
    let rec = parse(&data).expect("valid record");
    assert_eq!(rec.threshold, 258);
}
