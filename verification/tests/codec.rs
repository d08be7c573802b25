use alloy_primitives::FixedBytes;
use alloy_sol_types::SolValue;
use zkpdf_template_lib::codec::{decode, encode, PublicValues};
use zkpdf_template_lib::error::AttestationError;

type Tuple = (String, String, bool, FixedBytes<32>, FixedBytes<32>);

fn values(first: &str, second: &str, valid: bool, c: u8, k: u8) -> PublicValues {
    PublicValues {
        primary_id: first.to_string(),
        secondary_id: second.to_string(),
        signature_valid: valid,
        document_commitment: [c; 32],
        public_key_hash: [k; 32],
    }
}

fn reference(v: &PublicValues) -> Vec<u8> {
    let tuple: Tuple = (
        v.primary_id.clone(),
        v.secondary_id.clone(),
        v.signature_valid,
        FixedBytes(v.document_commitment),
        FixedBytes(v.public_key_hash),
    );
    tuple.abi_encode()
}

fn same(a: &PublicValues, b: &PublicValues) -> bool {
    a.primary_id == b.primary_id
        && a.secondary_id == b.secondary_id
        && a.signature_valid == b.signature_valid
        && a.document_commitment == b.document_commitment
        && a.public_key_hash == b.public_key_hash
}

fn word(n: u64) -> Vec<u8> {
    let mut w = vec![0u8; 24];
    w.extend_from_slice(&n.to_be_bytes());
    w
}

fn samples() -> Vec<PublicValues> {
    vec![
        values("", "", false, 0, 0),
        values("1", "Mr. Ajay", true, 0xab, 0xcd),
        values("07AAATC0869P1ZB", "Test Company", true, 1, 2),
        values(&"x".repeat(31), &"y".repeat(32), false, 3, 4),
        values(&"x".repeat(33), &"y".repeat(64), true, 5, 6),
        values(&"long ".repeat(100), "short", true, 7, 8),
        values("naïve café", "東京都 🏠 Ω", true, 9, 10),
        values("\u{0}", "\n\t ", false, 255, 255),
    ]
}

#[test]
fn encoding_has_the_exact_layout() {
    let bytes = encode(&values("1", "Mr. Ajay", true, 0xab, 0xcd));
    let mut expected = Vec::new();
    expected.extend(word(0x20)); // the tuple starts after this word
    expected.extend(word(0xa0)); // first string: after the five head words
    expected.extend(word(0xe0)); // second string: after the first one
    expected.extend(word(1)); // signature_valid
    expected.extend([0xab; 32]);
    expected.extend([0xcd; 32]);
    expected.extend(word(1));
    expected.extend(b"1");
    expected.extend([0u8; 31]);
    expected.extend(word(8));
    expected.extend(b"Mr. Ajay");
    expected.extend([0u8; 24]);
    assert_eq!(bytes, expected);
    assert_eq!(bytes.len(), 320);
}

#[test]
fn encoding_of_empty_strings_has_no_padding() {
    let bytes = encode(&values("", "", false, 0, 0));
    assert_eq!(bytes.len(), 32 + 160 + 32 + 32);
    assert_eq!(&bytes[32..64], &word(0xa0)[..]);
    assert_eq!(&bytes[64..96], &word(0xc0)[..]);
    assert!(bytes[96..].iter().all(|b| *b == 0));
}

#[test]
fn encoding_pads_strings_to_whole_words() {
    for len in [0usize, 1, 31, 32, 33, 63, 64, 65, 1000] {
        let bytes = encode(&values(&"a".repeat(len), "", false, 0, 0));
        let padded = (len + 31) / 32 * 32;
        assert_eq!(bytes.len(), 32 + 160 + 32 + padded + 32);
        assert_eq!(&bytes[64..96], &word((160 + 32 + padded) as u64)[..]);
    }
}

#[test]
fn encoding_agrees_with_the_contract_abi() {
    for v in samples() {
        assert_eq!(encode(&v), reference(&v));
    }
}

#[test]
fn decoding_agrees_with_the_contract_abi() {
    for v in samples() {
        let bytes = reference(&v);
        let ours = decode(&bytes).unwrap();
        let theirs = Tuple::abi_decode(&bytes).unwrap();
        assert_eq!(ours.primary_id, theirs.0);
        assert_eq!(ours.secondary_id, theirs.1);
        assert_eq!(ours.signature_valid, theirs.2);
        assert_eq!(ours.document_commitment, theirs.3 .0);
        assert_eq!(ours.public_key_hash, theirs.4 .0);
    }
}

#[test]
fn decode_undoes_encode() {
    for v in samples() {
        let back = decode(&encode(&v)).unwrap();
        assert!(same(&v, &back));
    }
}

#[test]
fn decode_undoes_encode_for_non_ascii_and_long_strings() {
    let v = values("Ünïcödé — 文字列 — 🦀", &"é".repeat(500), true, 0x11, 0x22);
    let back = decode(&encode(&v)).unwrap();
    assert_eq!(back.primary_id, "Ünïcödé — 文字列 — 🦀");
    assert_eq!(back.secondary_id, "é".repeat(500));
    assert!(back.signature_valid);
    assert_eq!(back.document_commitment, [0x11; 32]);
    assert_eq!(back.public_key_hash, [0x22; 32]);
}

#[test]
fn decode_rejects_truncated_input() {
    let v = values("07AAATC0869P1ZB", "Test Company", true, 1, 2);
    let bytes = encode(&v);
    // The last 20 bytes are padding; every cut before them loses data.
    for keep in 0..bytes.len() - 20 {
        match decode(&bytes[..keep]) {
            Err(AttestationError::DecodeMalformed) => {}
            other => panic!("cut at {} gave {:?}", keep, other.map(|_| ())),
        }
        assert!(Tuple::abi_decode(&bytes[..keep]).is_err());
    }
    assert!(decode(&bytes[..bytes.len() - 20]).is_ok());
}

#[test]
fn decode_rejects_empty_and_short_input() {
    assert!(matches!(decode(&[]), Err(AttestationError::DecodeMalformed)));
    assert!(matches!(decode(&[0u8; 31]), Err(AttestationError::DecodeMalformed)));
    assert!(matches!(decode(&[0u8; 159]), Err(AttestationError::DecodeMalformed)));
}

#[test]
fn decode_rejects_offsets_that_point_past_the_end() {
    let good = encode(&values("abc", "def", true, 1, 2));

    let mut outer = good.clone();
    outer[..32].copy_from_slice(&word(good.len() as u64 + 1));
    assert!(matches!(decode(&outer), Err(AttestationError::DecodeMalformed)));
    assert!(Tuple::abi_decode(&outer).is_err());

    let mut first = good.clone();
    first[32..64].copy_from_slice(&word(good.len() as u64));
    assert!(matches!(decode(&first), Err(AttestationError::DecodeMalformed)));
    assert!(Tuple::abi_decode(&first).is_err());

    let mut second = good.clone();
    second[64..96].copy_from_slice(&word(u64::MAX));
    assert!(matches!(decode(&second), Err(AttestationError::DecodeMalformed)));
    assert!(Tuple::abi_decode(&second).is_err());

    let mut huge = good.clone();
    huge[32] = 1; // an offset of 2^248 and more
    assert!(matches!(decode(&huge), Err(AttestationError::DecodeMalformed)));
    assert!(Tuple::abi_decode(&huge).is_err());
}

#[test]
fn decode_rejects_a_length_that_runs_past_the_end() {
    let good = encode(&values("abc", "def", true, 1, 2));
    let mut long = good.clone();
    // The second string's length word is the last but one word.
    let at = good.len() - 64;
    long[at..at + 32].copy_from_slice(&word(33));
    assert!(matches!(decode(&long), Err(AttestationError::DecodeMalformed)));
    assert!(Tuple::abi_decode(&long).is_err());
    long[at..at + 32].copy_from_slice(&word(32));
    assert_eq!(decode(&long).unwrap().secondary_id.len(), 32);
}

#[test]
fn decode_never_returns_a_zeroed_record_for_bad_input() {
    let good = encode(&values("abc", "def", true, 9, 9));
    let mut bad = good.clone();
    bad[64..96].copy_from_slice(&word(4096));
    assert!(decode(&bad).is_err());
}

#[test]
fn decode_reads_any_nonzero_word_as_true() {
    let mut bytes = encode(&values("a", "b", false, 0, 0));
    assert!(!decode(&bytes).unwrap().signature_valid);
    bytes[96] = 0x80;
    assert!(decode(&bytes).unwrap().signature_valid);
    assert!(Tuple::abi_decode(&bytes).unwrap().2);
}

#[test]
fn decode_reads_invalid_utf8_as_the_contract_abi_does() {
    let mut bytes = encode(&values("abc", "def", true, 0, 0));
    bytes[32 + 160 + 32] = 0xff;
    let ours = decode(&bytes).unwrap();
    let theirs = Tuple::abi_decode(&bytes).unwrap();
    assert_eq!(ours.primary_id, theirs.0);
    assert_eq!(ours.primary_id, "\u{fffd}bc");
    assert_eq!(ours.secondary_id, "def");
}

#[test]
fn decode_accepts_the_smallest_well_formed_input() {
    // 160 zero bytes: every offset and length is zero, so the tuple starts
    // at the front and both strings are empty.
    let bytes = [0u8; 160];
    let ours = decode(&bytes).unwrap();
    assert!(same(&ours, &values("", "", false, 0, 0)));
    assert!(Tuple::abi_decode(&bytes).is_ok());
}

#[test]
fn decoding_agrees_with_the_contract_abi_on_damaged_input() {
    // A fixed pseudo-random walk over damaged encodings: single bytes
    // overwritten, words replaced by small numbers, and tails cut off.
    let mut state: u64 = 0x9e3779b97f4a7c15;
    let mut next = move || {
        state ^= state << 13;
        state ^= state >> 7;
        state ^= state << 17;
        state
    };
    let bases: Vec<Vec<u8>> = samples().iter().map(encode).collect();
    let mut accepted = 0;
    let mut rejected = 0;
    for round in 0..6000 {
        let mut bytes = bases[round % bases.len()].clone();
        let changes = 1 + (next() % 3) as usize;
        for _ in 0..changes {
            match next() % 4 {
                0 => {
                    let at = (next() as usize) % bytes.len();
                    bytes[at] = next() as u8;
                }
                1 if bytes.len() >= 32 => {
                    let at = ((next() as usize) % (bytes.len() / 32)) * 32;
                    let value = next() % (bytes.len() as u64 + 64);
                    bytes[at..at + 32].copy_from_slice(&word(value));
                }
                2 => {
                    let keep = (next() as usize) % (bytes.len() + 1);
                    bytes.truncate(keep);
                    if bytes.is_empty() {
                        bytes.push(0);
                    }
                }
                _ => {
                    let extra = (next() % 40) as usize;
                    bytes.extend(std::iter::repeat(next() as u8).take(extra));
                }
            }
        }
        match (decode(&bytes), Tuple::abi_decode(&bytes)) {
            (Ok(ours), Ok(theirs)) => {
                accepted += 1;
                assert_eq!(ours.primary_id, theirs.0);
                assert_eq!(ours.secondary_id, theirs.1);
                assert_eq!(ours.signature_valid, theirs.2);
                assert_eq!(ours.document_commitment, theirs.3 .0);
                assert_eq!(ours.public_key_hash, theirs.4 .0);
            }
            (Err(AttestationError::DecodeMalformed), Err(_)) => rejected += 1,
            (ours, theirs) => panic!(
                "round {}: accepted here: {}, accepted there: {}",
                round,
                ours.is_ok(),
                theirs.is_ok()
            ),
        }
    }
    assert!(accepted > 100);
    assert!(rejected > 100);
}
