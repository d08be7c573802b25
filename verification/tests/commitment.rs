use zkpdf_template_lib::utils::{generate_commitment, generate_property_commitment};
use zkpdf_template_lib::{GSTCertificate, PdfSignatureResult, PropertyOwnershipCertificate};

fn hex(bytes: &[u8]) -> String {
    bytes.iter().map(|b| format!("{:02x}", b)).collect()
}

fn gst(number: &str, name: &str, digest: &[u8], key: &[u8]) -> GSTCertificate {
    GSTCertificate {
        gst_number: number.to_string(),
        legal_name: name.to_string(),
        signature: PdfSignatureResult {
            message_digest: digest.to_vec(),
            public_key: key.to_vec(),
            is_valid: true,
        },
    }
}

#[test]
fn test_commitment_generation() {
    // Create mock certificate data
    let mock_signature = PdfSignatureResult {
        message_digest: vec![1, 2, 3, 4, 5],
        public_key: vec![6, 7, 8, 9, 10],
        is_valid: true,
    };

    let gst_cert = GSTCertificate {
        gst_number: "07AAATC0869P1ZB".to_string(),
        legal_name: "Test Company".to_string(),
        signature: mock_signature.clone(),
    };

    let property_cert = PropertyOwnershipCertificate {
        property_number: "1".to_string(),
        owner_name: "Mr. Ajay".to_string(),
        signature: mock_signature,
    };

    // Test that commitment generation works
    let gst_commitment = generate_commitment(&gst_cert);
    let property_commitment = generate_property_commitment(&property_cert);

    // Commitments should be different for different data
    assert_ne!(gst_commitment, property_commitment);

    // Commitments should be 32 bytes
    assert_eq!(gst_commitment.len(), 32);
    assert_eq!(property_commitment.len(), 32);
}

#[test]
fn commitment_of_empty_input_is_the_keccak_of_nothing() {
    let digest = generate_commitment(&gst("", "", &[], &[]));
    assert_eq!(
        hex(&digest),
        "c5d2460186f7233c927e7db2dcc703c0e500b653ca82273b7bfad8045d85a470"
    );
}

#[test]
fn commitment_hashes_digest_fields_and_key_in_order() {
    // keccak256("abc"), with the three bytes spread over the parts.
    let expected = "4e03657aea45a94fc7d47ba826c8d667c0d1e6e33a64a036ec44f58fa12d6c45";
    assert_eq!(hex(&generate_commitment(&gst("b", "c", b"a", &[]))), expected);
    assert_eq!(hex(&generate_commitment(&gst("a", "b", &[], b"c"))), expected);
    assert_eq!(hex(&generate_commitment(&gst("", "", b"ab", b"c"))), expected);
    assert_ne!(hex(&generate_commitment(&gst("c", "b", b"a", &[]))), expected);
}

#[test]
fn commitment_is_deterministic() {
    let a = gst("07AAATC0869P1ZB", "Test Company", &[1, 2, 3], &[4, 5]);
    let b = gst("07AAATC0869P1ZB", "Test Company", &[1, 2, 3], &[4, 5]);
    assert_eq!(generate_commitment(&a), generate_commitment(&a));
    assert_eq!(generate_commitment(&a), generate_commitment(&b));
}

#[test]
fn commitment_changes_with_each_part() {
    let base = generate_commitment(&gst("07AAATC0869P1ZB", "Test Company", &[1, 2, 3], &[4, 5]));
    assert_ne!(base, generate_commitment(&gst("07AAATC0869P1ZC", "Test Company", &[1, 2, 3], &[4, 5])));
    assert_ne!(base, generate_commitment(&gst("07AAATC0869P1ZB", "Test Compan", &[1, 2, 3], &[4, 5])));
    assert_ne!(base, generate_commitment(&gst("07AAATC0869P1ZB", "Test Company", &[1, 2, 4], &[4, 5])));
    assert_ne!(base, generate_commitment(&gst("07AAATC0869P1ZB", "Test Company", &[1, 2, 3], &[4, 6])));
}

#[test]
fn commitment_is_32_bytes_whatever_the_field_lengths() {
    assert_eq!(generate_commitment(&gst("", "", &[], &[])).len(), 32);
    assert_eq!(generate_commitment(&gst(" ", "\t", &[0; 300], &[0; 700])).len(), 32);
    let long = "x".repeat(10_000);
    assert_eq!(generate_commitment(&gst(&long, &long, &[1], &[2])).len(), 32);
}

#[test]
fn both_kinds_commit_alike_to_equal_parts() {
    let sig = PdfSignatureResult { message_digest: vec![9], public_key: vec![8], is_valid: false };
    let gst_cert = GSTCertificate {
        gst_number: "AB".to_string(),
        legal_name: "C".to_string(),
        signature: sig.clone(),
    };
    let property_cert = PropertyOwnershipCertificate {
        property_number: "AB".to_string(),
        owner_name: "C".to_string(),
        signature: sig.clone(),
    };
    assert_eq!(generate_commitment(&gst_cert), generate_property_commitment(&property_cert));
    // No separator stands between the fields, so moving a character from one
    // field to the next leaves the commitment as it was.
    let shifted = PropertyOwnershipCertificate {
        property_number: "A".to_string(),
        owner_name: "BC".to_string(),
        signature: sig,
    };
    assert_eq!(generate_commitment(&gst_cert), generate_property_commitment(&shifted));
}

#[test]
fn commitment_takes_fields_as_utf8() {
    // keccak256 of the UTF-8 bytes of "é" (0xc3 0xa9).
    let from_text = generate_commitment(&gst("é", "", &[], &[]));
    let from_bytes = generate_commitment(&gst("", "", &[0xc3, 0xa9], &[]));
    assert_eq!(from_text, from_bytes);
}
