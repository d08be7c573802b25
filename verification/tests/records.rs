use zkpdf_template_lib::error::{AttestationError, Field};
use zkpdf_template_lib::utils::GSTVerificationError;
use zkpdf_template_lib::{
    CertificateKind, CertificateVariant, GSTCertificate, PdfSignatureResult,
    PropertyOwnershipCertificate,
};

fn signature() -> PdfSignatureResult {
    PdfSignatureResult { message_digest: vec![1], public_key: vec![2, 3], is_valid: false }
}

#[test]
fn variants_give_their_fields_in_declared_order() {
    let gst = CertificateVariant::GST {
        gst_number: "07AAATC0869P1ZB".to_string(),
        legal_name: "Test Company".to_string(),
    };
    assert_eq!(gst.kind(), CertificateKind::Gst);
    assert_eq!(gst.primary_id(), "07AAATC0869P1ZB");
    assert_eq!(gst.secondary_id(), "Test Company");

    let property = CertificateVariant::PropertyOwnership {
        property_number: "1".to_string(),
        owner_name: "Mr. Ajay".to_string(),
    };
    assert_eq!(property.kind(), CertificateKind::PropertyOwnership);
    assert_eq!(property.primary_id(), "1");
    assert_eq!(property.secondary_id(), "Mr. Ajay");
}

#[test]
fn certificates_become_records_of_their_kind() {
    let record = GSTCertificate {
        gst_number: "07AAATC0869P1ZB".to_string(),
        legal_name: "Test Company".to_string(),
        signature: signature(),
    }
    .into_record();
    assert_eq!(record.variant.kind(), CertificateKind::Gst);
    assert_eq!(record.variant.primary_id(), "07AAATC0869P1ZB");
    assert_eq!(record.variant.secondary_id(), "Test Company");
    assert_eq!(record.signature.public_key, vec![2, 3]);
    assert!(!record.signature.is_valid);

    let record = PropertyOwnershipCertificate {
        property_number: "1".to_string(),
        owner_name: "Mr. Ajay".to_string(),
        signature: signature(),
    }
    .into_record();
    assert_eq!(record.variant.kind(), CertificateKind::PropertyOwnership);
    assert_eq!(record.variant.primary_id(), "1");
    assert_eq!(record.variant.secondary_id(), "Mr. Ajay");
    assert_eq!(record.signature.message_digest, vec![1]);
}

#[test]
fn extraction_failures_map_onto_attestation_failures() {
    match AttestationError::from_extraction(GSTVerificationError::PdfVerificationFailed(
        "broken".to_string(),
    )) {
        AttestationError::DocumentVerificationFailed(detail) => assert_eq!(detail, "broken"),
        other => panic!("unexpected {:?}", other),
    }
    match AttestationError::from_extraction(GSTVerificationError::RegexCompilationFailed(
        "unclosed".to_string(),
    )) {
        AttestationError::PatternCompilationFailed(detail) => assert_eq!(detail, "unclosed"),
        other => panic!("unexpected {:?}", other),
    }
    let cases = vec![
        (GSTVerificationError::GSTNumberNotFound, Field::GstNumber),
        (GSTVerificationError::LegalNameNotFound, Field::LegalName),
        (GSTVerificationError::PropertyInfoNotFound, Field::PropertyInfo),
        (GSTVerificationError::PropertyNumberNotFound, Field::PropertyNumber),
        (GSTVerificationError::OwnerNameNotFound, Field::OwnerName),
    ];
    for (error, field) in cases {
        match AttestationError::from_extraction(error) {
            AttestationError::FieldNotFound(found) => assert_eq!(found, field),
            other => panic!("unexpected {:?}", other),
        }
    }
}

#[test]
fn each_field_has_its_not_found_error() {
    assert!(matches!(Field::GstNumber.not_found(), GSTVerificationError::GSTNumberNotFound));
    assert!(matches!(Field::LegalName.not_found(), GSTVerificationError::LegalNameNotFound));
    assert!(matches!(Field::PropertyInfo.not_found(), GSTVerificationError::PropertyInfoNotFound));
    assert!(matches!(
        Field::PropertyNumber.not_found(),
        GSTVerificationError::PropertyNumberNotFound
    ));
    assert!(matches!(Field::OwnerName.not_found(), GSTVerificationError::OwnerNameNotFound));
    for field in [
        Field::GstNumber,
        Field::LegalName,
        Field::PropertyInfo,
        Field::PropertyNumber,
        Field::OwnerName,
    ] {
        assert_eq!(
            AttestationError::FieldNotFound(field).message(),
            field.not_found().message()
        );
    }
}
