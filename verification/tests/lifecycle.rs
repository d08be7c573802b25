use zkpdf_template_lib::codec::{encode, PublicValues};
use zkpdf_template_lib::error::{AttestationError, Field};
use zkpdf_template_lib::lifecycle::{Action, Attestation, Event, Goal, ProofArtifact, Stage};
use zkpdf_template_lib::utils::generate_property_commitment;
use zkpdf_template_lib::{
    CertificateKind, CertificateVariant, PdfSignatureResult, PropertyOwnershipCertificate,
    VerifiedDocument,
};

fn property_document() -> VerifiedDocument {
    VerifiedDocument {
        pages: vec!["Deed".to_string(), "The property no: 1 belong to Mr. Ajay.".to_string()],
        signature: PdfSignatureResult {
            message_digest: vec![1, 2, 3, 4, 5],
            public_key: vec![6, 7, 8, 9, 10],
            is_valid: true,
        },
    }
}

fn artifact() -> ProofArtifact {
    let values = PublicValues {
        primary_id: "1".to_string(),
        secondary_id: "Mr. Ajay".to_string(),
        signature_valid: true,
        document_commitment: [3; 32],
        public_key_hash: [4; 32],
    };
    ProofArtifact { proof: vec![0xde, 0xad], public_values: encode(&values) }
}

fn proving(goal: Goal) -> Attestation {
    let a = Attestation::new(CertificateKind::PropertyOwnership, goal, vec![0x25, 0x50]);
    let (a, action) = a.step(Event::Continue);
    assert_eq!(action, Action::VerifyDocument);
    let (a, action) = a.step(Event::DocumentVerified(property_document()));
    assert_eq!(action, Action::Continue);
    let (a, action) = a.step(Event::Continue);
    assert_eq!(action, Action::Continue);
    let (a, action) = a.step(Event::Continue);
    assert_eq!(action, Action::Prove);
    assert!(matches!(a.stage(), Stage::Proving));
    a
}

#[test]
fn a_request_starts_as_received() {
    let a = Attestation::new(CertificateKind::Gst, Goal::Prove, vec![1, 2, 3]);
    assert!(matches!(a.stage(), Stage::Received));
    assert_eq!(a.kind(), CertificateKind::Gst);
    assert_eq!(a.goal(), Goal::Prove);
    assert_eq!(a.document(), &vec![1, 2, 3]);
    assert!(a.record().is_none());
    assert!(a.commitment().is_none());
    assert!(a.artifact().is_none());
    assert!(a.public_values().is_none());
    assert!(a.response().is_none());
}

#[test]
fn stages_follow_each_other_up_to_the_proof() {
    let a = Attestation::new(CertificateKind::PropertyOwnership, Goal::Prove, vec![0x25]);
    let (a, _) = a.step(Event::Continue);
    assert!(matches!(a.stage(), Stage::Verifying));
    let (a, _) = a.step(Event::DocumentVerified(property_document()));
    assert!(matches!(a.stage(), Stage::Extracted));
    match a.record() {
        Some(record) => match &record.variant {
            CertificateVariant::PropertyOwnership { property_number, owner_name } => {
                assert_eq!(property_number, "1");
                assert_eq!(owner_name, "Mr. Ajay");
            }
            _ => panic!("wrong variant"),
        },
        None => panic!("no record"),
    }
    let (a, _) = a.step(Event::Continue);
    assert!(matches!(a.stage(), Stage::Committed));
    let expected = generate_property_commitment(&PropertyOwnershipCertificate {
        property_number: "1".to_string(),
        owner_name: "Mr. Ajay".to_string(),
        signature: property_document().signature,
    });
    assert_eq!(a.commitment(), Some(expected));
    let (a, action) = a.step(Event::Continue);
    assert!(matches!(a.stage(), Stage::Proving));
    assert_eq!(action, Action::Prove);
    assert_eq!(a.document(), &vec![0x25]);
    let (a, action) = a.step(Event::ProofGenerated(artifact()));
    assert!(matches!(a.stage(), Stage::Proved));
    assert_eq!(action, Action::Finish);
    assert_eq!(a.artifact().as_ref().unwrap().proof, vec![0xde, 0xad]);
    let (a, action) = a.step(Event::Continue);
    assert!(matches!(a.stage(), Stage::Proved));
    assert_eq!(action, Action::Finish);
}

#[test]
fn a_rejected_document_fails_the_request() {
    let a = Attestation::new(CertificateKind::Gst, Goal::Prove, vec![]);
    let (a, _) = a.step(Event::Continue);
    let (a, action) = a.step(Event::DocumentRejected("bad signature".to_string()));
    assert_eq!(action, Action::Finish);
    match a.stage() {
        Stage::Failed(AttestationError::DocumentVerificationFailed(reason)) => {
            assert_eq!(reason, "bad signature")
        }
        other => panic!("unexpected stage {:?}", other),
    }
}

#[test]
fn a_missing_field_fails_the_request() {
    let a = Attestation::new(CertificateKind::Gst, Goal::Prove, vec![]);
    let (a, _) = a.step(Event::Continue);
    let (a, action) = a.step(Event::DocumentVerified(property_document()));
    assert_eq!(action, Action::Finish);
    assert!(matches!(
        a.stage(),
        Stage::Failed(AttestationError::FieldNotFound(Field::GstNumber))
    ));
    assert!(a.record().is_none());
}

#[test]
fn a_proving_failure_ends_without_submission() {
    let a = proving(Goal::ProveAndRegister);
    assert!(a.record().is_some());
    assert!(a.commitment().is_some());
    let (a, action) = a.step(Event::ProvingFailed("out of cycles".to_string()));
    assert_eq!(action, Action::Finish);
    match a.stage() {
        Stage::Failed(AttestationError::ProofGenerationFailed(detail)) => {
            assert_eq!(detail, "out of cycles")
        }
        other => panic!("unexpected stage {:?}", other),
    }
    let later = vec![
        Event::Continue,
        Event::ProofGenerated(artifact()),
        Event::SubmissionDispatched,
        Event::ReceiptReceived(true),
        Event::Continue,
    ];
    let mut a = a;
    for event in later {
        let (next, action) = a.step(event);
        assert_eq!(action, Action::Finish);
        assert_ne!(action, Action::Submit);
        assert!(matches!(
            next.stage(),
            Stage::Failed(AttestationError::ProofGenerationFailed(_))
        ));
        a = next;
    }
    assert!(a.public_values().is_none());
}

#[test]
fn registration_submits_and_confirms() {
    let a = proving(Goal::ProveAndRegister);
    let (a, action) = a.step(Event::ProofGenerated(artifact()));
    assert_eq!(action, Action::Continue);
    let (a, action) = a.step(Event::Continue);
    assert_eq!(action, Action::Submit);
    assert!(matches!(a.stage(), Stage::Proved));
    let values = a.public_values().as_ref().unwrap();
    assert_eq!(values.primary_id, "1");
    assert_eq!(values.secondary_id, "Mr. Ajay");
    assert_eq!(values.document_commitment, [3; 32]);
    let (a, action) = a.step(Event::SubmissionDispatched);
    assert_eq!(action, Action::AwaitReceipt);
    assert!(matches!(a.stage(), Stage::Submitted));
    let (a, action) = a.step(Event::ReceiptReceived(true));
    assert_eq!(action, Action::Finish);
    assert!(matches!(a.stage(), Stage::Confirmed));
    let (a, action) = a.step(Event::ReceiptReceived(false));
    assert_eq!(action, Action::Finish);
    assert!(matches!(a.stage(), Stage::Confirmed));
}

#[test]
fn a_revert_is_told_apart_from_a_transport_failure() {
    let submitted = |goal| {
        let a = proving(goal);
        let (a, _) = a.step(Event::ProofGenerated(artifact()));
        let (a, _) = a.step(Event::Continue);
        let (a, _) = a.step(Event::SubmissionDispatched);
        a
    };
    let (a, action) = submitted(Goal::ProveAndRegister).step(Event::ReceiptReceived(false));
    assert_eq!(action, Action::Finish);
    assert!(matches!(a.stage(), Stage::Failed(AttestationError::OnChainRevert)));

    let (a, action) =
        submitted(Goal::ProveAndRegister).step(Event::SubmissionFailed("timeout".to_string()));
    assert_eq!(action, Action::Finish);
    match a.stage() {
        Stage::Failed(AttestationError::SubmissionFailed(detail)) => assert_eq!(detail, "timeout"),
        other => panic!("unexpected stage {:?}", other),
    }
}

#[test]
fn a_failed_dispatch_fails_the_request() {
    let a = proving(Goal::ProveAndRegister);
    let (a, _) = a.step(Event::ProofGenerated(artifact()));
    let (a, _) = a.step(Event::Continue);
    let (a, action) = a.step(Event::SubmissionFailed("nonce too low".to_string()));
    assert_eq!(action, Action::Finish);
    assert!(matches!(a.stage(), Stage::Failed(AttestationError::SubmissionFailed(_))));
}

#[test]
fn malformed_public_values_are_not_submitted() {
    let a = proving(Goal::ProveAndRegister);
    let broken = ProofArtifact { proof: vec![1], public_values: vec![0; 40] };
    let (a, _) = a.step(Event::ProofGenerated(broken));
    let (a, action) = a.step(Event::Continue);
    assert_eq!(action, Action::Finish);
    assert!(matches!(a.stage(), Stage::Failed(AttestationError::DecodeMalformed)));
}

#[test]
fn a_dispatch_report_before_submit_changes_nothing() {
    let a = proving(Goal::ProveAndRegister);
    let (a, _) = a.step(Event::ProofGenerated(artifact()));
    let (a, action) = a.step(Event::SubmissionDispatched);
    assert_eq!(action, Action::Wait);
    assert!(matches!(a.stage(), Stage::Proved));
}

#[test]
fn local_verification_is_an_answer_not_a_failure() {
    let a = Attestation::from_proof(
        CertificateKind::PropertyOwnership,
        Goal::ProveAndVerify,
        artifact(),
    );
    assert!(matches!(a.stage(), Stage::Proved));
    let (a, action) = a.step(Event::Continue);
    assert_eq!(action, Action::CheckProof);
    let (a, action) = a.step(Event::ProofChecked(Err("invalid proof".to_string())));
    assert_eq!(action, Action::Finish);
    assert!(matches!(a.stage(), Stage::LocallyVerified));
    let response = a.response().as_ref().unwrap();
    assert!(!response.valid);
    assert_eq!(response.error.as_deref(), Some("Verification failed: invalid proof"));

    let a = Attestation::from_proof(CertificateKind::Gst, Goal::ProveAndVerify, artifact());
    let (a, _) = a.step(Event::Continue);
    let (a, _) = a.step(Event::ProofChecked(Ok(())));
    assert!(matches!(a.stage(), Stage::LocallyVerified));
    let response = a.response().as_ref().unwrap();
    assert!(response.valid);
    assert_eq!(response.error, None);
    let (a, action) = a.step(Event::Continue);
    assert_eq!(action, Action::Finish);
    assert!(matches!(a.stage(), Stage::LocallyVerified));
}

#[test]
fn events_out_of_turn_change_nothing() {
    let a = Attestation::new(CertificateKind::Gst, Goal::Prove, vec![]);
    let (a, action) = a.step(Event::ProofGenerated(artifact()));
    assert_eq!(action, Action::Wait);
    assert!(matches!(a.stage(), Stage::Received));
    let (a, action) = a.step(Event::ReceiptReceived(true));
    assert_eq!(action, Action::Wait);
    assert!(matches!(a.stage(), Stage::Received));
    let a = proving(Goal::Prove);
    let (a, action) = a.step(Event::Continue);
    assert_eq!(action, Action::Wait);
    assert!(matches!(a.stage(), Stage::Proving));
    let (a, action) = a.step(Event::DocumentRejected("late".to_string()));
    assert_eq!(action, Action::Wait);
    assert!(matches!(a.stage(), Stage::Proving));
}

#[test]
fn failure_messages_read_as_sentences() {
    assert_eq!(
        AttestationError::ProofGenerationFailed("boom".to_string()).message(),
        "Proof generation failed: boom"
    );
    assert_eq!(
        AttestationError::ProofVerificationFailed("bad".to_string()).message(),
        "Verification failed: bad"
    );
    assert_eq!(
        AttestationError::SubmissionFailed("gas".to_string()).message(),
        "Submission failed: gas"
    );
    assert_eq!(AttestationError::OnChainRevert.message(), "Proof verification failed on chain");
    assert_eq!(AttestationError::DecodeMalformed.message(), "Public values are malformed");
    assert_eq!(
        AttestationError::DocumentVerificationFailed("x".to_string()).message(),
        "PDF verification failed: x"
    );
    assert_eq!(
        AttestationError::PatternCompilationFailed("y".to_string()).message(),
        "Regex compilation failed: y"
    );
    assert_eq!(
        AttestationError::FieldNotFound(Field::OwnerName).message(),
        "Owner name not found in PDF"
    );
    assert_eq!(
        AttestationError::FieldNotFound(Field::GstNumber).message(),
        "GST number not found in PDF"
    );
}
