//! The failures of an attestation.

use vstd::prelude::*;
use vstd::string::StringExecFns;

use crate::utils::{GSTVerificationError, GSTVerificationErrorView};

verus! {

/// The fields that extraction looks for.
#[derive(Clone, Copy, Debug, PartialEq, Eq, Structural)]
pub enum Field {
    GstNumber,
    LegalName,
    PropertyInfo,
    PropertyNumber,
    OwnerName,
}

/// Why an attestation stopped. Each stage of the lifecycle has its own cause.
#[derive(Debug)]
pub enum AttestationError {
    /// The document's signature or structure was rejected.
    DocumentVerificationFailed(String),
    /// An extraction pattern is malformed.
    PatternCompilationFailed(String),
    /// A required field is not in the document's text.
    FieldNotFound(Field),
    /// The proving service did not produce a proof.
    ProofGenerationFailed(String),
    /// The proof did not pass verification against its key.
    ProofVerificationFailed(String),
    /// The submission did not reach the chain.
    SubmissionFailed(String),
    /// The chain executed the submission and reverted it.
    OnChainRevert,
    /// The bytes are not a public-values record.
    DecodeMalformed,
}

/// The mathematical content of an `AttestationError`.
pub ghost enum AttestationErrorView {
    DocumentVerificationFailed(Seq<char>),
    PatternCompilationFailed(Seq<char>),
    FieldNotFound(Field),
    ProofGenerationFailed(Seq<char>),
    ProofVerificationFailed(Seq<char>),
    SubmissionFailed(Seq<char>),
    OnChainRevert,
    DecodeMalformed,
}

impl View for AttestationError {
    type V = AttestationErrorView;

    open spec fn view(&self) -> AttestationErrorView {
        match self {
            AttestationError::DocumentVerificationFailed(detail) => {
                AttestationErrorView::DocumentVerificationFailed(detail@)
            },
            AttestationError::PatternCompilationFailed(detail) => {
                AttestationErrorView::PatternCompilationFailed(detail@)
            },
            AttestationError::FieldNotFound(field) => AttestationErrorView::FieldNotFound(*field),
            AttestationError::ProofGenerationFailed(detail) => {
                AttestationErrorView::ProofGenerationFailed(detail@)
            },
            AttestationError::ProofVerificationFailed(detail) => {
                AttestationErrorView::ProofVerificationFailed(detail@)
            },
            AttestationError::SubmissionFailed(detail) => {
                AttestationErrorView::SubmissionFailed(detail@)
            },
            AttestationError::OnChainRevert => AttestationErrorView::OnChainRevert,
            AttestationError::DecodeMalformed => AttestationErrorView::DecodeMalformed,
        }
    }
}

/// The failure of an attestation that a failure of extraction amounts to.
pub open spec fn error_of_extraction(e: GSTVerificationErrorView) -> AttestationErrorView {
    match e {
        GSTVerificationErrorView::PdfVerificationFailed(detail) => {
            AttestationErrorView::DocumentVerificationFailed(detail)
        },
        GSTVerificationErrorView::RegexCompilationFailed(detail) => {
            AttestationErrorView::PatternCompilationFailed(detail)
        },
        GSTVerificationErrorView::GSTNumberNotFound => {
            AttestationErrorView::FieldNotFound(Field::GstNumber)
        },
        GSTVerificationErrorView::LegalNameNotFound => {
            AttestationErrorView::FieldNotFound(Field::LegalName)
        },
        GSTVerificationErrorView::PropertyInfoNotFound => {
            AttestationErrorView::FieldNotFound(Field::PropertyInfo)
        },
        GSTVerificationErrorView::PropertyNumberNotFound => {
            AttestationErrorView::FieldNotFound(Field::PropertyNumber)
        },
        GSTVerificationErrorView::OwnerNameNotFound => {
            AttestationErrorView::FieldNotFound(Field::OwnerName)
        },
    }
}

/// The failure of extraction that says that `field` was not found.
pub open spec fn missing(field: Field) -> GSTVerificationErrorView {
    match field {
        Field::GstNumber => GSTVerificationErrorView::GSTNumberNotFound,
        Field::LegalName => GSTVerificationErrorView::LegalNameNotFound,
        Field::PropertyInfo => GSTVerificationErrorView::PropertyInfoNotFound,
        Field::PropertyNumber => GSTVerificationErrorView::PropertyNumberNotFound,
        Field::OwnerName => GSTVerificationErrorView::OwnerNameNotFound,
    }
}

impl AttestationErrorView {
    /// The sentence that describes the failure.
    pub open spec fn message(self) -> Seq<char> {
        match self {
            AttestationErrorView::DocumentVerificationFailed(detail) => {
                "PDF verification failed: "@ + detail
            },
            AttestationErrorView::PatternCompilationFailed(detail) => {
                "Regex compilation failed: "@ + detail
            },
            AttestationErrorView::FieldNotFound(field) => missing(field).message(),
            AttestationErrorView::ProofGenerationFailed(detail) => {
                "Proof generation failed: "@ + detail
            },
            AttestationErrorView::ProofVerificationFailed(detail) => {
                "Verification failed: "@ + detail
            },
            AttestationErrorView::SubmissionFailed(detail) => "Submission failed: "@ + detail,
            AttestationErrorView::OnChainRevert => "Proof verification failed on chain"@,
            AttestationErrorView::DecodeMalformed => "Public values are malformed"@,
        }
    }
}

impl Field {
    /// The failure of extraction that says that this field was not found.
    pub fn not_found(self) -> (e: GSTVerificationError)
        ensures
            e@ == missing(self),
    {
        match self {
            Field::GstNumber => GSTVerificationError::GSTNumberNotFound,
            Field::LegalName => GSTVerificationError::LegalNameNotFound,
            Field::PropertyInfo => GSTVerificationError::PropertyInfoNotFound,
            Field::PropertyNumber => GSTVerificationError::PropertyNumberNotFound,
            Field::OwnerName => GSTVerificationError::OwnerNameNotFound,
        }
    }
}

impl AttestationError {
    /// The failure of an attestation that a failure of extraction amounts
    /// to: a rejected document, a malformed pattern, or a field not found.
    pub fn from_extraction(e: GSTVerificationError) -> (error: AttestationError)
        ensures
            error@ == error_of_extraction(e@),
    {
        match e {
            GSTVerificationError::PdfVerificationFailed(detail) => {
                AttestationError::DocumentVerificationFailed(detail)
            },
            GSTVerificationError::RegexCompilationFailed(detail) => {
                AttestationError::PatternCompilationFailed(detail)
            },
            GSTVerificationError::GSTNumberNotFound => {
                AttestationError::FieldNotFound(Field::GstNumber)
            },
            GSTVerificationError::LegalNameNotFound => {
                AttestationError::FieldNotFound(Field::LegalName)
            },
            GSTVerificationError::PropertyInfoNotFound => {
                AttestationError::FieldNotFound(Field::PropertyInfo)
            },
            GSTVerificationError::PropertyNumberNotFound => {
                AttestationError::FieldNotFound(Field::PropertyNumber)
            },
            GSTVerificationError::OwnerNameNotFound => {
                AttestationError::FieldNotFound(Field::OwnerName)
            },
        }
    }

    /// The sentence that describes the failure, as it is shown to a user.
    pub fn message(&self) -> (text: String)
        ensures
            text@ == self@.message(),
    {
        match self {
            AttestationError::DocumentVerificationFailed(detail) => {
                String::from_str("PDF verification failed: ").concat(detail.as_str())
            },
            AttestationError::PatternCompilationFailed(detail) => {
                String::from_str("Regex compilation failed: ").concat(detail.as_str())
            },
            AttestationError::FieldNotFound(field) => field.not_found().message(),
            AttestationError::ProofGenerationFailed(detail) => {
                String::from_str("Proof generation failed: ").concat(detail.as_str())
            },
            AttestationError::ProofVerificationFailed(detail) => {
                String::from_str("Verification failed: ").concat(detail.as_str())
            },
            AttestationError::SubmissionFailed(detail) => {
                String::from_str("Submission failed: ").concat(detail.as_str())
            },
            AttestationError::OnChainRevert => {
                String::from_str("Proof verification failed on chain")
            },
            AttestationError::DecodeMalformed => String::from_str("Public values are malformed"),
        }
    }
}

} // verus!
