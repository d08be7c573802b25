//! Commitments over certificate data, and the error type of extraction.

use vstd::prelude::*;
use vstd::string::StringExecFns;
use vstd::utf8::{encode_utf8, encode_utf8_decode_utf8};

use crate::certificate::{
    CertificateRecord, GSTCertificate, PdfSignatureResult, PropertyOwnershipCertificate,
    RecordView,
};

verus! {

/// The Keccak-256 digest of a byte sequence.
pub uninterp spec fn keccak256_digest(data: Seq<u8>) -> Seq<u8>;

/// Calls `alloy_primitives::keccak256`. The contract names the digest of the
/// input bytes; the hash function itself is not modelled.
#[verifier::external_body]
pub(crate) fn keccak256(data: &[u8]) -> (digest: [u8; 32])
    ensures
        digest@ == keccak256_digest(data@),
{
    alloy_primitives::keccak256(data).0
}

/// The bytes that the commitment to a record hashes.
pub open spec fn preimage_of(record: RecordView) -> Seq<u8> {
    record.signature.message_digest + encode_utf8(record.primary) + encode_utf8(record.secondary)
        + record.signature.public_key
}

/// The commitment to a record: the Keccak-256 digest of its preimage. The
/// kind of the record plays no part in it.
pub open spec fn commitment_of(record: RecordView) -> Seq<u8> {
    keccak256_digest(preimage_of(record))
}

/// Hashes the message digest, the two fields as UTF-8 in the order given,
/// and the public key, in that order and with nothing between them.
fn commit_fields(signature: &PdfSignatureResult, first: &str, second: &str) -> (digest: [u8; 32])
    ensures
        digest@ == keccak256_digest(
            signature.message_digest@ + encode_utf8(first@) + encode_utf8(second@)
                + signature.public_key@,
        ),
{
    let mut combined_input: Vec<u8> = Vec::new();
    combined_input.extend_from_slice(signature.message_digest.as_slice());
    combined_input.extend_from_slice(first.as_bytes());
    combined_input.extend_from_slice(second.as_bytes());
    combined_input.extend_from_slice(signature.public_key.as_slice());
    assert(combined_input@ =~= signature.message_digest@ + encode_utf8(first@) + encode_utf8(
        second@,
    ) + signature.public_key@);
    keccak256(combined_input.as_slice())
}

/// Generate a commitment hash from the GST certificate data
pub fn generate_commitment(gst: &GSTCertificate) -> (digest: [u8; 32])
    ensures
        digest@ == commitment_of(gst@),
        digest@.len() == 32,
{
    commit_fields(&gst.signature, gst.gst_number.as_str(), gst.legal_name.as_str())
}

/// Generate a commitment hash from the Property Ownership certificate data
pub fn generate_property_commitment(property: &PropertyOwnershipCertificate) -> (digest: [u8; 32])
    ensures
        digest@ == commitment_of(property@),
        digest@.len() == 32,
{
    commit_fields(
        &property.signature,
        property.property_number.as_str(),
        property.owner_name.as_str(),
    )
}

/// Generates the commitment to a record of either kind: the digest of the
/// signature's message digest, the two fields in the kind's declared order,
/// and the public key.
pub fn commit(record: &CertificateRecord) -> (digest: [u8; 32])
    ensures
        digest@ == commitment_of(record@),
        digest@.len() == 32,
{
    commit_fields(
        &record.signature,
        record.variant.primary_id().as_str(),
        record.variant.secondary_id().as_str(),
    )
}

/// Equal parts give equal commitments: the commitment is a function of the
/// message digest, the two fields in order, and the public key, and of
/// nothing else.
pub proof fn lemma_commitment_deterministic(a: RecordView, b: RecordView)
    requires
        a.signature.message_digest == b.signature.message_digest,
        a.primary == b.primary,
        a.secondary == b.secondary,
        a.signature.public_key == b.signature.public_key,
    ensures
        commitment_of(a) == commitment_of(b),
{
}

/// A byte string between the same two neighbours is recovered from the
/// whole.
proof fn lemma_middle_is_determined(before: Seq<u8>, x: Seq<u8>, y: Seq<u8>, after: Seq<u8>)
    requires
        before + x + after == before + y + after,
    ensures
        x == y,
{
    let whole_x = before + x + after;
    let whole_y = before + y + after;
    assert(whole_x.len() == before.len() + x.len() + after.len());
    assert(whole_y.len() == before.len() + y.len() + after.len());
    assert forall|i: int| 0 <= i < x.len() implies x[i] == y[i] by {
        assert(whole_x[before.len() + i] == x[i]);
        assert(whole_y[before.len() + i] == y[i]);
    }
    assert(x =~= y);
}

/// Whether two records differ in exactly one of the four parts that a
/// commitment covers.
pub open spec fn differ_in_one_part(a: RecordView, b: RecordView) -> bool {
    let digest = a.signature.message_digest != b.signature.message_digest;
    let first = a.primary != b.primary;
    let second = a.secondary != b.secondary;
    let key = a.signature.public_key != b.signature.public_key;
    ||| digest && !first && !second && !key
    ||| !digest && first && !second && !key
    ||| !digest && !first && second && !key
    ||| !digest && !first && !second && key
}

/// Changing one part of a record, and nothing else, changes the bytes that
/// its commitment hashes. (That the digests then differ is a property of the
/// hash function, which is not modelled.)
pub proof fn lemma_preimage_changes_with_one_part(a: RecordView, b: RecordView)
    requires
        differ_in_one_part(a, b),
    ensures
        preimage_of(a) != preimage_of(b),
{
    let digest = a.signature.message_digest;
    let key = a.signature.public_key;
    let first = encode_utf8(a.primary);
    let second = encode_utf8(a.secondary);
    if preimage_of(a) == preimage_of(b) {
        if a.signature.message_digest != b.signature.message_digest {
            let rest = first + second + key;
            assert(preimage_of(a) =~= Seq::<u8>::empty() + digest + rest);
            assert(preimage_of(b) =~= Seq::<u8>::empty() + b.signature.message_digest + rest);
            lemma_middle_is_determined(
                Seq::empty(),
                digest,
                b.signature.message_digest,
                rest,
            );
        } else if a.primary != b.primary {
            assert(preimage_of(a) =~= digest + first + (second + key));
            assert(preimage_of(b) =~= digest + encode_utf8(b.primary) + (second + key));
            lemma_middle_is_determined(digest, first, encode_utf8(b.primary), second + key);
            encode_utf8_decode_utf8(a.primary);
            encode_utf8_decode_utf8(b.primary);
        } else if a.secondary != b.secondary {
            assert(preimage_of(a) =~= (digest + first) + second + key);
            assert(preimage_of(b) =~= (digest + first) + encode_utf8(b.secondary) + key);
            lemma_middle_is_determined(digest + first, second, encode_utf8(b.secondary), key);
            encode_utf8_decode_utf8(a.secondary);
            encode_utf8_decode_utf8(b.secondary);
        } else {
            assert(preimage_of(a) =~= (digest + first + second) + key + Seq::<u8>::empty());
            assert(preimage_of(b) =~= (digest + first + second) + b.signature.public_key
                + Seq::<u8>::empty());
            lemma_middle_is_determined(
                digest + first + second,
                key,
                b.signature.public_key,
                Seq::empty(),
            );
        }
    }
}

/// Why the fields of a certificate could not be extracted.
#[derive(Debug)]
pub enum GSTVerificationError {
    PdfVerificationFailed(String),
    RegexCompilationFailed(String),
    GSTNumberNotFound,
    LegalNameNotFound,
    PropertyInfoNotFound,
    PropertyNumberNotFound,
    OwnerNameNotFound,
}

/// The mathematical content of a `GSTVerificationError`.
pub ghost enum GSTVerificationErrorView {
    PdfVerificationFailed(Seq<char>),
    RegexCompilationFailed(Seq<char>),
    GSTNumberNotFound,
    LegalNameNotFound,
    PropertyInfoNotFound,
    PropertyNumberNotFound,
    OwnerNameNotFound,
}

impl View for GSTVerificationError {
    type V = GSTVerificationErrorView;

    open spec fn view(&self) -> GSTVerificationErrorView {
        match self {
            GSTVerificationError::PdfVerificationFailed(msg) => {
                GSTVerificationErrorView::PdfVerificationFailed(msg@)
            },
            GSTVerificationError::RegexCompilationFailed(msg) => {
                GSTVerificationErrorView::RegexCompilationFailed(msg@)
            },
            GSTVerificationError::GSTNumberNotFound => GSTVerificationErrorView::GSTNumberNotFound,
            GSTVerificationError::LegalNameNotFound => GSTVerificationErrorView::LegalNameNotFound,
            GSTVerificationError::PropertyInfoNotFound => {
                GSTVerificationErrorView::PropertyInfoNotFound
            },
            GSTVerificationError::PropertyNumberNotFound => {
                GSTVerificationErrorView::PropertyNumberNotFound
            },
            GSTVerificationError::OwnerNameNotFound => GSTVerificationErrorView::OwnerNameNotFound,
        }
    }
}

impl GSTVerificationErrorView {
    /// Whether the error says that a required field is not in the text.
    pub open spec fn is_field_not_found(self) -> bool {
        match self {
            GSTVerificationErrorView::PdfVerificationFailed(_) => false,
            GSTVerificationErrorView::RegexCompilationFailed(_) => false,
            _ => true,
        }
    }

    /// The sentence that describes the error.
    pub open spec fn message(self) -> Seq<char> {
        match self {
            GSTVerificationErrorView::PdfVerificationFailed(msg) => {
                "PDF verification failed: "@ + msg
            },
            GSTVerificationErrorView::RegexCompilationFailed(msg) => {
                "Regex compilation failed: "@ + msg
            },
            GSTVerificationErrorView::GSTNumberNotFound => "GST number not found in PDF"@,
            GSTVerificationErrorView::LegalNameNotFound => "Legal name not found in PDF"@,
            GSTVerificationErrorView::PropertyInfoNotFound => {
                "Property information not found in PDF"@
            },
            GSTVerificationErrorView::PropertyNumberNotFound => {
                "Property number not found in PDF"@
            },
            GSTVerificationErrorView::OwnerNameNotFound => "Owner name not found in PDF"@,
        }
    }
}

impl GSTVerificationError {
    /// The sentence that describes the error, as it is shown to a user.
    pub fn message(&self) -> (text: String)
        ensures
            text@ == self@.message(),
    {
        match self {
            GSTVerificationError::PdfVerificationFailed(msg) => {
                String::from_str("PDF verification failed: ").concat(msg.as_str())
            },
            GSTVerificationError::RegexCompilationFailed(msg) => {
                String::from_str("Regex compilation failed: ").concat(msg.as_str())
            },
            GSTVerificationError::GSTNumberNotFound => {
                String::from_str("GST number not found in PDF")
            },
            GSTVerificationError::LegalNameNotFound => {
                String::from_str("Legal name not found in PDF")
            },
            GSTVerificationError::PropertyInfoNotFound => {
                String::from_str("Property information not found in PDF")
            },
            GSTVerificationError::PropertyNumberNotFound => {
                String::from_str("Property number not found in PDF")
            },
            GSTVerificationError::OwnerNameNotFound => {
                String::from_str("Owner name not found in PDF")
            },
        }
    }
}

} // verus!
