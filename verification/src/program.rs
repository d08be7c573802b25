//! What the proving program computes from a verified document: the public
//! values of the attestation and their encoding.

use vstd::prelude::*;

use crate::certificate::{CertificateKind, CertificateRecord, RecordView, VerifiedDocument};
use crate::codec::{encode, encoding_of, PublicValues, PublicValuesView};
use crate::extract::{extract_record, fields_of_verified};
use crate::utils::{
    commit, commitment_of, keccak256, keccak256_digest, GSTVerificationError,
    GSTVerificationErrorView,
};

verus! {

/// The public values of a record. The primary identifier is the record's
/// first field (the registration number of a tax registration, the property
/// number of a property), the secondary identifier its second (the legal
/// name, the owner name).
pub open spec fn public_values_spec(record: RecordView) -> PublicValuesView {
    PublicValuesView {
        primary_id: record.primary,
        secondary_id: record.secondary,
        signature_valid: record.signature.is_valid,
        document_commitment: commitment_of(record),
        public_key_hash: keccak256_digest(record.signature.public_key),
    }
}

/// The public values of a record: its two fields, whether the signature was
/// valid, the commitment to the record, and the digest of the public key.
pub fn public_values_of(record: &CertificateRecord) -> (values: PublicValues)
    ensures
        values@ == public_values_spec(record@),
{
    PublicValues {
        primary_id: record.variant.primary_id().clone(),
        secondary_id: record.variant.secondary_id().clone(),
        signature_valid: record.signature.is_valid,
        document_commitment: commit(record),
        public_key_hash: keccak256(record.signature.public_key.as_slice()),
    }
}

/// The bytes that the proving program makes public for a certificate of kind
/// `kind`, given what the check of the document gave, or the reason why
/// there are none.
pub open spec fn attested(kind: CertificateKind, verified: Result<VerifiedDocument, String>)
    -> Result<Seq<u8>, GSTVerificationErrorView> {
    match fields_of_verified(kind, verified) {
        Ok((primary, secondary)) => Ok(
            encoding_of(
                public_values_spec(
                    RecordView { kind, primary, secondary, signature: verified->Ok_0.signature@ },
                ),
            ),
        ),
        Err(e) => Err(e),
    }
}

/// Runs the proving program's computation: extracts the record of a
/// certificate of kind `kind` from the verified document, commits to it, and
/// encodes the public values.
pub fn attest(kind: CertificateKind, verified: Result<VerifiedDocument, String>) -> (result: Result<
    Vec<u8>,
    GSTVerificationError,
>)
    ensures
        match result {
            Ok(bytes) => attested(kind, verified) matches Ok(public) && public == bytes@,
            Err(e) => attested(kind, verified) matches Err(reason) && reason == e@,
        },
{
    let document = match verified {
        Ok(document) => document,
        Err(reason) => {
            return Err(GSTVerificationError::PdfVerificationFailed(reason));
        },
    };
    match extract_record(kind, document) {
        Ok(record) => Ok(encode(&public_values_of(&record))),
        Err(e) => Err(e),
    }
}

} // verus!
