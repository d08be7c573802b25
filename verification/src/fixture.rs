//! What is reported about a finished proof: the fixture that a contract
//! test reads, and the answer to a verification request.

use vstd::prelude::*;
use vstd::string::StringExecFns;

use crate::codec::{decode, decoding_of};
use crate::error::{AttestationError, AttestationErrorView};

verus! {

/// The sixteen hexadecimal digits, lower case.
pub open spec fn hex_digits() -> Seq<char> {
    seq!['0', '1', '2', '3', '4', '5', '6', '7', '8', '9', 'a', 'b', 'c', 'd', 'e', 'f']
}

/// The lower-case hexadecimal form of `bytes`: two digits for each byte, the
/// high half first.
pub open spec fn hex_of(bytes: Seq<u8>) -> Seq<char> {
    Seq::new(
        2 * bytes.len(),
        |i: int|
            if i % 2 == 0 {
                hex_digits()[bytes[i / 2] as int / 16]
            } else {
                hex_digits()[bytes[i / 2] as int % 16]
            },
    )
}

/// The hexadecimal form of `bytes` behind the prefix `0x`.
pub open spec fn prefixed_hex_of(bytes: Seq<u8>) -> Seq<char> {
    seq!['0', 'x'] + hex_of(bytes)
}

/// Calls `hex::encode`, which writes each byte as two lower-case hexadecimal
/// digits; the contract states that.
#[verifier::external_body]
pub(crate) fn hex_encode(bytes: &[u8]) -> (text: String)
    ensures
        text@ == hex_of(bytes@),
{
    hex::encode(bytes)
}

/// The hexadecimal form of `bytes` behind the prefix `0x`.
pub fn prefixed_hex(bytes: &[u8]) -> (text: String)
    ensures
        text@ == prefixed_hex_of(bytes@),
{
    proof {
        reveal_strlit("0x");
        assert("0x"@ =~= seq!['0', 'x']);
    }
    String::from_str("0x").concat(hex_encode(bytes).as_str())
}

/// A fixture that can be used to test the verification of a proof inside a
/// contract: the decoded public values, and the verifying key, the encoded
/// public values and the proof as text.
#[derive(Debug, Clone)]
pub struct SP1PropertyProofFixture {
    pub property_number: String,
    pub owner_name: String,
    pub signature_valid: bool,
    pub document_commitment: String,
    pub public_key_hash: String,
    pub vkey: String,
    pub public_values: String,
    pub proof: String,
}

/// The mathematical content of a fixture.
pub ghost struct FixtureView {
    pub property_number: Seq<char>,
    pub owner_name: Seq<char>,
    pub signature_valid: bool,
    pub document_commitment: Seq<char>,
    pub public_key_hash: Seq<char>,
    pub vkey: Seq<char>,
    pub public_values: Seq<char>,
    pub proof: Seq<char>,
}

impl View for SP1PropertyProofFixture {
    type V = FixtureView;

    open spec fn view(&self) -> FixtureView {
        FixtureView {
            property_number: self.property_number@,
            owner_name: self.owner_name@,
            signature_valid: self.signature_valid,
            document_commitment: self.document_commitment@,
            public_key_hash: self.public_key_hash@,
            vkey: self.vkey@,
            public_values: self.public_values@,
            proof: self.proof@,
        }
    }
}

/// The fixture for a proof with the public values `public_values`, if they
/// are a well-formed record.
pub open spec fn fixture_of(public_values: Seq<u8>, proof: Seq<u8>, vkey: Seq<char>) -> Option<
    FixtureView,
> {
    match decoding_of(public_values) {
        Some(values) => Some(
            FixtureView {
                property_number: values.primary_id,
                owner_name: values.secondary_id,
                signature_valid: values.signature_valid,
                document_commitment: prefixed_hex_of(values.document_commitment),
                public_key_hash: prefixed_hex_of(values.public_key_hash),
                vkey: vkey,
                public_values: prefixed_hex_of(public_values),
                proof: prefixed_hex_of(proof),
            },
        ),
        None => None,
    }
}

/// Create a fixture for the given proof.
///
/// `public_values` are the bytes that the proof makes public, `proof` the
/// proof's own bytes and `vkey` the verifying key as text. Public values that
/// are not a well-formed record give `DecodeMalformed`.
pub fn create_proof_fixture(public_values: &[u8], proof: &[u8], vkey: &str) -> (result: Result<
    SP1PropertyProofFixture,
    AttestationError,
>)
    ensures
        match result {
            Ok(fixture) => fixture_of(public_values@, proof@, vkey@) == Some(fixture@),
            Err(e) => fixture_of(public_values@, proof@, vkey@) is None && e@
                == AttestationErrorView::DecodeMalformed,
        },
{
    let decoded = match decode(public_values) {
        Ok(decoded) => decoded,
        Err(e) => {
            return Err(e);
        },
    };
    let document_commitment = prefixed_hex(decoded.document_commitment.as_slice());
    let public_key_hash = prefixed_hex(decoded.public_key_hash.as_slice());
    Ok(
        SP1PropertyProofFixture {
            property_number: decoded.primary_id,
            owner_name: decoded.secondary_id,
            signature_valid: decoded.signature_valid,
            document_commitment,
            public_key_hash,
            vkey: String::from_str(vkey),
            public_values: prefixed_hex(public_values),
            proof: prefixed_hex(proof),
        },
    )
}

/// The proof systems that a fixture can be made for.
#[derive(Copy, Clone, PartialEq, Eq, Debug, Structural)]
pub enum ProofSystem {
    Plonk,
    Groth16,
}

/// The name of the file that holds the fixture for a proof system.
pub fn fixture_file_name(system: ProofSystem) -> (name: String)
    ensures
        name@ == match system {
            ProofSystem::Plonk => "plonk-fixture.json"@,
            ProofSystem::Groth16 => "groth16-fixture.json"@,
        },
{
    match system {
        ProofSystem::Plonk => String::from_str("plonk-fixture.json"),
        ProofSystem::Groth16 => String::from_str("groth16-fixture.json"),
    }
}

/// The answer to a request to verify a proof.
#[derive(Debug, Clone)]
pub struct VerifyResponse {
    pub valid: bool,
    pub error: Option<String>,
}

/// The answer for a given outcome of the verification: valid and without an
/// error when the proof passed, and otherwise invalid, with the sentence that
/// says why.
pub open spec fn response_of(outcome: Result<(), Seq<char>>) -> (bool, Option<Seq<char>>) {
    match outcome {
        Ok(_) => (true, None),
        Err(detail) => (
            false,
            Some(AttestationErrorView::ProofVerificationFailed(detail).message()),
        ),
    }
}

/// Builds the answer to a verification request from what the verifier said.
/// A proof that does not verify is an answer, not a failure.
pub fn verify_response(outcome: Result<(), String>) -> (response: VerifyResponse)
    ensures
        (response.valid, response.error.deep_view()) == response_of(
            match outcome {
                Ok(_) => Ok(()),
                Err(detail) => Err(detail@),
            },
        ),
{
    match outcome {
        Ok(_) => VerifyResponse { valid: true, error: None },
        Err(detail) => VerifyResponse {
            valid: false,
            error: Some(AttestationError::ProofVerificationFailed(detail).message()),
        },
    }
}

} // verus!
