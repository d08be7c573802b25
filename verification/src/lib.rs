//! Attestation of facts held in a signed PDF certificate.
//!
//! The library turns the verified text of a tax-registration or
//! property-ownership certificate into a typed record, binds that record to
//! the document's signature with a 32-byte commitment, lays the attested
//! facts out as a fixed binary record, and sequences the proof lifecycle.

pub mod certificate;
pub mod codec;
pub mod error;
pub mod extract;
pub mod fixture;
pub mod lifecycle;
pub mod pattern;
pub mod program;
pub mod text;
pub mod utils;
pub mod word;

pub use codec::PublicValues;
pub use extract::{verify_gst_certificate, verify_property_ownership_certificate};
pub use certificate::{
    CertificateKind, CertificateRecord, CertificateVariant, GSTCertificate, PdfSignatureResult,
    PropertyOwnershipCertificate, VerifiedDocument,
};
