//! The data that one attestation carries from the verified document to the
//! commitment.

use vstd::prelude::*;

use crate::text::trimmed;

verus! {

/// What the signature check of a document produced.
#[derive(Clone, Debug)]
pub struct PdfSignatureResult {
    pub message_digest: Vec<u8>,
    pub public_key: Vec<u8>,
    pub is_valid: bool,
}

/// A document whose signature was checked and whose page text was read.
#[derive(Clone, Debug)]
pub struct VerifiedDocument {
    pub pages: Vec<String>,
    pub signature: PdfSignatureResult,
}

/// A tax-registration certificate: registration number and legal name.
#[derive(Clone, Debug)]
pub struct GSTCertificate {
    pub gst_number: String,
    pub legal_name: String,
    pub signature: PdfSignatureResult,
}

/// A property-ownership certificate: property number and owner name.
#[derive(Clone, Debug)]
pub struct PropertyOwnershipCertificate {
    pub property_number: String,
    pub owner_name: String,
    pub signature: PdfSignatureResult,
}

/// The kinds of certificate that can be attested.
#[derive(Clone, Copy, Debug, PartialEq, Eq, Structural)]
pub enum CertificateKind {
    Gst,
    PropertyOwnership,
}

/// The fields extracted from a certificate, by kind.
#[derive(Clone, Debug)]
pub enum CertificateVariant {
    GST { gst_number: String, legal_name: String },
    PropertyOwnership { property_number: String, owner_name: String },
}

/// The extracted fields of one document together with its signature data.
#[derive(Clone, Debug)]
pub struct CertificateRecord {
    pub variant: CertificateVariant,
    pub signature: PdfSignatureResult,
}

/// The mathematical content of a `PdfSignatureResult`.
pub ghost struct SignatureView {
    pub message_digest: Seq<u8>,
    pub public_key: Seq<u8>,
    pub is_valid: bool,
}

impl View for PdfSignatureResult {
    type V = SignatureView;

    open spec fn view(&self) -> SignatureView {
        SignatureView {
            message_digest: self.message_digest@,
            public_key: self.public_key@,
            is_valid: self.is_valid,
        }
    }
}

/// The mathematical content of a `CertificateRecord`: its kind, its two
/// fields in the kind's declared order, and its signature data.
pub ghost struct RecordView {
    pub kind: CertificateKind,
    pub primary: Seq<char>,
    pub secondary: Seq<char>,
    pub signature: SignatureView,
}

impl RecordView {
    /// Whether both fields are present: neither is empty, and neither starts
    /// or ends with whitespace. Every record that extraction builds is so.
    pub open spec fn fields_present(self) -> bool {
        &&& self.primary.len() > 0
        &&& self.secondary.len() > 0
        &&& trimmed(self.primary) == self.primary
        &&& trimmed(self.secondary) == self.secondary
    }
}

impl View for CertificateRecord {
    type V = RecordView;

    open spec fn view(&self) -> RecordView {
        RecordView {
            kind: self.variant.kind_spec(),
            primary: self.variant.primary(),
            secondary: self.variant.secondary(),
            signature: self.signature@,
        }
    }
}

impl View for GSTCertificate {
    type V = RecordView;

    open spec fn view(&self) -> RecordView {
        RecordView {
            kind: CertificateKind::Gst,
            primary: self.gst_number@,
            secondary: self.legal_name@,
            signature: self.signature@,
        }
    }
}

impl View for PropertyOwnershipCertificate {
    type V = RecordView;

    open spec fn view(&self) -> RecordView {
        RecordView {
            kind: CertificateKind::PropertyOwnership,
            primary: self.property_number@,
            secondary: self.owner_name@,
            signature: self.signature@,
        }
    }
}

impl GSTCertificate {
    /// The certificate as a record of kind `Gst`.
    pub fn into_record(self) -> (record: CertificateRecord)
        ensures
            record@ == self@,
    {
        CertificateRecord {
            variant: CertificateVariant::GST {
                gst_number: self.gst_number,
                legal_name: self.legal_name,
            },
            signature: self.signature,
        }
    }
}

impl PropertyOwnershipCertificate {
    /// The certificate as a record of kind `PropertyOwnership`.
    pub fn into_record(self) -> (record: CertificateRecord)
        ensures
            record@ == self@,
    {
        CertificateRecord {
            variant: CertificateVariant::PropertyOwnership {
                property_number: self.property_number,
                owner_name: self.owner_name,
            },
            signature: self.signature,
        }
    }
}

impl CertificateVariant {
    /// The kind of certificate these fields came from.
    pub open spec fn kind_spec(self) -> CertificateKind {
        match self {
            CertificateVariant::GST { .. } => CertificateKind::Gst,
            CertificateVariant::PropertyOwnership { .. } => CertificateKind::PropertyOwnership,
        }
    }

    /// The first field in the variant's declared order.
    pub open spec fn primary(self) -> Seq<char> {
        match self {
            CertificateVariant::GST { gst_number, .. } => gst_number@,
            CertificateVariant::PropertyOwnership { property_number, .. } => property_number@,
        }
    }

    /// The second field in the variant's declared order.
    pub open spec fn secondary(self) -> Seq<char> {
        match self {
            CertificateVariant::GST { legal_name, .. } => legal_name@,
            CertificateVariant::PropertyOwnership { owner_name, .. } => owner_name@,
        }
    }

    /// The kind of certificate these fields came from.
    pub fn kind(&self) -> (k: CertificateKind)
        ensures
            k == self.kind_spec(),
    {
        match self {
            CertificateVariant::GST { .. } => CertificateKind::Gst,
            CertificateVariant::PropertyOwnership { .. } => CertificateKind::PropertyOwnership,
        }
    }

    /// The first field in the variant's declared order: the registration
    /// number or the property number.
    pub fn primary_id(&self) -> (field: &String)
        ensures
            field@ == self.primary(),
    {
        match self {
            CertificateVariant::GST { gst_number, .. } => gst_number,
            CertificateVariant::PropertyOwnership { property_number, .. } => property_number,
        }
    }

    /// The second field in the variant's declared order: the legal name or
    /// the owner name.
    pub fn secondary_id(&self) -> (field: &String)
        ensures
            field@ == self.secondary(),
    {
        match self {
            CertificateVariant::GST { legal_name, .. } => legal_name,
            CertificateVariant::PropertyOwnership { owner_name, .. } => owner_name,
        }
    }
}

} // verus!
