//! The rules that turn the verified text of a document into the fields of a
//! certificate.
//!
//! Each field has one pattern and one capture group. A field is the text of
//! its group without the whitespace at its ends; a group that took no part
//! in the match, or that holds nothing but whitespace, counts as missing.
//! A missing field is an error: no record is ever built with a default.

use vstd::prelude::*;

use crate::certificate::{
    CertificateKind, CertificateRecord, CertificateVariant, GSTCertificate,
    PropertyOwnershipCertificate, VerifiedDocument,
};
use crate::error::{missing, Field};
use crate::pattern::{regex_search, search, search_view};
use crate::text::{
    is_whitespace, join_pages, joined, lemma_trimmed_is_idempotent, lemma_trimmed_of_clean_text,
    trim, trimmed,
};
use crate::utils::{GSTVerificationError, GSTVerificationErrorView};

verus! {

/// A registration number, fifteen characters long: two digits, five
/// letters, four digits, a letter, a letter or digit, the letter `Z`, and a
/// letter or digit. Letters are the capitals `A` to `Z`.
pub const GST_NUMBER_PATTERN: &'static str =
    r"([0-9]{2}[A-Z]{5}[0-9]{4}[A-Z]{1}[0-9A-Z]{1}[Z]{1}[0-9A-Z]{1})";

/// The label `Legal Name` and the name after it, up to the end of the line,
/// the next section's label (`Trade Name` or `Additional`), or the end of
/// the text. A name is made of letters, whitespace, `&`, `.` and `,`.
pub const LEGAL_NAME_PATTERN: &'static str =
    r"Legal Name\s*([A-Za-z\s&.,]+?)(?:\n|Trade Name|Additional|$)";

/// The sentence "the property no: N belong(s) to NAME", in any letter case.
/// The number is the first token after the label; the name runs to a full
/// stop at the end of the line, the end of the line, or the end of the text.
pub const PROPERTY_PATTERN: &'static str =
    r"(?im)(?:the\s+)?property\s*:?\s*(?:no\.?:?\s*)?([^\s]+)\s+belong[s]?\s+to\s+(.+?)(?:\.$|\n|$)";

/// The field that group `index` of a match holds, if there is one.
pub open spec fn captured(groups: Seq<Option<Seq<char>>>, index: int) -> Option<Seq<char>> {
    if 0 <= index < groups.len() && groups[index] is Some && trimmed(groups[index]->0).len() > 0 {
        Some(trimmed(groups[index]->0))
    } else {
        None
    }
}

/// The field that group `index` of a search's outcome holds. A malformed
/// pattern is reported as such; everything else that leaves the field
/// without a value is reported as `missing`.
pub open spec fn field_of(
    found: Result<Option<Seq<Option<Seq<char>>>>, Seq<char>>,
    index: int,
    missing: GSTVerificationErrorView,
) -> Result<Seq<char>, GSTVerificationErrorView> {
    match found {
        Err(reason) => Err(GSTVerificationErrorView::RegexCompilationFailed(reason)),
        Ok(None) => Err(missing),
        Ok(Some(groups)) => match captured(groups, index) {
            Some(field) => Ok(field),
            None => Err(missing),
        },
    }
}

/// The two fields of a tax-registration certificate, given the outcome of
/// the search for each. The number is looked at first.
pub open spec fn gst_fields_of(
    number_found: Result<Option<Seq<Option<Seq<char>>>>, Seq<char>>,
    name_found: Result<Option<Seq<Option<Seq<char>>>>, Seq<char>>,
) -> Result<(Seq<char>, Seq<char>), GSTVerificationErrorView> {
    match field_of(number_found, 1, GSTVerificationErrorView::GSTNumberNotFound) {
        Err(e) => Err(e),
        Ok(number) => match field_of(name_found, 1, GSTVerificationErrorView::LegalNameNotFound) {
            Err(e) => Err(e),
            Ok(name) => Ok((number, name)),
        },
    }
}

/// The two fields of a property-ownership certificate, given the outcome of
/// the search for its sentence.
pub open spec fn property_fields_of(
    found: Result<Option<Seq<Option<Seq<char>>>>, Seq<char>>,
) -> Result<(Seq<char>, Seq<char>), GSTVerificationErrorView> {
    match found {
        Err(reason) => Err(GSTVerificationErrorView::RegexCompilationFailed(reason)),
        Ok(None) => Err(GSTVerificationErrorView::PropertyInfoNotFound),
        Ok(Some(groups)) => match captured(groups, 1) {
            None => Err(GSTVerificationErrorView::PropertyNumberNotFound),
            Some(number) => match captured(groups, 2) {
                None => Err(GSTVerificationErrorView::OwnerNameNotFound),
                Some(owner) => Ok((number, owner)),
            },
        },
    }
}

/// The fields of a tax-registration certificate with the text `text`.
pub open spec fn gst_fields_in(text: Seq<char>) -> Result<
    (Seq<char>, Seq<char>),
    GSTVerificationErrorView,
> {
    gst_fields_of(
        regex_search(GST_NUMBER_PATTERN@, text),
        regex_search(LEGAL_NAME_PATTERN@, text),
    )
}

/// The fields of a property-ownership certificate with the text `text`.
pub open spec fn property_fields_in(text: Seq<char>) -> Result<
    (Seq<char>, Seq<char>),
    GSTVerificationErrorView,
> {
    property_fields_of(regex_search(PROPERTY_PATTERN@, text))
}

/// The fields of a certificate of kind `kind` with the text `text`, in the
/// kind's declared order.
pub open spec fn fields_in(kind: CertificateKind, text: Seq<char>) -> Result<
    (Seq<char>, Seq<char>),
    GSTVerificationErrorView,
> {
    match kind {
        CertificateKind::Gst => gst_fields_in(text),
        CertificateKind::PropertyOwnership => property_fields_in(text),
    }
}

/// The mathematical content of an extracted field or its failure.
pub open spec fn field_view(result: Result<String, GSTVerificationError>) -> Result<
    Seq<char>,
    GSTVerificationErrorView,
> {
    match result {
        Ok(field) => Ok(field@),
        Err(e) => Err(e@),
    }
}

/// The mathematical content of a pair of extracted fields or their failure.
pub open spec fn fields_view(result: Result<(String, String), GSTVerificationError>) -> Result<
    (Seq<char>, Seq<char>),
    GSTVerificationErrorView,
> {
    match result {
        Ok((first, second)) => Ok((first@, second@)),
        Err(e) => Err(e@),
    }
}

/// The field that group `index` of a match holds, if there is one.
pub fn captured_field(groups: &Vec<Option<String>>, index: usize) -> (field: Option<String>)
    ensures
        field.deep_view() == captured(groups.deep_view(), index as int),
{
    if index >= groups.len() {
        return None;
    }
    match &groups[index] {
        None => None,
        Some(text) => {
            let stripped = trim(text.as_str());
            if stripped.as_str().unicode_len() == 0 {
                None
            } else {
                Some(stripped)
            }
        },
    }
}

/// The field that group `index` of a search's outcome holds, or the reason
/// why there is none: the pattern is malformed, or `field` was not found.
pub fn field_from(found: Result<Option<Vec<Option<String>>>, String>, index: usize, field: Field)
    -> (result: Result<String, GSTVerificationError>)
    ensures
        field_view(result) == field_of(search_view(found), index as int, missing(field)),
{
    match found {
        Err(reason) => Err(GSTVerificationError::RegexCompilationFailed(reason)),
        Ok(None) => Err(field.not_found()),
        Ok(Some(groups)) => match captured_field(&groups, index) {
            Some(text) => Ok(text),
            None => Err(field.not_found()),
        },
    }
}

/// The property number and the owner name that a search for
/// `PROPERTY_PATTERN` found.
pub fn property_fields_from(found: Result<Option<Vec<Option<String>>>, String>) -> (result: Result<
    (String, String),
    GSTVerificationError,
>)
    ensures
        fields_view(result) == property_fields_of(search_view(found)),
{
    match found {
        Err(reason) => Err(GSTVerificationError::RegexCompilationFailed(reason)),
        Ok(None) => Err(GSTVerificationError::PropertyInfoNotFound),
        Ok(Some(groups)) => match captured_field(&groups, 1) {
            None => Err(GSTVerificationError::PropertyNumberNotFound),
            Some(number) => match captured_field(&groups, 2) {
                None => Err(GSTVerificationError::OwnerNameNotFound),
                Some(owner) => Ok((number, owner)),
            },
        },
    }
}

/// Extracts the registration number and the legal name from the text of a
/// tax-registration certificate.
pub fn extract_gst_fields(full_text: &str) -> (result: Result<
    (String, String),
    GSTVerificationError,
>)
    ensures
        fields_view(result) == gst_fields_in(full_text@),
{
    let number = match field_from(search(GST_NUMBER_PATTERN, full_text), 1, Field::GstNumber) {
        Ok(number) => number,
        Err(e) => {
            return Err(e);
        },
    };
    match field_from(search(LEGAL_NAME_PATTERN, full_text), 1, Field::LegalName) {
        Ok(name) => Ok((number, name)),
        Err(e) => Err(e),
    }
}

/// Extracts the property number and the owner name from the text of a
/// property-ownership certificate.
pub fn extract_property_fields(full_text: &str) -> (result: Result<
    (String, String),
    GSTVerificationError,
>)
    ensures
        fields_view(result) == property_fields_in(full_text@),
{
    property_fields_from(search(PROPERTY_PATTERN, full_text))
}

/// The mathematical content of an extraction's outcome: the two fields in
/// the variant's declared order, or the failure.
pub open spec fn variant_view(result: Result<CertificateVariant, GSTVerificationError>) -> Result<
    (Seq<char>, Seq<char>),
    GSTVerificationErrorView,
> {
    match result {
        Ok(variant) => Ok((variant.primary(), variant.secondary())),
        Err(e) => Err(e@),
    }
}

/// Extracts the fields of a certificate of kind `kind` from its text.
pub fn extract(kind: CertificateKind, full_text: &str) -> (result: Result<
    CertificateVariant,
    GSTVerificationError,
>)
    ensures
        variant_view(result) == fields_in(kind, full_text@),
        result matches Ok(variant) ==> {
            &&& variant.kind_spec() == kind
            &&& variant.primary().len() > 0
            &&& variant.secondary().len() > 0
        },
{
    proof {
        lemma_fields_are_never_blank(kind, full_text@);
    }
    match kind {
        CertificateKind::Gst => match extract_gst_fields(full_text) {
            Ok((gst_number, legal_name)) => Ok(CertificateVariant::GST { gst_number, legal_name }),
            Err(e) => Err(e),
        },
        CertificateKind::PropertyOwnership => match extract_property_fields(full_text) {
            Ok((property_number, owner_name)) => Ok(
                CertificateVariant::PropertyOwnership { property_number, owner_name },
            ),
            Err(e) => Err(e),
        },
    }
}

/// The text that extraction reads: the pages of the document, joined by
/// single spaces.
pub open spec fn text_of_document(document: VerifiedDocument) -> Seq<char> {
    joined(document.pages.deep_view(), seq![' '])
}

/// The fields of a certificate of kind `kind`, given what the check of the
/// document gave: the reason when the document was rejected, and otherwise
/// what extraction finds in the text of its pages.
pub open spec fn fields_of_verified(
    kind: CertificateKind,
    verified: Result<VerifiedDocument, String>,
) -> Result<(Seq<char>, Seq<char>), GSTVerificationErrorView> {
    match verified {
        Ok(document) => fields_in(kind, text_of_document(document)),
        Err(reason) => Err(GSTVerificationErrorView::PdfVerificationFailed(reason@)),
    }
}

/// The mathematical content of a record or of the failure to build one.
pub open spec fn record_view(result: Result<CertificateRecord, GSTVerificationError>) -> Result<
    (Seq<char>, Seq<char>),
    GSTVerificationErrorView,
> {
    match result {
        Ok(record) => Ok((record.variant.primary(), record.variant.secondary())),
        Err(e) => Err(e@),
    }
}

/// The mathematical content of a tax-registration certificate or of the
/// failure to build one.
pub open spec fn gst_certificate_view(
    result: Result<GSTCertificate, GSTVerificationError>,
) -> Result<(Seq<char>, Seq<char>), GSTVerificationErrorView> {
    match result {
        Ok(certificate) => Ok((certificate.gst_number@, certificate.legal_name@)),
        Err(e) => Err(e@),
    }
}

/// The mathematical content of a property-ownership certificate or of the
/// failure to build one.
pub open spec fn property_certificate_view(
    result: Result<PropertyOwnershipCertificate, GSTVerificationError>,
) -> Result<(Seq<char>, Seq<char>), GSTVerificationErrorView> {
    match result {
        Ok(certificate) => Ok((certificate.property_number@, certificate.owner_name@)),
        Err(e) => Err(e@),
    }
}

/// Extracts the record of a certificate of kind `kind` from a verified
/// document. The record keeps the document's signature data.
pub fn extract_record(kind: CertificateKind, document: VerifiedDocument) -> (result: Result<
    CertificateRecord,
    GSTVerificationError,
>)
    ensures
        record_view(result) == fields_in(kind, text_of_document(document)),
        result matches Ok(record) ==> {
            &&& record@.kind == kind
            &&& record@.fields_present()
            &&& record.signature == document.signature
        },
{
    proof {
        lemma_fields_are_never_blank(kind, text_of_document(document));
    }
    let full_text = join_pages(&document.pages);
    match extract(kind, full_text.as_str()) {
        Ok(variant) => Ok(CertificateRecord { variant, signature: document.signature }),
        Err(e) => Err(e),
    }
}

/// GST Certificate verification function that extracts legal name and GST number
///
/// `verified` is what the check of the document's signature and the reading
/// of its pages gave. A document that failed that check is reported with the
/// reason it gave; otherwise the two fields are extracted from the text of
/// the pages, and the certificate keeps the document's signature data.
pub fn verify_gst_certificate(verified: Result<VerifiedDocument, String>) -> (result: Result<
    GSTCertificate,
    GSTVerificationError,
>)
    ensures
        gst_certificate_view(result) == fields_of_verified(CertificateKind::Gst, verified),
        result matches Ok(certificate) ==> {
            &&& verified is Ok
            &&& certificate.signature == verified->Ok_0.signature
            &&& certificate@.fields_present()
        },
{
    proof {
        if verified is Ok {
            lemma_fields_are_never_blank(CertificateKind::Gst, text_of_document(verified->Ok_0));
        }
    }
    let verified_content = match verified {
        Ok(document) => document,
        Err(reason) => {
            return Err(GSTVerificationError::PdfVerificationFailed(reason));
        },
    };
    let full_text = join_pages(&verified_content.pages);
    match extract_gst_fields(full_text.as_str()) {
        Ok((gst_number, legal_name)) => Ok(
            GSTCertificate { gst_number, legal_name, signature: verified_content.signature },
        ),
        Err(e) => Err(e),
    }
}

/// Property Ownership Certificate verification function that extracts property number and owner name
///
/// `verified` is what the check of the document's signature and the reading
/// of its pages gave. A document that failed that check is reported with the
/// reason it gave; otherwise the two fields are extracted from the text of
/// the pages, and the certificate keeps the document's signature data.
pub fn verify_property_ownership_certificate(verified: Result<VerifiedDocument, String>) -> (result:
    Result<PropertyOwnershipCertificate, GSTVerificationError>)
    ensures
        property_certificate_view(result) == fields_of_verified(
            CertificateKind::PropertyOwnership,
            verified,
        ),
        result matches Ok(certificate) ==> {
            &&& verified is Ok
            &&& certificate.signature == verified->Ok_0.signature
            &&& certificate@.fields_present()
        },
{
    proof {
        if verified is Ok {
            lemma_fields_are_never_blank(
                CertificateKind::PropertyOwnership,
                text_of_document(verified->Ok_0),
            );
        }
    }
    let verified_content = match verified {
        Ok(document) => document,
        Err(reason) => {
            return Err(GSTVerificationError::PdfVerificationFailed(reason));
        },
    };
    let full_text = join_pages(&verified_content.pages);
    match extract_property_fields(full_text.as_str()) {
        Ok((property_number, owner_name)) => Ok(
            PropertyOwnershipCertificate {
                property_number,
                owner_name,
                signature: verified_content.signature,
            },
        ),
        Err(e) => Err(e),
    }
}

/// A text that matches the property sentence with the number `number` and
/// the owner `owner` gives exactly those two, without the whitespace at
/// their ends.
pub proof fn lemma_property_match_gives_its_fields(
    groups: Seq<Option<Seq<char>>>,
    number: Seq<char>,
    owner: Seq<char>,
)
    requires
        groups.len() >= 3,
        groups[1] == Some(number),
        groups[2] == Some(owner),
        trimmed(number).len() > 0,
        trimmed(owner).len() > 0,
    ensures
        property_fields_of(Ok(Some(groups))) matches Ok(fields) && fields == (
            trimmed(number),
            trimmed(owner),
        ),
{
}

/// A property sentence whose number and owner neither start nor end with
/// whitespace gives exactly that number and that owner.
pub proof fn lemma_property_sentence_gives_token_and_name(
    groups: Seq<Option<Seq<char>>>,
    token: Seq<char>,
    name: Seq<char>,
)
    requires
        groups.len() >= 3,
        groups[1] == Some(token),
        groups[2] == Some(name),
        token.len() > 0,
        !is_whitespace(token.first()),
        !is_whitespace(token.last()),
        name.len() > 0,
        !is_whitespace(name.first()),
        !is_whitespace(name.last()),
    ensures
        property_fields_of(Ok(Some(groups))) matches Ok(fields) && fields == (token, name),
{
    lemma_trimmed_of_clean_text(token);
    lemma_trimmed_of_clean_text(name);
}

/// A text in which a required pattern finds nothing gives no fields but the
/// error that says which field was not found.
pub proof fn lemma_no_match_is_field_not_found(text: Seq<char>)
    ensures
        regex_search(PROPERTY_PATTERN@, text) matches Ok(None) ==> property_fields_in(text)
            matches Err(GSTVerificationErrorView::PropertyInfoNotFound),
        regex_search(GST_NUMBER_PATTERN@, text) matches Ok(None) ==> gst_fields_in(text)
            matches Err(GSTVerificationErrorView::GSTNumberNotFound),
        (regex_search(GST_NUMBER_PATTERN@, text) is Ok && (regex_search(
            LEGAL_NAME_PATTERN@,
            text,
        ) matches Ok(None))) ==> (gst_fields_in(text) matches Err(e) && e.is_field_not_found()),
{
}

/// Extraction gives two fields or an error, never a default: fields that are
/// returned are not empty and neither start nor end with whitespace, and an
/// error is either a field that was not found or a pattern that is
/// malformed.
pub proof fn lemma_fields_are_never_blank(kind: CertificateKind, text: Seq<char>)
    ensures
        match fields_in(kind, text) {
            Ok((first, second)) => {
                &&& first.len() > 0
                &&& second.len() > 0
                &&& trimmed(first) == first
                &&& trimmed(second) == second
            },
            Err(e) => e.is_field_not_found() || e is RegexCompilationFailed,
        },
{
    match fields_in(kind, text) {
        Ok((first, second)) => {
            match kind {
                CertificateKind::Gst => {
                    let number = regex_search(GST_NUMBER_PATTERN@, text)->Ok_0->0[1]->0;
                    let name = regex_search(LEGAL_NAME_PATTERN@, text)->Ok_0->0[1]->0;
                    lemma_trimmed_is_idempotent(number);
                    lemma_trimmed_is_idempotent(name);
                },
                CertificateKind::PropertyOwnership => {
                    let groups = regex_search(PROPERTY_PATTERN@, text)->Ok_0->0;
                    lemma_trimmed_is_idempotent(groups[1]->0);
                    lemma_trimmed_is_idempotent(groups[2]->0);
                },
            }
        },
        Err(e) => {},
    }
}

} // verus!
