//! The public values of an attestation and their fixed binary layout.
//!
//! The layout is that of a contract-ABI tuple
//! `(string, string, bool, bytes32, bytes32)` passed as one value: a word
//! that points to the tuple, the tuple's five head words, and then the two
//! strings, each as a length word followed by its bytes padded with zeros to
//! a whole number of words.

use vstd::prelude::*;
use vstd::slice::slice_subrange;
use vstd::utf8::{encode_utf8, encode_utf8_decode_utf8, encode_utf8_valid_utf8};

use crate::error::{AttestationError, AttestationErrorView};
use crate::text::{string_from_bytes, text_of};
use crate::word::{
    be_value, be_word, bool_word, lemma_be_bytes_len, lemma_be_value_of_be_bytes,
    lemma_pow256_sixteen, padding_of, push_word, push_zeros, read_bounded, read_word,
    word_is_nonzero, zeros, WORD,
};

verus! {

/// The facts that an attestation makes public.
#[derive(Clone, Debug)]
pub struct PublicValues {
    /// The variant's first field: the registration or property number.
    pub primary_id: String,
    /// The variant's second field: the legal or owner name.
    pub secondary_id: String,
    pub signature_valid: bool,
    pub document_commitment: [u8; 32],
    pub public_key_hash: [u8; 32],
}

/// The mathematical content of a `PublicValues`.
pub ghost struct PublicValuesView {
    pub primary_id: Seq<char>,
    pub secondary_id: Seq<char>,
    pub signature_valid: bool,
    pub document_commitment: Seq<u8>,
    pub public_key_hash: Seq<u8>,
}

impl View for PublicValues {
    type V = PublicValuesView;

    open spec fn view(&self) -> PublicValuesView {
        PublicValuesView {
            primary_id: self.primary_id@,
            secondary_id: self.secondary_id@,
            signature_valid: self.signature_valid,
            document_commitment: self.document_commitment@,
            public_key_hash: self.public_key_hash@,
        }
    }
}

impl PublicValuesView {
    /// What holds of the view of every `PublicValues`: both fixed fields are
    /// one word long, and the UTF-8 form of each string has a length that a
    /// machine can hold.
    pub open spec fn wf(self) -> bool {
        &&& self.document_commitment.len() == WORD
        &&& self.public_key_hash.len() == WORD
        &&& encode_utf8(self.primary_id).len() <= usize::MAX
        &&& encode_utf8(self.secondary_id).len() <= usize::MAX
    }
}

/// The number of bytes in the tuple's head: five words.
pub const HEAD: usize = 160;

/// A byte string as the layout stores it: its length as a word, its bytes,
/// and zeros up to the next word boundary.
pub open spec fn packed(bytes: Seq<u8>) -> Seq<u8> {
    be_word(bytes.len()) + bytes + zeros(padding_of(bytes.len()))
}

/// The encoding of a record as a tuple: five head words, of which the first
/// two say where the strings start, and then the two strings.
pub open spec fn tuple_encoding(v: PublicValuesView) -> Seq<u8> {
    let first = packed(encode_utf8(v.primary_id));
    let second = packed(encode_utf8(v.secondary_id));
    be_word(HEAD as nat) + be_word((HEAD + first.len()) as nat) + bool_word(v.signature_valid)
        + v.document_commitment + v.public_key_hash + first + second
}

/// The encoding of a record: a word that points just past itself, and there
/// the record as a tuple.
pub open spec fn encoding_of(v: PublicValuesView) -> Seq<u8> {
    be_word(WORD as nat) + tuple_encoding(v)
}

/// The part of `buf` that the offset word at `at` points to, if that word
/// lies in `buf` and points into it or to its end.
pub open spec fn follow(buf: Seq<u8>, at: int) -> Option<Seq<u8>> {
    if at + WORD <= buf.len() && be_value(buf.subrange(at, at + WORD)) <= buf.len() {
        Some(buf.skip(be_value(buf.subrange(at, at + WORD)) as int))
    } else {
        None
    }
}

/// The byte string that starts `buf`, if its length word and as many bytes as
/// that word says lie in `buf`. The zeros that pad the bytes to a whole word
/// are not asked for: input that ends inside the padding of its last string
/// still holds every byte of the record.
pub open spec fn unpacked(buf: Seq<u8>) -> Option<Seq<u8>> {
    if WORD <= buf.len() && WORD + be_value(buf.take(WORD as int)) <= buf.len() {
        Some(buf.subrange(WORD as int, WORD + be_value(buf.take(WORD as int))))
    } else {
        None
    }
}

/// The byte string that the head word at `at` of `body` points to.
pub open spec fn string_at(body: Seq<u8>, at: int) -> Option<Seq<u8>> {
    match follow(body, at) {
        Some(region) => unpacked(region),
        None => None,
    }
}

/// The record that `data` decodes to, if it is well formed.
pub open spec fn decoding_of(data: Seq<u8>) -> Option<PublicValuesView> {
    match follow(data, 0) {
        Some(body) => {
            if body.len() < HEAD {
                None
            } else {
                match (string_at(body, 0), string_at(body, WORD as int)) {
                    (Some(first), Some(second)) => Some(
                        PublicValuesView {
                            primary_id: text_of(first),
                            secondary_id: text_of(second),
                            signature_valid: be_value(body.subrange(2 * WORD, 3 * WORD)) != 0,
                            document_commitment: body.subrange(3 * WORD, 4 * WORD),
                            public_key_hash: body.subrange(4 * WORD, 5 * WORD),
                        },
                    ),
                    _ => None,
                }
            }
        },
        None => None,
    }
}

fn push_packed(out: &mut Vec<u8>, bytes: &[u8])
    ensures
        final(out)@ == old(out)@ + packed(bytes@),
{
    let len: usize = bytes.len();
    push_word(out, len as u128);
    out.extend_from_slice(bytes);
    let padding: usize = (WORD - len % WORD) % WORD;
    push_zeros(out, padding);
    assert(out@ =~= old(out)@ + packed(bytes@));
}

/// Lays a record out in the fixed binary layout. This never fails, and what
/// it gives decodes to the record again.
pub fn encode(values: &PublicValues) -> (bytes: Vec<u8>)
    ensures
        bytes@ == encoding_of(values@),
        decoding_of(bytes@) == Some(values@),
{
    let first = values.primary_id.as_str().as_bytes();
    let second = values.secondary_id.as_str().as_bytes();
    let first_len: usize = first.len();
    let first_padding: usize = (WORD - first_len % WORD) % WORD;
    let second_at: u128 = HEAD as u128 + WORD as u128 + first_len as u128 + first_padding as u128;
    let mut out: Vec<u8> = Vec::new();
    push_word(&mut out, WORD as u128);
    push_word(&mut out, HEAD as u128);
    push_word(&mut out, second_at);
    push_word(&mut out, if values.signature_valid { 1 } else { 0 });
    out.extend_from_slice(values.document_commitment.as_slice());
    out.extend_from_slice(values.public_key_hash.as_slice());
    push_packed(&mut out, first);
    push_packed(&mut out, second);
    proof {
        lemma_be_bytes_len(first@.len(), WORD as nat);
        assert(packed(first@).len() == WORD + first_len + first_padding);
        assert(out@ =~= encoding_of(values@));
        assert(second@.len() == second.len());
        lemma_decode_encode(values@);
    }
    out
}

/// Reads the byte string that the head word at `base + at` points to, where
/// the tuple starts at `base`.
fn read_string<'a>(data: &'a [u8], base: usize, at: usize) -> (bytes: Option<&'a [u8]>)
    requires
        base <= data@.len(),
        at + WORD <= data@.len() - base,
    ensures
        match bytes {
            Some(b) => string_at(data@.skip(base as int), at as int) == Some(b@),
            None => string_at(data@.skip(base as int), at as int) is None,
        },
{
    let len: usize = data.len();
    let ghost body = data@.skip(base as int);
    assert(body.subrange(at as int, at + WORD) =~= data@.subrange(base + at, base + at + WORD));
    let offset = match read_bounded(data, base + at, len - base) {
        Some(offset) => offset,
        None => {
            return None;
        },
    };
    let start: usize = base + offset;
    let ghost region = body.skip(offset as int);
    assert(region =~= data@.skip(start as int));
    assert(follow(body, at as int) == Some(region));
    if len - start < WORD {
        return None;
    }
    assert(region.take(WORD as int) =~= data@.subrange(start as int, start + WORD));
    let count = match read_bounded(data, start, len - start - WORD) {
        Some(count) => count,
        None => {
            return None;
        },
    };
    let bytes = slice_subrange(data, start + WORD, start + WORD + count);
    assert(bytes@ =~= region.subrange(WORD as int, WORD + count));
    Some(bytes)
}

/// Reads a record back from the fixed binary layout.
pub fn decode(data: &[u8]) -> (result: Result<PublicValues, AttestationError>)
    ensures
        match result {
            Ok(values) => decoding_of(data@) == Some(values@),
            Err(e) => decoding_of(data@) is None && e@ == AttestationErrorView::DecodeMalformed,
        },
{
    let len: usize = data.len();
    if len < WORD {
        return Err(AttestationError::DecodeMalformed);
    }
    let base = match read_bounded(data, 0, len) {
        Some(base) => base,
        None => {
            return Err(AttestationError::DecodeMalformed);
        },
    };
    let ghost body = data@.skip(base as int);
    assert(follow(data@, 0) == Some(body));
    if len - base < HEAD {
        return Err(AttestationError::DecodeMalformed);
    }
    let first = match read_string(data, base, 0) {
        Some(first) => first,
        None => {
            return Err(AttestationError::DecodeMalformed);
        },
    };
    let second = match read_string(data, base, WORD) {
        Some(second) => second,
        None => {
            return Err(AttestationError::DecodeMalformed);
        },
    };
    assert(body.subrange(2 * WORD, 3 * WORD) =~= data@.subrange(base + 2 * WORD, base + 3 * WORD));
    assert(body.subrange(3 * WORD, 4 * WORD) =~= data@.subrange(base + 3 * WORD, base + 4 * WORD));
    assert(body.subrange(4 * WORD, 5 * WORD) =~= data@.subrange(base + 4 * WORD, base + 5 * WORD));
    let values = PublicValues {
        primary_id: string_from_bytes(first),
        secondary_id: string_from_bytes(second),
        signature_valid: word_is_nonzero(data, base + 2 * WORD),
        document_commitment: read_word(data, base + 3 * WORD),
        public_key_hash: read_word(data, base + 4 * WORD),
    };
    assert(values@ == decoding_of(data@)->0);
    Ok(values)
}

/// A word that stands between two byte strings reads back as its number.
proof fn lemma_word_between(before: Seq<u8>, n: nat, after: Seq<u8>)
    requires
        n < 0x1_0000_0000_0000_0000_0000_0000_0000_0000,
    ensures
        (before + be_word(n) + after).subrange(before.len() as int, before.len() + WORD)
            == be_word(n),
        be_value(be_word(n)) == n,
        be_word(n).len() == WORD,
{
    lemma_pow256_sixteen();
    lemma_be_bytes_len(n, WORD as nat);
    lemma_be_value_of_be_bytes(n, WORD as nat);
    assert((before + be_word(n) + after).subrange(before.len() as int, before.len() + WORD)
        =~= be_word(n));
}

/// An offset word that stands between two byte strings leads to the place
/// that its number says.
proof fn lemma_follow_word(before: Seq<u8>, n: nat, after: Seq<u8>)
    requires
        n <= before.len() + WORD + after.len(),
        n < 0x1_0000_0000_0000_0000_0000_0000_0000_0000,
    ensures
        follow(before + be_word(n) + after, before.len() as int) == Some(
            (before + be_word(n) + after).skip(n as int),
        ),
{
    lemma_word_between(before, n, after);
}

/// A packed byte string, whatever follows it, unpacks to the bytes.
proof fn lemma_unpacked_packed(bytes: Seq<u8>, after: Seq<u8>)
    requires
        bytes.len() <= usize::MAX,
    ensures
        unpacked(packed(bytes) + after) == Some(bytes),
        packed(bytes).len() == WORD + bytes.len() + padding_of(bytes.len()),
{
    let buf = packed(bytes) + after;
    let rest = bytes + zeros(padding_of(bytes.len())) + after;
    lemma_word_between(Seq::empty(), bytes.len(), rest);
    assert(buf =~= Seq::<u8>::empty() + be_word(bytes.len()) + rest);
    assert(buf.take(WORD as int) =~= buf.subrange(0, WORD as int));
    assert(buf.subrange(WORD as int, WORD + bytes.len()) =~= bytes);
}

/// The two strings of an encoded tuple are found where its head says.
#[verifier::rlimit(40)]
proof fn lemma_strings_of_tuple(v: PublicValuesView)
    requires
        v.wf(),
    ensures
        string_at(tuple_encoding(v), 0) == Some(encode_utf8(v.primary_id)),
        string_at(tuple_encoding(v), WORD as int) == Some(encode_utf8(v.secondary_id)),
{
    let first = packed(encode_utf8(v.primary_id));
    let second = packed(encode_utf8(v.secondary_id));
    let second_at = (HEAD + first.len()) as nat;
    let fixed = bool_word(v.signature_valid) + v.document_commitment + v.public_key_hash;
    let body = tuple_encoding(v);
    lemma_unpacked_packed(encode_utf8(v.primary_id), second);
    lemma_unpacked_packed(encode_utf8(v.secondary_id), Seq::empty());
    lemma_be_bytes_len(HEAD as nat, WORD as nat);
    lemma_be_bytes_len(second_at, WORD as nat);
    lemma_be_bytes_len(if v.signature_valid { 1 } else { 0 }, WORD as nat);
    assert(fixed.len() == 3 * WORD);

    let after_first = be_word(second_at) + fixed + first + second;
    assert(body =~= Seq::<u8>::empty() + be_word(HEAD as nat) + after_first);
    lemma_follow_word(Seq::empty(), HEAD as nat, after_first);
    assert(body.skip(HEAD as int) =~= first + second);

    let after_second = fixed + first + second;
    assert(body =~= be_word(HEAD as nat) + be_word(second_at) + after_second);
    lemma_follow_word(be_word(HEAD as nat), second_at, after_second);
    assert(body.skip(second_at as int) =~= second + Seq::<u8>::empty());
}

/// The three fixed words of an encoded tuple stand in its head, after the
/// two offsets.
proof fn lemma_fixed_words_of_tuple(v: PublicValuesView)
    requires
        v.wf(),
    ensures
        tuple_encoding(v).len() >= HEAD,
        be_value(tuple_encoding(v).subrange(2 * WORD, 3 * WORD)) != 0 <==> v.signature_valid,
        tuple_encoding(v).subrange(3 * WORD, 4 * WORD) == v.document_commitment,
        tuple_encoding(v).subrange(4 * WORD, 5 * WORD) == v.public_key_hash,
{
    let first = packed(encode_utf8(v.primary_id));
    let second = packed(encode_utf8(v.secondary_id));
    let second_at = (HEAD + first.len()) as nat;
    let flag: nat = if v.signature_valid { 1 } else { 0 };
    let body = tuple_encoding(v);
    lemma_be_bytes_len(HEAD as nat, WORD as nat);
    lemma_be_bytes_len(second_at, WORD as nat);
    lemma_word_between(Seq::empty(), flag, Seq::empty());
    assert(body.subrange(2 * WORD, 3 * WORD) =~= bool_word(v.signature_valid));
    assert(body.subrange(3 * WORD, 4 * WORD) =~= v.document_commitment);
    assert(body.subrange(4 * WORD, 5 * WORD) =~= v.public_key_hash);
}

/// Decoding undoes encoding: every well-formed record, whatever its strings
/// hold and however long they are, is read back from its encoding unchanged.
pub proof fn lemma_decode_encode(v: PublicValuesView)
    requires
        v.wf(),
    ensures
        decoding_of(encoding_of(v)) == Some(v),
{
    let data = encoding_of(v);
    let body = tuple_encoding(v);
    lemma_strings_of_tuple(v);
    lemma_fixed_words_of_tuple(v);
    lemma_follow_word(Seq::empty(), WORD as nat, body);
    assert(data =~= Seq::<u8>::empty() + be_word(WORD as nat) + body);
    lemma_be_bytes_len(WORD as nat, WORD as nat);
    assert(data.skip(WORD as int) =~= body);
    assert(follow(data, 0) == Some(body));
    encode_utf8_valid_utf8(v.primary_id);
    encode_utf8_decode_utf8(v.primary_id);
    encode_utf8_valid_utf8(v.secondary_id);
    encode_utf8_decode_utf8(v.secondary_id);
}

/// Records with the same encoding are the same record: the layout loses
/// nothing.
pub proof fn lemma_encoding_is_injective(a: PublicValuesView, b: PublicValuesView)
    requires
        a.wf(),
        b.wf(),
        encoding_of(a) == encoding_of(b),
    ensures
        a == b,
{
    lemma_decode_encode(a);
    lemma_decode_encode(b);
}

/// An encoding is a whole number of words long: the leading word, the five
/// head words, and for each string its length word and its padded bytes.
pub proof fn lemma_encoding_length(v: PublicValuesView)
    requires
        v.wf(),
    ensures
        encoding_of(v).len() == 8 * WORD + encode_utf8(v.primary_id).len() + padding_of(
            encode_utf8(v.primary_id).len(),
        ) + encode_utf8(v.secondary_id).len() + padding_of(encode_utf8(v.secondary_id).len()),
        encoding_of(v).len() % (WORD as nat) == 0,
{
    let first = encode_utf8(v.primary_id);
    let second = encode_utf8(v.secondary_id);
    lemma_be_bytes_len(WORD as nat, WORD as nat);
    lemma_be_bytes_len(HEAD as nat, WORD as nat);
    lemma_be_bytes_len((HEAD + packed(first).len()) as nat, WORD as nat);
    lemma_be_bytes_len(if v.signature_valid { 1 } else { 0 }, WORD as nat);
    lemma_be_bytes_len(first.len(), WORD as nat);
    lemma_be_bytes_len(second.len(), WORD as nat);
}

/// Input that is shorter than the tuple's head is malformed.
pub proof fn lemma_short_input_is_malformed(data: Seq<u8>)
    requires
        data.len() < HEAD,
    ensures
        decoding_of(data) is None,
{
}

/// Input with an offset that points past the end is malformed: the leading
/// word must point into the input, and the offset of each string must point
/// into the tuple.
pub proof fn lemma_offset_past_end_is_malformed(data: Seq<u8>)
    ensures
        data.len() >= WORD && be_value(data.subrange(0, WORD as int)) > data.len()
            ==> decoding_of(data) is None,
        follow(data, 0) matches Some(body) ==> body.len() >= HEAD && (be_value(
            body.subrange(0, WORD as int),
        ) > body.len() || be_value(body.subrange(WORD as int, 2 * WORD)) > body.len())
            ==> decoding_of(data) is None,
{
}

/// The part of a packed byte string that a cut leaves does not unpack when
/// the cut falls before the end of the bytes.
proof fn lemma_cut_packed_does_not_unpack(bytes: Seq<u8>, keep: int)
    requires
        bytes.len() <= usize::MAX,
        0 <= keep < WORD + bytes.len(),
    ensures
        unpacked(packed(bytes).take(keep)) is None,
{
    let cut = packed(bytes).take(keep);
    lemma_be_bytes_len(bytes.len(), WORD as nat);
    if keep >= WORD {
        let rest = bytes + zeros(padding_of(bytes.len()));
        lemma_word_between(Seq::empty(), bytes.len(), rest);
        assert(packed(bytes) =~= Seq::<u8>::empty() + be_word(bytes.len()) + rest);
        assert(cut.take(WORD as int) =~= packed(bytes).subrange(0, WORD as int));
    }
}

/// An encoding that was cut short is malformed: whatever is kept, if it
/// ends before the last byte of the second string, does not decode.
#[verifier::rlimit(40)]
pub proof fn lemma_truncated_encoding_is_malformed(v: PublicValuesView, keep: int)
    requires
        v.wf(),
        0 <= keep < encoding_of(v).len() - padding_of(encode_utf8(v.secondary_id).len()),
    ensures
        decoding_of(encoding_of(v).take(keep)) is None,
{
    let first = packed(encode_utf8(v.primary_id));
    let second = packed(encode_utf8(v.secondary_id));
    let second_at = (HEAD + first.len()) as nat;
    let fixed = bool_word(v.signature_valid) + v.document_commitment + v.public_key_hash;
    let data = encoding_of(v);
    let body = tuple_encoding(v);
    let cut = data.take(keep);
    lemma_unpacked_packed(encode_utf8(v.primary_id), second);
    lemma_unpacked_packed(encode_utf8(v.secondary_id), Seq::empty());
    lemma_be_bytes_len(WORD as nat, WORD as nat);
    lemma_be_bytes_len(HEAD as nat, WORD as nat);
    lemma_be_bytes_len(second_at, WORD as nat);
    lemma_be_bytes_len(if v.signature_valid { 1 } else { 0 }, WORD as nat);
    assert(body.len() == HEAD + first.len() + second.len());
    if keep >= WORD + HEAD {
        // The leading word and the head are whole.
        lemma_word_between(Seq::empty(), WORD as nat, body);
        assert(data =~= Seq::<u8>::empty() + be_word(WORD as nat) + body);
        assert(cut.subrange(0, WORD as int) =~= data.subrange(0, WORD as int));
        let cut_body = cut.skip(WORD as int);
        assert(cut_body =~= body.take(keep - WORD));
        assert(follow(cut, 0) == Some(cut_body));
        let after_first = be_word(second_at) + fixed + first + second;
        lemma_word_between(Seq::empty(), HEAD as nat, after_first);
        assert(body =~= Seq::<u8>::empty() + be_word(HEAD as nat) + after_first);
        assert(cut_body.subrange(0, WORD as int) =~= body.subrange(0, WORD as int));
        let after_second = fixed + first + second;
        lemma_word_between(be_word(HEAD as nat), second_at, after_second);
        assert(body =~= be_word(HEAD as nat) + be_word(second_at) + after_second);
        assert(cut_body.subrange(WORD as int, 2 * WORD) =~= body.subrange(
            WORD as int,
            2 * WORD,
        ));
        if keep - WORD < second_at {
            // The cut falls in the first string or right after it.
            if keep - WORD - HEAD < first.len() - padding_of(encode_utf8(v.primary_id).len()) {
                assert(cut_body.skip(HEAD as int) =~= first.take(keep - WORD - HEAD));
                lemma_cut_packed_does_not_unpack(encode_utf8(v.primary_id), keep - WORD - HEAD);
                assert(string_at(cut_body, 0) is None);
            } else {
                assert(follow(cut_body, WORD as int) is None);
            }
        } else {
            // The cut falls in the second string.
            assert(cut_body.skip(second_at as int) =~= second.take(keep - WORD - second_at));
            lemma_cut_packed_does_not_unpack(
                encode_utf8(v.secondary_id),
                keep - WORD - second_at,
            );
            assert(string_at(cut_body, WORD as int) is None);
        }
    } else if keep >= WORD {
        lemma_word_between(Seq::empty(), WORD as nat, body);
        assert(data =~= Seq::<u8>::empty() + be_word(WORD as nat) + body);
        assert(cut.subrange(0, WORD as int) =~= data.subrange(0, WORD as int));
        assert(cut.skip(WORD as int).len() < HEAD);
    }
}

} // verus!
