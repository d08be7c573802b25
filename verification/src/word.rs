//! Big-endian 32-byte words, the unit of the public-values layout.

use vstd::prelude::*;

verus! {

/// The number of bytes in one word.
pub const WORD: usize = 32;

/// 256 to the power `k`.
pub open spec fn pow256(k: nat) -> nat
    decreases k,
{
    if k == 0 {
        1
    } else {
        256 * pow256((k - 1) as nat)
    }
}

/// The unsigned number that `bytes` spell in big-endian order.
pub open spec fn be_value(bytes: Seq<u8>) -> nat
    decreases bytes.len(),
{
    if bytes.len() == 0 {
        0
    } else {
        be_value(bytes.drop_last()) * 256 + bytes.last() as nat
    }
}

/// The `len` low-order bytes of `n`, most significant first.
pub open spec fn be_bytes(n: nat, len: nat) -> Seq<u8>
    decreases len,
{
    if len == 0 {
        Seq::empty()
    } else {
        be_bytes(n / 256, (len - 1) as nat).push((n % 256) as u8)
    }
}

/// `n` as one word.
pub open spec fn be_word(n: nat) -> Seq<u8> {
    be_bytes(n, WORD as nat)
}

/// `count` zero bytes.
pub open spec fn zeros(count: nat) -> Seq<u8> {
    Seq::new(count, |i: int| 0u8)
}

/// The number of zero bytes that bring `len` bytes up to a whole number of
/// words.
pub open spec fn padding_of(len: nat) -> nat {
    ((WORD - len % (WORD as nat)) % (WORD as int)) as nat
}

/// The word that stands for a boolean: all zero but for the last byte, which
/// is one for `true`.
pub open spec fn bool_word(b: bool) -> Seq<u8> {
    be_word(if b { 1 } else { 0 })
}

/// A power of 256 is at least one.
pub proof fn lemma_pow256_positive(k: nat)
    ensures
        pow256(k) >= 1,
    decreases k,
{
    if k > 0 {
        lemma_pow256_positive((k - 1) as nat);
    }
}

/// A larger exponent gives a power of 256 that is no smaller.
pub proof fn lemma_pow256_monotonic(j: nat, k: nat)
    requires
        j <= k,
    ensures
        pow256(j) <= pow256(k),
    decreases k,
{
    if j < k {
        lemma_pow256_monotonic(j, (k - 1) as nat);
        lemma_pow256_positive((k - 1) as nat);
    }
}

/// 256^16 is 2^128, so every `u128` fits in sixteen bytes and in a word.
pub proof fn lemma_pow256_sixteen()
    ensures
        pow256(16) == 0x1_0000_0000_0000_0000_0000_0000_0000_0000,
        pow256(WORD as nat) >= 0x1_0000_0000_0000_0000_0000_0000_0000_0000,
{
    reveal_with_fuel(pow256, 17);
    lemma_pow256_monotonic(16, WORD as nat);
}

/// A number written in `len` bytes takes `len` bytes.
pub proof fn lemma_be_bytes_len(n: nat, len: nat)
    ensures
        be_bytes(n, len).len() == len,
    decreases len,
{
    if len > 0 {
        lemma_be_bytes_len(n / 256, (len - 1) as nat);
    }
}

/// Reading back what was written gives the number, when it fits.
pub proof fn lemma_be_value_of_be_bytes(n: nat, len: nat)
    requires
        n < pow256(len),
    ensures
        be_value(be_bytes(n, len)) == n,
    decreases len,
{
    if len > 0 {
        let rest = be_bytes(n / 256, (len - 1) as nat);
        assert(n / 256 < pow256((len - 1) as nat)) by (nonlinear_arith)
            requires
                n < 256 * pow256((len - 1) as nat),
        ;
        lemma_be_value_of_be_bytes(n / 256, (len - 1) as nat);
        assert(be_bytes(n, len).drop_last() =~= rest);
        assert(be_bytes(n, len).last() == (n % 256) as u8);
    }
}

/// A prefix never spells a larger number than the whole.
pub proof fn lemma_be_value_prefix(bytes: Seq<u8>, k: int)
    requires
        0 <= k <= bytes.len(),
    ensures
        be_value(bytes.take(k)) <= be_value(bytes),
    decreases bytes.len() - k,
{
    if k < bytes.len() {
        lemma_be_value_prefix(bytes, k + 1);
        assert(bytes.take(k + 1).drop_last() =~= bytes.take(k));
    } else {
        assert(bytes.take(k) =~= bytes);
    }
}

/// A sequence of bytes spells zero exactly when every byte is zero.
pub proof fn lemma_be_value_zero(bytes: Seq<u8>)
    ensures
        be_value(bytes) == 0 <==> bytes =~= zeros(bytes.len()),
    decreases bytes.len(),
{
    if bytes.len() > 0 {
        lemma_be_value_zero(bytes.drop_last());
        if be_value(bytes) == 0 {
            assert(bytes.last() == 0);
            assert(bytes.drop_last() =~= zeros((bytes.len() - 1) as nat));
            assert forall|i: int| 0 <= i < bytes.len() implies bytes[i] == 0u8 by {
                if i < bytes.len() - 1 {
                    assert(bytes[i] == bytes.drop_last()[i]);
                }
            }
        }
        if bytes =~= zeros(bytes.len()) {
            assert(bytes.drop_last() =~= zeros((bytes.len() - 1) as nat));
        }
    }
}

/// Appends `n` as one word.
pub(crate) fn push_word(out: &mut Vec<u8>, n: u128)
    ensures
        final(out)@ == old(out)@ + be_word(n as nat),
{
    let mut word: Vec<u8> = Vec::new();
    let mut filled: usize = 0;
    while filled < WORD
        invariant
            filled <= WORD,
            word@ == zeros(filled as nat),
        decreases WORD - filled,
    {
        word.push(0u8);
        filled = filled + 1;
        assert(word@ =~= zeros(filled as nat));
    }
    let mut rest: u128 = n;
    let mut i: usize = WORD;
    while i > 0
        invariant
            i <= WORD,
            word@.len() == WORD,
            be_word(n as nat) == be_bytes(rest as nat, i as nat) + word@.subrange(
                i as int,
                WORD as int,
            ),
        decreases i,
    {
        i = i - 1;
        let low: u8 = (rest % 256) as u8;
        let ghost before = word@;
        word.set(i, low);
        assert(be_bytes(rest as nat, (i + 1) as nat) + before.subrange(i + 1, WORD as int)
            =~= be_bytes((rest / 256) as nat, i as nat) + word@.subrange(i as int, WORD as int));
        rest = rest / 256;
    }
    assert(be_bytes(rest as nat, 0) + word@.subrange(0, WORD as int) =~= word@);
    out.append(&mut word);
}

/// Appends `count` zero bytes.
pub(crate) fn push_zeros(out: &mut Vec<u8>, count: usize)
    ensures
        final(out)@ == old(out)@ + zeros(count as nat),
{
    let mut done: usize = 0;
    while done < count
        invariant
            done <= count,
            out@ == old(out)@ + zeros(done as nat),
        decreases count - done,
    {
        out.push(0u8);
        done = done + 1;
        assert(out@ =~= old(out)@ + zeros(done as nat));
    }
}

/// Reads the word of `data` that starts at `at` as a number, if that number
/// is at most `limit`.
pub(crate) fn read_bounded(data: &[u8], at: usize, limit: usize) -> (value: Option<usize>)
    requires
        at + WORD <= data@.len(),
    ensures
        value matches Some(v) ==> v == be_value(data@.subrange(at as int, at + WORD)) && v
            <= limit,
        value is None ==> be_value(data@.subrange(at as int, at + WORD)) > limit,
{
    let ghost word = data@.subrange(at as int, at + WORD);
    let len: usize = data.len();
    let mut acc: usize = 0;
    let mut i: usize = 0;
    while i < WORD
        invariant
            i <= WORD,
            at + WORD <= data@.len() == len,
            word == data@.subrange(at as int, at + WORD),
            acc == be_value(word.take(i as int)),
            acc <= limit,
        decreases WORD - i,
    {
        let byte: u8 = data[at + i];
        let next: u128 = (acc as u128) * 256 + (byte as u128);
        proof {
            assert(word.take(i + 1).drop_last() =~= word.take(i as int));
            assert(word.take(i + 1).last() == byte);
            assert(be_value(word.take(i + 1)) == next);
        }
        if next > limit as u128 {
            proof {
                lemma_be_value_prefix(word, i + 1);
            }
            return None;
        }
        acc = next as usize;
        i = i + 1;
    }
    proof {
        assert(word.take(WORD as int) =~= word);
    }
    Some(acc)
}

/// True when the word of `data` that starts at `at` has a byte that is not
/// zero.
pub(crate) fn word_is_nonzero(data: &[u8], at: usize) -> (nonzero: bool)
    requires
        at + WORD <= data@.len(),
    ensures
        nonzero == (be_value(data@.subrange(at as int, at + WORD)) != 0),
{
    let ghost word = data@.subrange(at as int, at + WORD);
    let len: usize = data.len();
    let mut i: usize = 0;
    while i < WORD
        invariant
            i <= WORD,
            at + WORD <= data@.len() == len,
            word == data@.subrange(at as int, at + WORD),
            forall|j: int| 0 <= j < i ==> word[j] == 0u8,
        decreases WORD - i,
    {
        if data[at + i] != 0 {
            proof {
                lemma_be_value_zero(word);
                assert(word[i as int] != 0u8);
            }
            return true;
        }
        i = i + 1;
    }
    proof {
        lemma_be_value_zero(word);
        assert(word =~= zeros(word.len()));
    }
    false
}

/// Copies the word of `data` that starts at `at`.
pub(crate) fn read_word(data: &[u8], at: usize) -> (word: [u8; 32])
    requires
        at + WORD <= data@.len(),
    ensures
        word@ == data@.subrange(at as int, at + WORD),
{
    let len: usize = data.len();
    let mut word: [u8; 32] = [0u8; 32];
    let mut i: usize = 0;
    while i < WORD
        invariant
            i <= WORD,
            at + WORD <= data@.len() == len,
            forall|j: int| 0 <= j < i ==> word@[j] == data@[at + j],
        decreases WORD - i,
    {
        word[i] = data[at + i];
        i = i + 1;
    }
    assert(word@ =~= data@.subrange(at as int, at + WORD));
    word
}

} // verus!
