use vstd::prelude::*;
use vstd::arithmetic::div_mod::{
    lemma_div_denominator, lemma_fundamental_div_mod, lemma_fundamental_div_mod_converse,
};

verus! {

/// One interleaved complex sample of the wire format, held as the IEEE-754
/// bit patterns of its real and imaginary 32-bit parts. The library never
/// interprets the bits numerically; it only moves them between the byte
/// encoding and this form.
#[derive(Clone, Copy, PartialEq, Eq, Structural, Debug)]
pub struct ComplexSample {
    pub re_bits: u32,
    pub im_bits: u32,
}

/// The 32-bit word stored little-endian as the four bytes `b0..b3`.
pub open spec fn le_word(b0: u8, b1: u8, b2: u8, b3: u8) -> u32 {
    (b0 + b1 * 0x100 + b2 * 0x10000 + b3 * 0x1000000) as u32
}

/// Byte `j` (little-endian, `0 <= j < 4`) of the 32-bit word `x`.
pub open spec fn word_byte(x: u32, j: int) -> u8 {
    if j == 0 {
        (x % 0x100) as u8
    } else if j == 1 {
        ((x / 0x100) % 0x100) as u8
    } else if j == 2 {
        ((x / 0x10000) % 0x100) as u8
    } else {
        ((x / 0x1000000) % 0x100) as u8
    }
}

/// The sample that bytes `8k .. 8k+8` of a decoded buffer spell: first the
/// real part, then the imaginary part, each four bytes little-endian.
pub open spec fn sample_at(bytes: Seq<u8>, k: int) -> ComplexSample {
    ComplexSample {
        re_bits: le_word(bytes[8 * k], bytes[8 * k + 1], bytes[8 * k + 2], bytes[8 * k + 3]),
        im_bits: le_word(bytes[8 * k + 4], bytes[8 * k + 5], bytes[8 * k + 6], bytes[8 * k + 7]),
    }
}

/// The samples spelled by a raw byte buffer, one per eight bytes.
pub open spec fn samples_of_bytes(bytes: Seq<u8>) -> Seq<ComplexSample> {
    Seq::new((bytes.len() / 8) as nat, |k: int| sample_at(bytes, k))
}

/// Byte `j` (`0 <= j < 8`) of one encoded sample: real part first.
pub open spec fn sample_byte(s: ComplexSample, j: int) -> u8 {
    if j < 4 {
        word_byte(s.re_bits, j)
    } else {
        word_byte(s.im_bits, j - 4)
    }
}

/// The raw byte buffer that spells a sequence of samples.
pub open spec fn bytes_of_samples(samples: Seq<ComplexSample>) -> Seq<u8> {
    Seq::new(samples.len() * 8, |i: int| sample_byte(samples[i / 8], i % 8))
}

/// Taking a little-endian word apart recovers the four bytes it was built of.
pub proof fn lemma_word_bytes(b0: u8, b1: u8, b2: u8, b3: u8)
    ensures
        word_byte(le_word(b0, b1, b2, b3), 0) == b0,
        word_byte(le_word(b0, b1, b2, b3), 1) == b1,
        word_byte(le_word(b0, b1, b2, b3), 2) == b2,
        word_byte(le_word(b0, b1, b2, b3), 3) == b3,
{
    let x = le_word(b0, b1, b2, b3) as int;
    let q1 = b1 + b2 * 0x100 + b3 * 0x10000;
    lemma_fundamental_div_mod_converse(x, 0x100, q1, b0 as int);
    let q2 = b2 + b3 * 0x100;
    lemma_fundamental_div_mod_converse(q1, 0x100, q2, b1 as int);
    lemma_fundamental_div_mod_converse(q2, 0x100, b3 as int, b2 as int);
    lemma_div_denominator(x, 0x100, 0x100);
    lemma_div_denominator(x, 0x10000, 0x100);
    lemma_fundamental_div_mod_converse(b3 as int, 0x100, 0, b3 as int);
}

/// Reassembling the four little-endian bytes of a word gives the word back.
pub proof fn lemma_word_reassemble(x: u32)
    ensures
        le_word(word_byte(x, 0), word_byte(x, 1), word_byte(x, 2), word_byte(x, 3)) == x,
{
    let xi = x as int;
    lemma_fundamental_div_mod(xi, 0x100);
    lemma_fundamental_div_mod(xi / 0x100, 0x100);
    lemma_fundamental_div_mod(xi / 0x10000, 0x100);
    lemma_div_denominator(xi, 0x100, 0x100);
    lemma_div_denominator(xi, 0x10000, 0x100);
    lemma_fundamental_div_mod_converse(xi / 0x1000000, 0x100, 0, xi / 0x1000000);
}

/// The 32-bit word stored little-endian as the four bytes `b0..b3`,
/// computed executably.
fn word_of_bytes(b0: u8, b1: u8, b2: u8, b3: u8) -> (r: u32)
    ensures
        r == le_word(b0, b1, b2, b3),
{
    b0 as u32 + b1 as u32 * 0x100 + b2 as u32 * 0x10000 + b3 as u32 * 0x1000000
}

/// Decode a raw byte buffer into its interleaved complex samples.
/// Fails exactly when the byte count is not a multiple of eight.
pub fn decode_samples(bytes: &Vec<u8>) -> (r: Option<Vec<ComplexSample>>)
    ensures
        r is Some <==> bytes@.len() % 8 == 0,
        r matches Some(v) ==> v@ == samples_of_bytes(bytes@),
{
    if bytes.len() % 8 != 0 {
        return None;
    }
    let n = bytes.len() / 8;
    proof {
        lemma_fundamental_div_mod(bytes@.len() as int, 8);
    }
    let mut out: Vec<ComplexSample> = Vec::new();
    let mut k: usize = 0;
    while k < n
        invariant
            n == bytes@.len() / 8,
            8 * n == bytes@.len(),
            bytes@.len() <= usize::MAX,
            bytes@.len() % 8 == 0,
            k <= n,
            out@.len() == k,
            forall|j: int| 0 <= j < k ==> out@[j] == sample_at(bytes@, j),
        decreases n - k,
    {
        let base = 8 * k;
        let re = word_of_bytes(bytes[base], bytes[base + 1], bytes[base + 2], bytes[base + 3]);
        let im = word_of_bytes(
            bytes[base + 4],
            bytes[base + 5],
            bytes[base + 6],
            bytes[base + 7],
        );
        out.push(ComplexSample { re_bits: re, im_bits: im });
        k = k + 1;
    }
    proof {
        assert(out@ =~= samples_of_bytes(bytes@));
    }
    Some(out)
}

/// Encode interleaved complex samples back into their raw byte buffer.
pub fn encode_samples(samples: &Vec<ComplexSample>) -> (r: Vec<u8>)
    ensures
        r@ == bytes_of_samples(samples@),
{
    let mut out: Vec<u8> = Vec::new();
    let mut i: usize = 0;
    while i < samples.len()
        invariant
            i <= samples@.len(),
            out@.len() == 8 * i,
            forall|j: int| 0 <= j < out@.len() ==> out@[j] == sample_byte(samples@[j / 8], j % 8),
        decreases samples@.len() - i,
    {
        let s = samples[i];
        out.push((s.re_bits % 0x100) as u8);
        out.push((s.re_bits / 0x100 % 0x100) as u8);
        out.push((s.re_bits / 0x10000 % 0x100) as u8);
        out.push((s.re_bits / 0x1000000 % 0x100) as u8);
        out.push((s.im_bits % 0x100) as u8);
        out.push((s.im_bits / 0x100 % 0x100) as u8);
        out.push((s.im_bits / 0x10000 % 0x100) as u8);
        out.push((s.im_bits / 0x1000000 % 0x100) as u8);
        proof {
            assert forall|j: int| 8 * i <= j < 8 * i + 8 implies out@[j] == sample_byte(
                samples@[j / 8],
                j % 8,
            ) by {
                lemma_fundamental_div_mod_converse(j, 8, i as int, j - 8 * i);
            }
        }
        i = i + 1;
    }
    proof {
        assert(out@ =~= bytes_of_samples(samples@));
    }
    out
}

#[verifier::external_type_specification]
#[verifier::external_body]
pub struct ExDecodeError(base64::DecodeError);

/// What base64's standard engine prints for a byte buffer.
pub uninterp spec fn b64_encode_of(bytes: Seq<u8>) -> Seq<char>;

/// What base64's standard engine reads from a piece of text: the decoded
/// bytes, or nothing where the text is not valid base64.
pub uninterp spec fn b64_decode_of(text: Seq<char>) -> Option<Seq<u8>>;

/// Relies on base64::engine::general_purpose::STANDARD.encode: the RFC 4648
/// standard alphabet with padding. The result depends on the input bytes
/// alone, and the same engine's decode reads the input back out of it.
#[verifier::external_body]
pub(crate) fn b64_encode(bytes: &Vec<u8>) -> (r: String)
    ensures
        r@ == b64_encode_of(bytes@),
        b64_decode_of(r@) == Some(bytes@),
{
    base64::Engine::encode(&base64::engine::general_purpose::STANDARD, bytes.as_slice())
}

/// Relies on base64::engine::general_purpose::STANDARD.decode: it returns
/// the decoded bytes exactly on text that is valid standard base64.
#[verifier::external_body]
pub(crate) fn b64_decode(text: &str) -> (r: Result<Vec<u8>, base64::DecodeError>)
    ensures
        r matches Ok(v) ==> b64_decode_of(text@) == Some(v@),
        r is Err ==> b64_decode_of(text@) is None,
{
    base64::Engine::decode(&base64::engine::general_purpose::STANDARD, text.as_bytes())
}

/// Decoding the encoding of a sample sequence gives the sequence back.
pub proof fn lemma_samples_roundtrip(samples: Seq<ComplexSample>)
    ensures
        samples_of_bytes(bytes_of_samples(samples)) == samples,
{
    let bytes = bytes_of_samples(samples);
    assert(bytes.len() == samples.len() * 8);
    lemma_fundamental_div_mod_converse(bytes.len() as int, 8, samples.len() as int, 0);
    assert forall|k: int| 0 <= k < samples.len() implies sample_at(bytes, k) == samples[k] by {
        assert forall|t: int| 0 <= t < 8 implies bytes[8 * k + t] == sample_byte(samples[k], t) by {
            lemma_fundamental_div_mod_converse(8 * k + t, 8, k, t);
        }
        lemma_word_reassemble(samples[k].re_bits);
        lemma_word_reassemble(samples[k].im_bits);
    }
    assert(samples_of_bytes(bytes) =~= samples);
}

/// Encoding the decoding of a well-sized byte buffer gives the buffer back.
pub proof fn lemma_bytes_roundtrip(bytes: Seq<u8>)
    requires
        bytes.len() % 8 == 0,
    ensures
        bytes_of_samples(samples_of_bytes(bytes)) == bytes,
{
    let samples = samples_of_bytes(bytes);
    lemma_fundamental_div_mod(bytes.len() as int, 8);
    assert forall|i: int| 0 <= i < bytes.len() implies bytes_of_samples(samples)[i] == bytes[i] by {
        let k = i / 8;
        let t = i % 8;
        lemma_fundamental_div_mod(i, 8);
        lemma_word_bytes(bytes[8 * k], bytes[8 * k + 1], bytes[8 * k + 2], bytes[8 * k + 3]);
        lemma_word_bytes(bytes[8 * k + 4], bytes[8 * k + 5], bytes[8 * k + 6], bytes[8 * k + 7]);
    }
    assert(bytes_of_samples(samples) =~= bytes);
}

} // verus!
