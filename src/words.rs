//! Little-endian framing of 32-bit SPIR-V words as bytes, and back.
use vstd::prelude::*;

verus! {

/// The SPIR-V magic number, the first word of every module.
pub const SPIRV_MAGIC: u32 = 0x0723_0203;

/// Byte `k` (0 = least significant) of the word `w`.
pub open spec fn byte_at(w: u32, k: int) -> u8 {
    if k == 0 {
        (w & 0xff) as u8
    } else if k == 1 {
        ((w >> 8u32) & 0xff) as u8
    } else if k == 2 {
        ((w >> 16u32) & 0xff) as u8
    } else {
        ((w >> 24u32) & 0xff) as u8
    }
}

/// The word whose little-endian bytes are `b0, b1, b2, b3`.
pub open spec fn word_of(b0: u8, b1: u8, b2: u8, b3: u8) -> u32 {
    (b0 as u32) | ((b1 as u32) << 8u32) | ((b2 as u32) << 16u32) | ((b3 as u32) << 24u32)
}

/// Each word of `ws` as four little-endian bytes, in order.
pub open spec fn bytes_of_words(ws: Seq<u32>) -> Seq<u8> {
    Seq::new(4 * ws.len(), |i: int| byte_at(ws[i / 4], i % 4))
}

/// The words read from `bs`, four little-endian bytes each; trailing bytes
/// that do not fill a word are not read.
pub open spec fn words_of_bytes(bs: Seq<u8>) -> Seq<u32> {
    Seq::new(bs.len() / 4, |i: int| word_of(bs[4 * i], bs[4 * i + 1], bs[4 * i + 2], bs[4 * i + 3]))
}

/// A SPIR-V word stream that opens with its five header words, the magic
/// number first.
pub open spec fn has_spirv_header(ws: Seq<u32>) -> bool {
    ws.len() >= 5 && ws[0] == SPIRV_MAGIC
}

/// The four little-endian bytes of the SPIR-V magic number.
pub open spec fn magic_bytes() -> Seq<u8> {
    seq![0x03u8, 0x02u8, 0x23u8, 0x07u8]
}

/// A byte stream framed as a SPIR-V module: whole words, and the magic
/// number first.
pub open spec fn is_spirv_framed(bs: Seq<u8>) -> bool {
    &&& bs.len() % 4 == 0
    &&& bs.len() >= 4
    &&& bs.subrange(0, 4) == magic_bytes()
}

proof fn lemma_word_bytes_round_trip(w: u32)
    ensures
        word_of(byte_at(w, 0), byte_at(w, 1), byte_at(w, 2), byte_at(w, 3)) == w,
{
    assert(((w & 0xff) as u8 as u32) | ((((w >> 8u32) & 0xff) as u8 as u32) << 8u32) | ((((w
        >> 16u32) & 0xff) as u8 as u32) << 16u32) | ((((w >> 24u32) & 0xff) as u8 as u32)
        << 24u32) == w) by (bit_vector);
}

/// Framing words as bytes loses nothing: the bytes are a whole number of
/// words, and reading them back gives the same words. So the disassembler,
/// given what the SPIR-V backend framed, reads exactly the words that the
/// writer produced.
pub proof fn lemma_words_bytes_round_trip(ws: Seq<u32>)
    ensures
        bytes_of_words(ws).len() % 4 == 0,
        words_of_bytes(bytes_of_words(ws)) == ws,
{
    let bs = bytes_of_words(ws);
    assert(bs.len() / 4 == ws.len() && bs.len() % 4 == 0);
    assert forall|i: int| 0 <= i < ws.len() implies #[trigger] words_of_bytes(bs)[i] == ws[i] by {
        assert((4 * i) / 4 == i && (4 * i) % 4 == 0);
        assert((4 * i + 1) / 4 == i && (4 * i + 1) % 4 == 1);
        assert((4 * i + 2) / 4 == i && (4 * i + 2) % 4 == 2);
        assert((4 * i + 3) / 4 == i && (4 * i + 3) % 4 == 3);
        lemma_word_bytes_round_trip(ws[i]);
    }
    assert(words_of_bytes(bs) =~= ws);
}

/// Words that start with the magic number frame as a SPIR-V byte stream:
/// a whole number of words, whose first four bytes are `03 02 23 07`.
pub proof fn lemma_magic_framing(ws: Seq<u32>)
    requires
        ws.len() >= 1,
        ws[0] == SPIRV_MAGIC,
    ensures
        is_spirv_framed(bytes_of_words(ws)),
{
    let bs = bytes_of_words(ws);
    assert((0x0723_0203u32 & 0xff) as u8 == 0x03u8) by (bit_vector);
    assert(((0x0723_0203u32 >> 8u32) & 0xff) as u8 == 0x02u8) by (bit_vector);
    assert(((0x0723_0203u32 >> 16u32) & 0xff) as u8 == 0x23u8) by (bit_vector);
    assert(((0x0723_0203u32 >> 24u32) & 0xff) as u8 == 0x07u8) by (bit_vector);
    assert(bs[0] == byte_at(ws[0], 0));
    assert(bs[1] == byte_at(ws[0], 1));
    assert(bs[2] == byte_at(ws[0], 2));
    assert(bs[3] == byte_at(ws[0], 3));
    assert(bs.subrange(0, 4) =~= magic_bytes());
}

/// Frames each word as four little-endian bytes.
pub fn words_to_bytes(words: &[u32]) -> (r: Vec<u8>)
    ensures
        r@ == bytes_of_words(words@),
{
    let mut r: Vec<u8> = Vec::new();
    let mut i: usize = 0;
    while i < words.len()
        invariant
            i <= words@.len(),
            r@ == bytes_of_words(words@.subrange(0, i as int)),
        decreases words@.len() - i,
    {
        let w = words[i];
        r.push((w & 0xff) as u8);
        r.push(((w >> 8u32) & 0xff) as u8);
        r.push(((w >> 16u32) & 0xff) as u8);
        r.push(((w >> 24u32) & 0xff) as u8);
        proof {
            let next = words@.subrange(0, i + 1);
            assert forall|j: int| 0 <= j < 4 * next.len() implies #[trigger] r@[j] == byte_at(
                next[j / 4],
                j % 4,
            ) by {
                if j < 4 * i {
                    assert(next[j / 4] == words@.subrange(0, i as int)[j / 4]);
                } else {
                    assert(j / 4 == i);
                }
            }
            assert(r@ =~= bytes_of_words(next));
        }
        i += 1;
    }
    assert(words@.subrange(0, words@.len() as int) =~= words@);
    r
}

/// Reads little-endian words from `bytes`, four bytes each; trailing bytes
/// that do not fill a word are not read.
pub fn bytes_to_words(bytes: &[u8]) -> (r: Vec<u32>)
    ensures
        r@ == words_of_bytes(bytes@),
{
    let n = bytes.len() / 4;
    let mut r: Vec<u32> = Vec::new();
    let mut i: usize = 0;
    while i < n
        invariant
            n == bytes@.len() / 4,
            i <= n,
            r@ == words_of_bytes(bytes@).subrange(0, i as int),
        decreases n - i,
    {
        let len = bytes.len();
        assert(4 * i + 3 < len) by (nonlinear_arith)
            requires
                i < n,
                n == len / 4,
        ;
        let b0 = bytes[4 * i];
        let b1 = bytes[4 * i + 1];
        let b2 = bytes[4 * i + 2];
        let b3 = bytes[4 * i + 3];
        let w: u32 = (b0 as u32) | ((b1 as u32) << 8u32) | ((b2 as u32) << 16u32) | ((b3 as u32)
            << 24u32);
        r.push(w);
        proof {
            assert(r@ =~= words_of_bytes(bytes@).subrange(0, i + 1));
        }
        i += 1;
    }
    assert(words_of_bytes(bytes@).subrange(0, n as int) =~= words_of_bytes(bytes@));
    r
}

} // verus!
