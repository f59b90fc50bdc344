//! Little-endian encoding of 64-bit words, the unit of every block that is
//! exchanged with the driver.
use vstd::prelude::*;

verus! {

/// The eight bytes of `w`, least significant first.
pub open spec fn le_bytes(w: u64) -> Seq<u8> {
    seq![
        w as u8,
        (w >> 8u64) as u8,
        (w >> 16u64) as u8,
        (w >> 24u64) as u8,
        (w >> 32u64) as u8,
        (w >> 40u64) as u8,
        (w >> 48u64) as u8,
        (w >> 56u64) as u8,
    ]
}

/// The word whose bytes, least significant first, are `b0` to `b7`.
pub open spec fn le_word(b0: u8, b1: u8, b2: u8, b3: u8, b4: u8, b5: u8, b6: u8, b7: u8) -> u64 {
    (b0 as u64) | ((b1 as u64) << 8u64) | ((b2 as u64) << 16u64) | ((b3 as u64) << 24u64) | ((
    b4 as u64) << 32u64) | ((b5 as u64) << 40u64) | ((b6 as u64) << 48u64) | ((b7 as u64)
        << 56u64)
}

/// The word stored little-endian at byte offset `off` of `b`.
pub open spec fn word_at(b: Seq<u8>, off: int) -> u64 {
    le_word(b[off], b[off + 1], b[off + 2], b[off + 3], b[off + 4], b[off + 5], b[off + 6], b[off + 7])
}

/// The words of `ws` laid out one after another, eight bytes each.
pub open spec fn words_to_bytes(ws: Seq<u64>) -> Seq<u8> {
    Seq::new((8 * ws.len()) as nat, |i: int| le_bytes(ws[i / 8])[i % 8])
}

/// The words read from consecutive eight-byte slots of `b`.
pub open spec fn bytes_to_words(b: Seq<u8>) -> Seq<u64> {
    Seq::new(b.len() / 8, |k: int| word_at(b, 8 * k))
}

proof fn lemma_word_of_bytes(w: u64)
    by (bit_vector)
    ensures
        le_word(
            w as u8,
            (w >> 8u64) as u8,
            (w >> 16u64) as u8,
            (w >> 24u64) as u8,
            (w >> 32u64) as u8,
            (w >> 40u64) as u8,
            (w >> 48u64) as u8,
            (w >> 56u64) as u8,
        ) == w,
{
}

/// Byte `i` of a word sequence's layout is byte `i % 8` of word `i / 8`.
proof fn lemma_slot(k: int, j: int)
    requires
        0 <= j < 8,
    ensures
        (8 * k + j) / 8 == k,
        (8 * k + j) % 8 == j,
{
    assert((8 * k + j) / 8 == k && (8 * k + j) % 8 == j) by (nonlinear_arith)
        requires
            0 <= j < 8,
    ;
}

/// The eight bytes at slot `k` of a word sequence's layout are that word's bytes.
pub proof fn lemma_words_slot(ws: Seq<u64>, k: int)
    requires
        0 <= k < ws.len(),
    ensures
        words_to_bytes(ws).subrange(8 * k, 8 * k + 8) == le_bytes(ws[k]),
        word_at(words_to_bytes(ws), 8 * k) == ws[k],
{
    let b = words_to_bytes(ws);
    assert forall|j: int| 0 <= j < 8 implies b[8 * k + j] == le_bytes(ws[k])[j] by {
        lemma_slot(k, j);
    }
    assert(b.subrange(8 * k, 8 * k + 8) =~= le_bytes(ws[k]));
    lemma_word_of_bytes(ws[k]);
}

/// Decoding the layout of a word sequence gives the words back.
pub proof fn lemma_words_round_trip(ws: Seq<u64>)
    ensures
        bytes_to_words(words_to_bytes(ws)) == ws,
{
    let b = words_to_bytes(ws);
    assert(b.len() / 8 == ws.len()) by (nonlinear_arith)
        requires
            b.len() == 8 * ws.len(),
    ;
    assert forall|k: int| 0 <= k < ws.len() implies #[trigger] bytes_to_words(b)[k] == ws[k] by {
        lemma_words_slot(ws, k);
    }
    assert(bytes_to_words(b) =~= ws);
}

/// Appending a word appends its eight bytes to the layout.
proof fn lemma_words_push(ws: Seq<u64>, w: u64)
    ensures
        words_to_bytes(ws.push(w)) == words_to_bytes(ws) + le_bytes(w),
{
    let n = ws.len() as int;
    let lhs = words_to_bytes(ws.push(w));
    let rhs = words_to_bytes(ws) + le_bytes(w);
    assert forall|i: int| 0 <= i < 8 * n + 8 implies lhs[i] == rhs[i] by {
        let k = i / 8;
        let j = i % 8;
        assert(i == 8 * k + j && 0 <= j < 8) by (nonlinear_arith)
            requires
                0 <= i,
                k == i / 8,
                j == i % 8,
        ;
        lemma_slot(k, j);
        if i < 8 * n {
            assert(k < n) by (nonlinear_arith)
                requires
                    i == 8 * k + j,
                    0 <= j < 8,
                    i < 8 * n,
            ;
        } else {
            assert(k == n) by (nonlinear_arith)
                requires
                    i == 8 * k + j,
                    0 <= j < 8,
                    8 * n <= i < 8 * n + 8,
            ;
        }
    }
    assert(lhs =~= rhs);
}

/// Appends the eight little-endian bytes of `w` to `out`.
pub fn push_word(out: &mut Vec<u8>, w: u64)
    ensures
        final(out)@ == old(out)@ + le_bytes(w),
{
    out.push(w as u8);
    out.push((w >> 8) as u8);
    out.push((w >> 16) as u8);
    out.push((w >> 24) as u8);
    out.push((w >> 32) as u8);
    out.push((w >> 40) as u8);
    out.push((w >> 48) as u8);
    out.push((w >> 56) as u8);
    assert(out@ =~= old(out)@ + le_bytes(w));
}

/// Reads the little-endian word at byte offset `off` of `b`.
pub fn read_word(b: &[u8], off: usize) -> (r: u64)
    requires
        off + 8 <= b@.len(),
    ensures
        r == word_at(b@, off as int),
{
    (b[off] as u64) | ((b[off + 1] as u64) << 8) | ((b[off + 2] as u64) << 16) | ((b[off + 3]
        as u64) << 24) | ((b[off + 4] as u64) << 32) | ((b[off + 5] as u64) << 40) | ((b[off
        + 6] as u64) << 48) | ((b[off + 7] as u64) << 56)
}

/// Lays the words of `ws` out one after another, eight bytes each.
pub fn encode_words(ws: &[u64]) -> (r: Vec<u8>)
    requires
        8 * ws@.len() <= usize::MAX,
    ensures
        r@ == words_to_bytes(ws@),
{
    let mut out: Vec<u8> = Vec::new();
    let mut i: usize = 0;
    while i < ws.len()
        invariant
            i <= ws@.len(),
            out@ == words_to_bytes(ws@.take(i as int)),
        decreases ws@.len() - i,
    {
        proof {
            lemma_words_push(ws@.take(i as int), ws@[i as int]);
            assert(ws@.take(i as int).push(ws@[i as int]) =~= ws@.take(i + 1));
        }
        push_word(&mut out, ws[i]);
        i = i + 1;
    }
    assert(ws@.take(i as int) =~= ws@);
    out
}

/// Reads consecutive eight-byte slots of `b` as words.
pub fn decode_words(b: &[u8]) -> (r: Vec<u64>)
    requires
        b@.len() % 8 == 0,
    ensures
        r@ == bytes_to_words(b@),
{
    let len: usize = b.len();
    let n: usize = len / 8;
    let mut out: Vec<u64> = Vec::new();
    let mut k: usize = 0;
    while k < n
        invariant
            len == b@.len(),
            n == len / 8,
            len % 8 == 0,
            k <= n,
            out@ == bytes_to_words(b@).take(k as int),
        decreases n - k,
    {
        assert(8 * k + 8 <= b@.len()) by (nonlinear_arith)
            requires
                k < n,
                n == len / 8,
                len % 8 == 0,
                len == b@.len(),
        ;
        let w = read_word(b, 8 * k);
        out.push(w);
        k = k + 1;
        assert(out@ =~= bytes_to_words(b@).take(k as int));
    }
    assert(out@ =~= bytes_to_words(b@));
    out
}

} // verus!
