//! Packing of the gathered matrices into the std140 uniform-buffer layout.
//!
//! A 4x4 float matrix in the std140 layout is four four-float columns, each
//! column aligned to 16 bytes; since a column is exactly 16 bytes, the
//! matrix is 16 consecutive 32-bit words with no padding. [`ViewArgs`] packs
//! the projection matrix followed by the view matrix: 32 words, 128 bytes,
//! with the view matrix starting at byte offset 64. Words are serialized
//! little-endian.

use vstd::prelude::*;

use crate::mat::{Mat4, Vec4};

verus! {

/// The per-frame uniform data: the projection matrix and the view matrix,
/// in the order they are laid out in the uniform buffer.
#[derive(Clone, Copy, PartialEq, Eq, Structural, Debug)]
pub struct ViewArgs {
    pub proj: Mat4,
    pub view: Mat4,
}

/// The four words of one matrix column, in component order.
pub open spec fn column_words(c: Vec4) -> Seq<u32> {
    seq![c.x, c.y, c.z, c.w]
}

/// The 16 words of one matrix: its columns in order.
pub open spec fn mat4_words(m: Mat4) -> Seq<u32> {
    column_words(m.c0) + column_words(m.c1) + column_words(m.c2) + column_words(m.c3)
}

/// The 32 words of the packed uniform data: projection then view.
pub open spec fn view_args_words(v: ViewArgs) -> Seq<u32> {
    mat4_words(v.proj) + mat4_words(v.view)
}

/// The four little-endian bytes of one 32-bit word.
pub open spec fn word_le_bytes(w: u32) -> Seq<u8> {
    seq![
        (w % 256) as u8,
        ((w / 256) % 256) as u8,
        ((w / 65536) % 256) as u8,
        ((w / 16777216) % 256) as u8,
    ]
}

/// The little-endian bytes of a sequence of words.
pub open spec fn words_le_bytes(ws: Seq<u32>) -> Seq<u8>
    decreases ws.len(),
{
    if ws.len() == 0 {
        Seq::empty()
    } else {
        word_le_bytes(ws[0]) + words_le_bytes(ws.skip(1))
    }
}

/// Serializing words to bytes distributes over concatenation.
pub proof fn lemma_words_le_bytes_concat(a: Seq<u32>, b: Seq<u32>)
    ensures
        words_le_bytes(a + b) == words_le_bytes(a) + words_le_bytes(b),
    decreases a.len(),
{
    if a.len() == 0 {
        assert(a + b =~= b);
        assert(words_le_bytes(a) + words_le_bytes(b) =~= words_le_bytes(b));
    } else {
        lemma_words_le_bytes_concat(a.skip(1), b);
        assert((a + b)[0] == a[0]);
        assert((a + b).skip(1) =~= a.skip(1) + b);
        assert(words_le_bytes(a + b) =~= words_le_bytes(a) + words_le_bytes(b));
    }
}

/// Each word contributes exactly four bytes.
pub proof fn lemma_words_le_bytes_len(ws: Seq<u32>)
    ensures
        words_le_bytes(ws).len() == 4 * ws.len(),
    decreases ws.len(),
{
    if ws.len() > 0 {
        lemma_words_le_bytes_len(ws.skip(1));
    }
}

/// Appending one word appends its four bytes.
pub proof fn lemma_words_le_bytes_push(ws: Seq<u32>, w: u32)
    ensures
        words_le_bytes(ws.push(w)) == words_le_bytes(ws) + word_le_bytes(w),
{
    assert(ws.push(w) =~= ws + seq![w]);
    lemma_words_le_bytes_concat(ws, seq![w]);
    let s = seq![w];
    assert(s[0] == w);
    assert(s.skip(1) =~= Seq::<u32>::empty());
    assert(words_le_bytes(Seq::<u32>::empty()) =~= Seq::<u8>::empty());
    assert(words_le_bytes(s) =~= word_le_bytes(w) + Seq::<u8>::empty());
    assert(word_le_bytes(w) + Seq::<u8>::empty() =~= word_le_bytes(w));
}

impl ViewArgs {
    /// The packed uniform data as 32-bit words: the 16 words of the
    /// projection matrix followed by the 16 words of the view matrix.
    pub fn std140_words(&self) -> (ws: Vec<u32>)
        ensures
            ws@ == view_args_words(*self),
    {
        let mut ws: Vec<u32> = Vec::new();
        push_mat4_words(&mut ws, &self.proj);
        push_mat4_words(&mut ws, &self.view);
        proof {
            assert(ws@ =~= view_args_words(*self));
        }
        ws
    }

    /// The packed uniform data as little-endian bytes, ready for upload:
    /// 128 bytes, the projection matrix at offset 0 and the view matrix at
    /// offset 64, each four-float column on a 16-byte boundary.
    pub fn std140_bytes(&self) -> (bs: Vec<u8>)
        ensures
            bs@ == words_le_bytes(view_args_words(*self)),
            bs@.len() == 128,
    {
        let ws = self.std140_words();
        let n = ws.len();
        let mut bs: Vec<u8> = Vec::new();
        let mut i: usize = 0;
        while i < n
            invariant
                n == ws@.len(),
                0 <= i <= n,
                bs@ == words_le_bytes(ws@.take(i as int)),
            decreases n - i,
        {
            let w = ws[i];
            bs.push((w % 256) as u8);
            bs.push(((w / 256) % 256) as u8);
            bs.push(((w / 65536) % 256) as u8);
            bs.push(((w / 16777216) % 256) as u8);
            proof {
                lemma_words_le_bytes_push(ws@.take(i as int), w);
                assert(ws@.take(i as int).push(w) =~= ws@.take(i + 1 as int));
                assert(bs@ =~= words_le_bytes(ws@.take(i + 1 as int)));
            }
            i = i + 1;
        }
        proof {
            assert(ws@.take(n as int) =~= ws@);
            lemma_words_le_bytes_len(ws@);
        }
        bs
    }
}

/// Append the 16 words of one matrix to the word list.
fn push_mat4_words(ws: &mut Vec<u32>, m: &Mat4)
    ensures
        final(ws)@ == old(ws)@ + mat4_words(*m),
{
    push_column_words(ws, &m.c0);
    push_column_words(ws, &m.c1);
    push_column_words(ws, &m.c2);
    push_column_words(ws, &m.c3);
    proof {
        assert(ws@ =~= old(ws)@ + mat4_words(*m));
    }
}

/// Append the four words of one column to the word list.
fn push_column_words(ws: &mut Vec<u32>, c: &Vec4)
    ensures
        final(ws)@ == old(ws)@ + column_words(*c),
{
    ws.push(c.x);
    ws.push(c.y);
    ws.push(c.z);
    ws.push(c.w);
    proof {
        assert(ws@ =~= old(ws)@ + column_words(*c));
    }
}

/// Each four-float group of the packed uniform data begins on a 16-byte
/// boundary: group `g` of the 32 words (words `4g` to `4g + 3`) occupies
/// exactly the bytes `16g` to `16g + 15`. Groups 0 to 3 are the projection
/// matrix's columns, so it starts at byte 0; groups 4 to 7 are the view
/// matrix's columns, so it starts at byte 64.
pub proof fn lemma_std140_group_offsets(v: ViewArgs, g: int)
    requires
        0 <= g < 8,
    ensures
        words_le_bytes(view_args_words(v)).len() == 128,
        words_le_bytes(view_args_words(v)).subrange(16 * g, 16 * g + 16)
            == words_le_bytes(view_args_words(v).subrange(4 * g, 4 * g + 4)),
{
    let ws = view_args_words(v);
    assert(ws.len() == 32);
    lemma_words_le_bytes_len(ws);
    let front = ws.subrange(0, 4 * g);
    let group = ws.subrange(4 * g, 4 * g + 4);
    let back = ws.subrange(4 * g + 4, 32);
    assert(ws =~= front + group + back);
    lemma_words_le_bytes_concat(front + group, back);
    lemma_words_le_bytes_concat(front, group);
    lemma_words_le_bytes_len(front);
    lemma_words_le_bytes_len(group);
    assert(words_le_bytes(ws).subrange(16 * g, 16 * g + 16) =~= words_le_bytes(group));
}

/// The packed data keeps the two matrices whole: the first 64 bytes are the
/// projection matrix's words, the last 64 the view matrix's.
pub proof fn lemma_std140_matrix_offsets(v: ViewArgs)
    ensures
        words_le_bytes(view_args_words(v)).subrange(0, 64)
            == words_le_bytes(mat4_words(v.proj)),
        words_le_bytes(view_args_words(v)).subrange(64, 128)
            == words_le_bytes(mat4_words(v.view)),
{
    let ws = view_args_words(v);
    lemma_words_le_bytes_concat(mat4_words(v.proj), mat4_words(v.view));
    lemma_words_le_bytes_len(mat4_words(v.proj));
    lemma_words_le_bytes_len(mat4_words(v.view));
    lemma_words_le_bytes_len(ws);
    assert(words_le_bytes(ws).subrange(0, 64) =~= words_le_bytes(mat4_words(v.proj)));
    assert(words_le_bytes(ws).subrange(64, 128) =~= words_le_bytes(mat4_words(v.view)));
}

} // verus!
