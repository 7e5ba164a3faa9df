//! An immutable-length text line with a clipped, byte-range-safe substring
//! view for display.

use vstd::prelude::*;
use vstd::string::StringSliceAdditionalSpecFns;
use vstd::utf8::*;

verus! {

/// What `render` returns, stated over the UTF-8 encoding of the text:
/// `end` is capped to the byte length, `start` is capped to the capped `end`,
/// and if either capped offset falls inside a multi-byte character the result
/// degrades to the empty string instead of failing.
pub open spec fn render_spec(text: Seq<char>, start: int, end: int) -> Seq<char> {
    let bytes = encode_utf8(text);
    let e = if end < bytes.len() { end } else { bytes.len() as int };
    let s = if start < e { start } else { e };
    if is_char_boundary(bytes, s) && is_char_boundary(bytes, e) {
        decode_utf8(bytes.subrange(s, e))
    } else {
        Seq::<char>::empty()
    }
}

/// A byte offset that is a character boundary of `bytes` is still a
/// character boundary after the prefix up to boundary `s` is cut off.
proof fn lemma_boundary_in_suffix(bytes: Seq<u8>, s: int, e: int)
    requires
        valid_utf8(bytes),
        0 <= s <= e <= bytes.len(),
        is_char_boundary(bytes, s),
        is_char_boundary(bytes, e),
    ensures
        valid_utf8(bytes.subrange(s, bytes.len() as int)),
        is_char_boundary(bytes.subrange(s, bytes.len() as int), e - s),
{
    let tail = bytes.subrange(s, bytes.len() as int);
    valid_utf8_split(bytes, s);
    if e == bytes.len() {
        is_char_boundary_start_end_of_seq(tail);
    } else if e == s {
        is_char_boundary_start_end_of_seq(tail);
    } else {
        is_char_boundary_iff_not_is_continuation_byte(bytes, e);
        assert(tail[e - s] == bytes[e]);
        is_char_boundary_iff_not_is_continuation_byte(tail, e - s);
    }
}

/// Whatever byte range is requested, the rendered text is a contiguous run
/// of the row's own characters, or empty.
pub proof fn lemma_render_substring(text: Seq<char>, start: int, end: int)
    ensures
        exists|i: int, j: int|
            0 <= i <= j <= text.len() && render_spec(text, start, end) == text.subrange(i, j),
{
    broadcast use vstd::utf8::encode_utf8_valid_utf8;
    broadcast use vstd::utf8::encode_utf8_decode_utf8;

    let bytes = encode_utf8(text);
    let e = if end < bytes.len() { end } else { bytes.len() as int };
    let s = if start < e { start } else { e };
    if is_char_boundary(bytes, s) && is_char_boundary(bytes, e) {
        lemma_boundary_in_suffix(bytes, s, e);
        let tail = bytes.subrange(s, bytes.len() as int);
        decode_utf8_split(bytes, s);
        decode_utf8_split(tail, e - s);
        assert(tail.subrange(0, e - s) =~= bytes.subrange(s, e));
        assert(tail.subrange(e - s, tail.len() as int) =~= bytes.subrange(e, bytes.len() as int));
        let a = decode_utf8(bytes.subrange(0, s));
        let r = decode_utf8(bytes.subrange(s, e));
        let b = decode_utf8(bytes.subrange(e, bytes.len() as int));
        assert(text =~= a + r + b);
        let i = a.len() as int;
        let j = i + r.len();
        assert(text.subrange(i, j) =~= r);
        assert(render_spec(text, start, end) == text.subrange(i, j));
    } else {
        assert(render_spec(text, start, end) == text.subrange(0, 0)) by {
            assert(text.subrange(0, 0) =~= Seq::<char>::empty());
        }
    }
}

/// One line of text. `len` caches the byte length of `string` and is kept
/// equal to it by every operation that touches the text.
pub struct Row {
    string: String,
    len: usize,
}

impl View for Row {
    type V = Seq<char>;

    closed spec fn view(&self) -> Seq<char> {
        self.string@
    }
}

impl Row {
    /// The cached byte length agrees with the text.
    pub closed spec fn wf(&self) -> bool {
        self.len == encode_utf8(self.string@).len()
    }

    pub fn from(slice: &str) -> (row: Row)
        ensures
            row@ == slice@,
            row.wf(),
    {
        let mut row = Row { string: slice.to_owned(), len: 0 };
        row.update_len();
        row
    }

    fn update_len(&mut self)
        ensures
            final(self)@ == old(self)@,
            final(self).wf(),
    {
        proof {
            broadcast use vstd::utf8::encode_utf8_valid_utf8;
        }
        self.len = self.string.as_str().as_bytes().len();
    }

    /// The byte length of the text (not its display width).
    pub fn len(&self) -> (n: usize)
        ensures
            n == encode_utf8(self@).len(),
    {
        self.string.as_str().as_bytes().len()
    }

    /// The substring between byte offsets `start` and `end`, clamped to the
    /// text and degraded to `""` when the range splits a multi-byte
    /// character.
    pub fn render(&self, start: usize, end: usize) -> (r: String)
        ensures
            r@ == render_spec(self@, start as int, end as int),
    {
        broadcast use vstd::utf8::encode_utf8_valid_utf8;
        broadcast use vstd::utf8::encode_utf8_decode_utf8;

        let text = self.string.as_str();
        let n = text.as_bytes().len();
        let e = if end < n { end } else { n };
        let s = if start < e { start } else { e };
        if text.is_char_boundary(s) && text.is_char_boundary(e) {
            proof {
                lemma_boundary_in_suffix(text.spec_bytes(), s as int, e as int);
            }
            let (_, tail) = text.split_at(s);
            let (mid, _) = tail.split_at(e - s);
            proof {
                assert(mid.spec_bytes() =~= text.spec_bytes().subrange(s as int, e as int));
            }
            mid.to_owned()
        } else {
            String::new()
        }
    }

    pub fn is_empty(&self) -> (empty: bool)
        ensures
            empty == (self@.len() == 0),
    {
        self.string.as_str().is_empty()
    }
}

} // verus!
