//! Assembling the lines a peer sends: bytes are gathered up to a newline
//! (a `\r` just before it in the same chunk is dropped), and a line may
//! not grow past [`MAX_LINE_LEN`] bytes.
use vstd::prelude::*;
use vstd::utf8::*;

use crate::llm::sse::from_utf8;

verus! {

/// The longest line a peer may send, in bytes.
pub const MAX_LINE_LEN: usize = 1048576;

/// What one chunk of input did to the line being assembled.
#[derive(Debug, Clone, Copy, PartialEq, Eq, Structural)]
pub enum LineFeed {
    /// No newline yet: read more.
    NeedMore,
    /// The line is complete.
    Line,
    /// The line grew past the limit.
    TooLong,
}

/// The position of the first newline.
pub open spec fn newline_pos(s: Seq<u8>) -> Option<int>
    decreases s.len(),
{
    if s.len() == 0 {
        None
    } else {
        match newline_pos(s.drop_last()) {
            Some(p) => Some(p),
            None => if s.last() == 10u8 {
                Some(s.len() - 1)
            } else {
                None
            },
        }
    }
}

/// The bytes before a newline, without a `\r` that ends them.
pub open spec fn strip_cr(s: Seq<u8>) -> Seq<u8> {
    if s.len() > 0 && s.last() == 13u8 {
        s.drop_last()
    } else {
        s
    }
}

proof fn lemma_newline_found(s: Seq<u8>, p: int)
    requires
        0 <= p < s.len(),
        s[p] == 10u8,
        forall|j: int| 0 <= j < p ==> #[trigger] s[j] != 10u8,
    ensures
        newline_pos(s) == Some(p),
    decreases s.len(),
{
    if p < s.len() - 1 {
        let t = s.drop_last();
        assert forall|j: int| 0 <= j < p implies #[trigger] t[j] != 10u8 by {
            assert(t[j] == s[j]);
        }
        lemma_newline_found(t, p);
    } else {
        lemma_newline_absent(s.drop_last());
    }
}

proof fn lemma_newline_absent(s: Seq<u8>)
    requires
        forall|j: int| 0 <= j < s.len() ==> #[trigger] s[j] != 10u8,
    ensures
        newline_pos(s) is None,
    decreases s.len(),
{
    if s.len() > 0 {
        let t = s.drop_last();
        assert forall|j: int| 0 <= j < t.len() implies #[trigger] t[j] != 10u8 by {
            assert(t[j] == s[j]);
        }
        lemma_newline_absent(t);
    }
}

/// Feeds the bytes the reader has available into the line being
/// assembled.  Gives how many of them were consumed and what happened:
/// up to and including the first newline when there is one, else all.
pub fn feed_line(buf: &mut Vec<u8>, available: &[u8]) -> (r: (usize, LineFeed))
    ensures
        match newline_pos(available@) {
            Some(p) => {
                &&& r.0 == p + 1
                &&& final(buf)@ == old(buf)@ + strip_cr(available@.subrange(0, p))
                &&& r.1 == if final(buf)@.len() > MAX_LINE_LEN {
                    LineFeed::TooLong
                } else {
                    LineFeed::Line
                }
            },
            None => {
                &&& r.0 == available@.len()
                &&& final(buf)@ == old(buf)@ + available@
                &&& r.1 == if final(buf)@.len() > MAX_LINE_LEN {
                    LineFeed::TooLong
                } else {
                    LineFeed::NeedMore
                }
            },
        },
{
    let ghost start = buf@;
    let mut i: usize = 0;
    while i < available.len() && available[i] != 10u8
        invariant
            i <= available@.len(),
            buf@ == start,
            forall|j: int| 0 <= j < i ==> #[trigger] available@[j] != 10u8,
        decreases available@.len() - i,
    {
        i = i + 1;
    }
    let found = i < available.len();
    let end: usize = if found && i > 0 && available[i - 1] == 13u8 { i - 1 } else { i };
    let mut k: usize = 0;
    while k < end
        invariant
            k <= end <= available@.len(),
            buf@ == start + available@.subrange(0, k as int),
        decreases end - k,
    {
        buf.push(available[k]);
        k = k + 1;
        assert(available@.subrange(0, k as int) =~= available@.subrange(0, k - 1).push(available@[k - 1]));
    }
    if found {
        proof {
            lemma_newline_found(available@, i as int);
            assert(strip_cr(available@.subrange(0, i as int)) =~= available@.subrange(0, end as int));
        }
        let kind = if buf.len() > MAX_LINE_LEN { LineFeed::TooLong } else { LineFeed::Line };
        (i + 1, kind)
    } else {
        proof {
            lemma_newline_absent(available@);
            assert(available@.subrange(0, end as int) =~= available@);
        }
        let kind = if buf.len() > MAX_LINE_LEN { LineFeed::TooLong } else { LineFeed::NeedMore };
        (available.len(), kind)
    }
}

/// The text of an assembled line: the bytes decoded as UTF-8, or empty
/// when they are not valid UTF-8.
pub fn line_text(buf: &[u8]) -> (r: String)
    ensures
        valid_utf8(buf@) ==> r@ == decode_utf8(buf@),
        !valid_utf8(buf@) ==> r@.len() == 0,
{
    match from_utf8(buf) {
        Ok(s) => String::from_str(s),
        Err(_) => String::new(),
    }
}

/// At the end of the input: the last line when bytes are left over.
pub fn line_at_end(buf: &[u8]) -> (r: Option<String>)
    ensures
        (r is None) == (buf@.len() == 0),
        r matches Some(t) ==> (valid_utf8(buf@) ==> t@ == decode_utf8(buf@)) && (!valid_utf8(buf@)
            ==> t@.len() == 0),
{
    if buf.len() == 0 {
        None
    } else {
        Some(line_text(buf))
    }
}

} // verus!
