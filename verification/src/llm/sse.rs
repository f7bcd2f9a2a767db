//! Byte-level incremental decoder for Server-Sent Events.
//!
//! A line ends at `\n`, `\r` or `\r\n`; an empty line dispatches the
//! accumulated event; lines starting with `:` are comments; other lines
//! are `field: value` pairs, and the `data` values of one event are joined
//! with `\n`.  Decoding works on raw bytes, so a chunk boundary may split
//! a `\r\n` (it still ends one line) or
//! a multi-byte UTF-8 sequence; each complete line must be valid UTF-8.
use std::collections::VecDeque;

use vstd::prelude::*;
use vstd::utf8::*;

use crate::error::ProviderError;
use crate::text::{
    chars_of, lead_ws, push_char, push_str, slice_range, str_eq, string_of, trim,
    trim_bounds, trim_start,
};

verus! {

/// `std::str::Utf8Error`, carried through opaquely.
#[verifier::external_type_specification]
#[verifier::external_body]
pub struct ExUtf8Error(std::str::Utf8Error);

/// Decodes a byte slice as UTF-8; wraps `std::str::from_utf8`.
#[verifier::external_body]
pub(crate) fn from_utf8(bytes: &[u8]) -> (r: Result<&str, std::str::Utf8Error>)
    ensures
        r is Ok <==> valid_utf8(bytes@),
        r matches Ok(s) ==> s@ == decode_utf8(bytes@),
{
    std::str::from_utf8(bytes)
}

/// The `Display` text of the error `std::str::from_utf8` gives for bytes
/// that are not UTF-8.
pub uninterp spec fn utf8_error(bytes: Seq<u8>) -> Seq<char>;

/// The text of the error `std::str::from_utf8` gives for `bytes`
/// (`Utf8Error`'s `Display`); `bytes` are not valid UTF-8.
#[verifier::external_body]
fn utf8_error_text(bytes: &[u8]) -> (r: String)
    requires
        !valid_utf8(bytes@),
    ensures
        r@ == utf8_error(bytes@),
{
    match std::str::from_utf8(bytes) {
        Ok(_) => String::new(),
        Err(e) => e.to_string(),
    }
}

/// The bytes of the first line of `buf`, up to its terminator.
pub open spec fn first_line(buf: Seq<u8>) -> Seq<u8> {
    buf.subrange(0, term_pos(buf) as int)
}

/// One decoded event.
#[derive(Debug, Clone)]
pub struct SseEvent {
    /// The combined `data:` payload (multiple lines joined with `\n`).
    pub data: Option<String>,
    /// The `event:` field, when present.
    pub event_type: Option<String>,
}

/// The content of an event: its data and its event type.
pub type EventV = (Option<Seq<char>>, Option<Seq<char>>);

/// A `(field, value)` line of the event being accumulated.
pub type LineV = (Seq<char>, Seq<char>);

pub open spec fn ev_view(e: SseEvent) -> EventV {
    (
        match e.data {
            Some(d) => Some(d@),
            None => None,
        },
        match e.event_type {
            Some(t) => Some(t@),
            None => None,
        },
    )
}

/// Line terminator bytes.
pub open spec fn is_term(b: u8) -> bool {
    b == 10 || b == 13
}

/// Position of the first terminator byte, or the length when there is none.
pub open spec fn term_pos(buf: Seq<u8>) -> nat
    decreases buf.len(),
{
    if buf.len() == 0 || is_term(buf[0]) {
        0
    } else {
        1 + term_pos(buf.drop_first())
    }
}

/// Length of the terminator at `p`: two for `\r\n`, one otherwise.
pub open spec fn term_len(buf: Seq<u8>, p: int) -> int {
    if buf[p] == 13 && p + 1 < buf.len() && buf[p + 1] == 10 {
        2
    } else {
        1
    }
}

/// Position of the first `c` in `s`, or the length when there is none.
pub open spec fn char_pos(s: Seq<char>, c: char) -> nat
    decreases s.len(),
{
    if s.len() == 0 || s[0] == c {
        0
    } else {
        1 + char_pos(s.drop_first(), c)
    }
}

/// Lines joined with `\n`.
pub open spec fn join_lines(parts: Seq<Seq<char>>) -> Seq<char>
    decreases parts.len(),
{
    if parts.len() == 0 {
        seq![]
    } else if parts.len() == 1 {
        parts[0]
    } else {
        join_lines(parts.drop_last()) + seq!['\n'] + parts.last()
    }
}

/// The values of the `data` lines, in order.
pub open spec fn data_values(cur: Seq<LineV>) -> Seq<Seq<char>>
    decreases cur.len(),
{
    if cur.len() == 0 {
        seq![]
    } else if cur.last().0 == "data"@ {
        data_values(cur.drop_last()).push(cur.last().1)
    } else {
        data_values(cur.drop_last())
    }
}

/// The value of the last `event` line.
pub open spec fn last_event(cur: Seq<LineV>) -> Option<Seq<char>>
    decreases cur.len(),
{
    if cur.len() == 0 {
        None
    } else if cur.last().0 == "event"@ {
        Some(cur.last().1)
    } else {
        last_event(cur.drop_last())
    }
}

/// The event built from accumulated lines.
pub open spec fn event_of(cur: Seq<LineV>) -> EventV {
    let parts = data_values(cur);
    (if parts.len() == 0 { None } else { Some(join_lines(parts)) }, last_event(cur))
}

/// Ends the current event: it becomes ready unless no line was seen.
pub open spec fn flush(cur: Seq<LineV>, ready: Seq<EventV>) -> (Seq<LineV>, Seq<EventV>) {
    if cur.len() == 0 {
        (cur, ready)
    } else {
        (seq![], ready.push(event_of(cur)))
    }
}

/// The effect of one decoded line.
pub open spec fn dispatch(line: Seq<char>, cur: Seq<LineV>, ready: Seq<EventV>) -> (
    Seq<LineV>,
    Seq<EventV>,
) {
    let t = trim(line);
    if t.len() == 0 {
        flush(cur, ready)
    } else if t[0] == ':' {
        (cur, ready)
    } else if char_pos(t, ':') < t.len() {
        let col = char_pos(t, ':') as int;
        (cur.push((trim(t.subrange(0, col)), trim_start(t.subrange(col + 1, t.len() as int)))), ready)
    } else {
        (cur, ready)
    }
}

/// Consumes every complete line of `buf`.  `cr` says that the bytes
/// consumed before ended a line with a `\r` and nothing has come after
/// it: a `\n` that comes next belongs to that `\r\n` and is skipped.
/// The result holds the bytes left over, the new state, whether every line
/// decoded, and the new `cr`; decoding stops at the first invalid line,
/// which stays in the buffer.
pub open spec fn scan(buf: Seq<u8>, cur: Seq<LineV>, ready: Seq<EventV>, cr: bool) -> (
    Seq<u8>,
    Seq<LineV>,
    Seq<EventV>,
    bool,
    bool,
)
    decreases buf.len(), if cr { 1int } else { 0int },
{
    if cr {
        if buf.len() == 0 {
            (buf, cur, ready, true, true)
        } else if buf[0] == 10 {
            scan(buf.drop_first(), cur, ready, false)
        } else {
            scan(buf, cur, ready, false)
        }
    } else {
        let p = term_pos(buf) as int;
        if p >= buf.len() {
            (buf, cur, ready, true, false)
        } else if !valid_utf8(buf.subrange(0, p)) {
            (buf, cur, ready, false, false)
        } else {
            let (c2, r2) = dispatch(decode_utf8(buf.subrange(0, p)), cur, ready);
            scan(
                buf.subrange(p + term_len(buf, p), buf.len() as int),
                c2,
                r2,
                ends_in_cr(buf, p),
            )
        }
    }
}

/// Whether the terminator at `p` is a `\r` that is the last byte.
pub open spec fn ends_in_cr(buf: Seq<u8>, p: int) -> bool {
    buf[p] == 13 && p + 1 == buf.len()
}

proof fn lemma_term_pos_append(b: Seq<u8>, c: Seq<u8>)
    requires
        term_pos(b) < b.len(),
    ensures
        term_pos(b + c) == term_pos(b),
    decreases b.len(),
{
    if !is_term(b[0]) {
        assert((b + c).drop_first() =~= b.drop_first() + c);
        lemma_term_pos_append(b.drop_first(), c);
    }
}

proof fn lemma_term_pos_bound(b: Seq<u8>)
    ensures
        term_pos(b) <= b.len(),
        term_pos(b) < b.len() ==> is_term(b[term_pos(b) as int]),
    decreases b.len(),
{
    if b.len() > 0 && !is_term(b[0]) {
        lemma_term_pos_bound(b.drop_first());
    }
}

/// Scanning bytes in two steps, the leftover of the first step followed
/// by the second chunk, ends where scanning them at once ends, wherever
/// the bytes are split (a `\r\n` split in two included).
pub proof fn lemma_scan_append(b: Seq<u8>, c: Seq<u8>, cur: Seq<LineV>, ready: Seq<EventV>, cr: bool)
    ensures
        ({
            let s = scan(b, cur, ready, cr);
            scan(s.0 + c, s.1, s.2, s.4) == scan(b + c, cur, ready, cr)
        }),
    decreases b.len(), if cr { 1int } else { 0int },
{
    if cr {
        if b.len() == 0 {
            assert(b + c =~= c);
        } else if b[0] == 10 {
            assert((b + c)[0] == 10);
            assert((b + c).drop_first() =~= b.drop_first() + c);
            lemma_scan_append(b.drop_first(), c, cur, ready, false);
        } else {
            assert((b + c)[0] == b[0]);
            assert((b + c).len() > 0);
            lemma_scan_append(b, c, cur, ready, false);
        }
    } else {
        let p = term_pos(b) as int;
        lemma_term_pos_bound(b);
        if p < b.len() {
            lemma_term_pos_append(b, c);
            assert((b + c).subrange(0, p) =~= b.subrange(0, p));
            if valid_utf8(b.subrange(0, p)) {
                let (c2, r2) = dispatch(decode_utf8(b.subrange(0, p)), cur, ready);
                if ends_in_cr(b, p) {
                    let rest = b.subrange(p + 1, b.len() as int);
                    assert(rest =~= Seq::<u8>::empty());
                    assert(term_len(b, p) == 1);
                    assert(scan(b, cur, ready, cr) == scan(rest, c2, r2, true));
                    assert(scan(rest, c2, r2, true) == (rest, c2, r2, true, true));
                    assert(rest + c =~= c);
                    if c.len() == 0 {
                        assert(b + c =~= b);
                    } else if c[0] == 10 {
                        assert((b + c)[p + 1] == 10);
                        assert(term_len(b + c, p) == 2);
                        assert(!ends_in_cr(b + c, p));
                        assert((b + c).subrange(p + 2, (b + c).len() as int) =~= c.drop_first());
                        assert(rest + c =~= c);
                    } else {
                        assert((b + c)[p + 1] == c[0]);
                        assert(term_len(b + c, p) == 1);
                        assert(!ends_in_cr(b + c, p));
                        assert((b + c).subrange(p + 1, (b + c).len() as int) =~= c);
                        assert(rest + c =~= c);
                    }
                } else {
                    let tl = term_len(b, p);
                    assert(term_len(b + c, p) == tl);
                    assert(!ends_in_cr(b + c, p));
                    let rest = b.subrange(p + tl, b.len() as int);
                    assert((b + c).subrange(p + tl, (b + c).len() as int) =~= rest + c);
                    lemma_scan_append(rest, c, c2, r2, false);
                }
            }
        }
    }
}

/// Feeding a decoder two chunks one after the other leaves it as feeding
/// it their concatenation would, wherever the chunks are split.
pub proof fn lemma_chunks_compose(
    buf: Seq<u8>,
    c1: Seq<u8>,
    c2: Seq<u8>,
    cur: Seq<LineV>,
    ready: Seq<EventV>,
    cr: bool,
)
    ensures
        ({
            let s1 = scan(buf + c1, cur, ready, cr);
            let s2 = scan(s1.0 + c2, s1.1, s1.2, s1.4);
            let s = scan(buf + (c1 + c2), cur, ready, cr);
            s2.0 == s.0 && s2.1 == s.1 && s2.2 == s.2 && s2.4 == s.4
        }),
{
    lemma_scan_append(buf + c1, c2, cur, ready, cr);
    assert(buf + c1 + c2 =~= buf + (c1 + c2));
}

/// Byte-level incremental SSE decoder.
pub struct SseDecoder {
    /// Raw bytes waiting to be scanned for complete lines.
    pub byte_buf: Vec<u8>,
    /// Lines accumulated for the current in-flight event.
    current_lines: Vec<(String, String)>,
    /// Completed events that have not been consumed yet.
    ready: VecDeque<SseEvent>,
    /// The last line ended with a `\r` that was the last byte seen.
    pending_cr: bool,
}

pub open spec fn line_view(p: (String, String)) -> LineV {
    (p.0@, p.1@)
}

impl SseDecoder {
    /// Bytes not yet scanned.
    pub closed spec fn buf(&self) -> Seq<u8> {
        self.byte_buf@
    }

    /// Lines of the event in flight.
    pub closed spec fn cur(&self) -> Seq<LineV> {
        self.current_lines@.map_values(|p: (String, String)| line_view(p))
    }

    /// Completed events, oldest first.
    pub closed spec fn ready(&self) -> Seq<EventV> {
        self.ready@.map_values(|e: SseEvent| ev_view(e))
    }

    /// Whether a `\n` fed next completes a `\r\n` already taken as a
    /// line end.
    pub closed spec fn cr(&self) -> bool {
        self.pending_cr
    }

    pub fn new() -> (r: Self)
        ensures
            r.buf() == Seq::<u8>::empty(),
            r.cur() == Seq::<LineV>::empty(),
            r.ready() == Seq::<EventV>::empty(),
            !r.cr(),
    {
        let r = SseDecoder {
            byte_buf: Vec::new(),
            current_lines: Vec::new(),
            ready: VecDeque::new(),
            pending_cr: false,
        };
        assert(r.cur() =~= Seq::<LineV>::empty());
        assert(r.ready() =~= Seq::<EventV>::empty());
        r
    }

    /// Feeds a chunk of raw bytes and decodes every complete line.
    ///
    /// Fails with a parse error when a complete line is not valid UTF-8.
    pub fn push(&mut self, chunk: &[u8]) -> (r: Result<(), ProviderError>)
        ensures
            ({
                let s = scan(old(self).buf() + chunk@, old(self).cur(), old(self).ready(), old(self).cr());
                &&& final(self).buf() == s.0
                &&& final(self).cur() == s.1
                &&& final(self).ready() == s.2
                &&& final(self).cr() == s.4
                &&& (r is Ok <==> s.3)
                &&& (r matches Err(e) ==> e matches ProviderError::Parse(m) && m@
                    == "SSE: invalid UTF-8 in line: "@ + utf8_error(first_line(s.0)))
            }),
    {
        let mut i: usize = 0;
        while i < chunk.len()
            invariant
                i <= chunk@.len(),
                self.byte_buf@ == old(self).byte_buf@ + chunk@.subrange(0, i as int),
                self.cur() == old(self).cur(),
                self.ready() == old(self).ready(),
                self.cr() == old(self).cr(),
            decreases chunk@.len() - i,
        {
            self.byte_buf.push(chunk[i]);
            i = i + 1;
            proof {
                assert(self.byte_buf@ =~= old(self).byte_buf@ + chunk@.subrange(0, i as int));
            }
        }
        assert(chunk@.subrange(0, chunk@.len() as int) =~= chunk@);
        self.scan_lines()
    }

    /// Signals end of stream: leftover bytes are decoded as a final line,
    /// then any pending event is flushed.
    pub fn finish(&mut self) -> (r: Result<(), ProviderError>)
        ensures
            old(self).buf().len() > 0 && !valid_utf8(old(self).buf()) ==> {
                &&& r matches Err(ProviderError::Parse(m)) && m@ == "SSE: invalid UTF-8 in final line: "@
                    + utf8_error(old(self).buf())
                &&& final(self).buf() == old(self).buf()
                &&& final(self).cur() == old(self).cur()
                &&& final(self).ready() == old(self).ready()
            },
            old(self).buf().len() == 0 ==> {
                &&& r is Ok
                &&& !final(self).cr()
                &&& final(self).buf() == Seq::<u8>::empty()
                &&& (final(self).cur(), final(self).ready()) == flush(old(self).cur(), old(self).ready())
            },
            old(self).buf().len() > 0 && valid_utf8(old(self).buf()) ==> {
                let d = dispatch(decode_utf8(old(self).buf()), old(self).cur(), old(self).ready());
                &&& r is Ok
                &&& !final(self).cr()
                &&& final(self).buf() == Seq::<u8>::empty()
                &&& (final(self).cur(), final(self).ready()) == flush(d.0, d.1)
            },
    {
        if self.byte_buf.len() > 0 {
            let line_r = from_utf8(self.byte_buf.as_slice());
            match line_r {
                Ok(line) => {
                    let owned = string_of(chars_of(line).as_slice());
                    self.dispatch_line(owned.as_str());
                    self.byte_buf = Vec::new();
                },
                Err(_) => {
                    let t = utf8_error_text(self.byte_buf.as_slice());
                    let mut m = String::from_str("SSE: invalid UTF-8 in final line: ");
                    push_str(&mut m, t.as_str());
                    return Err(ProviderError::Parse(m));
                },
            }
        }
        self.flush_event();
        self.pending_cr = false;
        Ok(())
    }

    /// Takes the oldest completed event, if any.
    pub fn next_event(&mut self) -> (r: Option<SseEvent>)
        ensures
            final(self).buf() == old(self).buf(),
            final(self).cur() == old(self).cur(),
            final(self).cr() == old(self).cr(),
            old(self).ready().len() == 0 ==> r is None && final(self).ready() == old(self).ready(),
            old(self).ready().len() > 0 ==> r is Some && ev_view(r->0) == old(self).ready()[0]
                && final(self).ready() == old(self).ready().drop_first(),
    {
        let r = self.ready.pop_front();
        proof {
            if old(self).ready@.len() > 0 {
                assert(self.ready() =~= old(self).ready().drop_first());
            }
        }
        r
    }

    fn scan_lines(&mut self) -> (r: Result<(), ProviderError>)
        ensures
            ({
                let s = scan(old(self).buf(), old(self).cur(), old(self).ready(), old(self).cr());
                &&& final(self).buf() == s.0
                &&& final(self).cur() == s.1
                &&& final(self).ready() == s.2
                &&& final(self).cr() == s.4
                &&& (r is Ok <==> s.3)
                &&& (r matches Err(e) ==> e matches ProviderError::Parse(m) && m@
                    == "SSE: invalid UTF-8 in line: "@ + utf8_error(first_line(s.0)))
            }),
    {
        loop
            invariant
                scan(self.buf(), self.cur(), self.ready(), self.cr()) == scan(
                    old(self).buf(),
                    old(self).cur(),
                    old(self).ready(),
                    old(self).cr(),
                ),
            decreases self.byte_buf@.len(), if self.pending_cr { 1int } else { 0int },
        {
            let ghost b = self.buf();
            if self.pending_cr {
                if self.byte_buf.len() == 0 {
                    return Ok(());
                }
                if self.byte_buf[0] == 10 {
                    let n = self.byte_buf.len();
                    self.byte_buf = slice_range(self.byte_buf.as_slice(), 1, n);
                    assert(self.buf() =~= b.drop_first());
                }
                self.pending_cr = false;
                continue;
            }
            let pos = find_term(self.byte_buf.as_slice());
            if pos == self.byte_buf.len() {
                return Ok(());
            }
            let mut skip: usize = 1;
            if self.byte_buf[pos] == 13 && pos + 1 < self.byte_buf.len() && self.byte_buf[pos + 1]
                == 10 {
                skip = 2;
            }
            let at_end_cr = self.byte_buf[pos] == 13 && pos + 1 == self.byte_buf.len();
            let line_bytes = slice_range(self.byte_buf.as_slice(), 0, pos);
            match from_utf8(line_bytes.as_slice()) {
                Ok(line) => {
                    let owned = string_of(chars_of(line).as_slice());
                    self.dispatch_line(owned.as_str());
                },
                Err(_) => {
                    let t = utf8_error_text(line_bytes.as_slice());
                    let mut m = String::from_str("SSE: invalid UTF-8 in line: ");
                    push_str(&mut m, t.as_str());
                    return Err(ProviderError::Parse(m));
                },
            }
            let n = self.byte_buf.len();
            self.byte_buf = slice_range(self.byte_buf.as_slice(), pos + skip, n);
            self.pending_cr = at_end_cr;
            proof {
                assert(self.buf() == b.subrange(pos + term_len(b, pos as int), b.len() as int));
            }
        }
    }

    /// Applies one decoded line to the state.
    fn dispatch_line(&mut self, line: &str)
        ensures
            final(self).buf() == old(self).buf(),
            final(self).cr() == old(self).cr(),
            (final(self).cur(), final(self).ready()) == dispatch(
                line@,
                old(self).cur(),
                old(self).ready(),
            ),
    {
        let chars = chars_of(line);
        let (lo, hi) = trim_bounds(chars.as_slice());
        let t = slice_range(chars.as_slice(), lo, hi);
        if t.len() == 0 {
            self.flush_event();
            return;
        }
        if t[0] == ':' {
            return;
        }
        let col = find_char(t.as_slice(), ':');
        if col < t.len() {
            let f = slice_range(t.as_slice(), 0, col);
            let (flo, fhi) = trim_bounds(f.as_slice());
            let field = string_of(slice_range(f.as_slice(), flo, fhi).as_slice());
            let v = slice_range(t.as_slice(), col + 1, t.len());
            let vlo = lead_count(v.as_slice());
            let value = string_of(slice_range(v.as_slice(), vlo, v.len()).as_slice());
            let ghost before = self.current_lines@;
            self.current_lines.push((field, value));
            proof {
                assert(self.cur() =~= old(self).cur().push(
                    (trim(t@.subrange(0, col as int)), trim_start(t@.subrange(col + 1, t@.len() as int))),
                ));
            }
        }
    }

    /// Ends the event in flight, if any line was accumulated.
    fn flush_event(&mut self)
        ensures
            final(self).buf() == old(self).buf(),
            final(self).cr() == old(self).cr(),
            (final(self).cur(), final(self).ready()) == flush(old(self).cur(), old(self).ready()),
    {
        if self.current_lines.len() == 0 {
            return;
        }
        let mut lines: Vec<(String, String)> = Vec::new();
        std::mem::swap(&mut lines, &mut self.current_lines);
        let ghost cv = lines@.map_values(|p: (String, String)| line_view(p));
        let mut data: String = String::new();
        let mut n_data: usize = 0;
        let mut event_type: Option<String> = None;
        let mut i: usize = 0;
        while i < lines.len()
            invariant
                i <= lines@.len(),
                cv == lines@.map_values(|p: (String, String)| line_view(p)),
                n_data <= i,
                n_data == data_values(cv.subrange(0, i as int)).len(),
                n_data > 0 ==> data@ == join_lines(data_values(cv.subrange(0, i as int))),
                n_data == 0 ==> data@ == Seq::<char>::empty(),
                match event_type {
                    Some(e) => last_event(cv.subrange(0, i as int)) == Some(e@),
                    None => last_event(cv.subrange(0, i as int)) is None,
                },
            decreases lines@.len() - i,
        {
            let ghost pre = cv.subrange(0, i as int);
            let ghost post = cv.subrange(0, i + 1);
            assert(post.drop_last() =~= pre);
            assert(post.last() == line_view(lines@[i as int]));
            proof {
                reveal_strlit("data");
                reveal_strlit("event");
                assert("data"@[0] != "event"@[0]);
            }
            let field = lines[i].0.as_str();
            if str_eq(field, "data") {
                if n_data > 0 {
                    push_char(&mut data, '\n');
                }
                push_str(&mut data, lines[i].1.as_str());
                n_data = n_data + 1;
                proof {
                    let dv = data_values(post);
                    assert(dv == data_values(pre).push(lines@[i as int].1@));
                    assert(dv.drop_last() =~= data_values(pre));
                    if n_data > 1 {
                        assert(data@ =~= join_lines(data_values(pre)) + seq!['\n'] + lines@[i as int].1@);
                    } else {
                        assert(data_values(pre).len() == 0);
                        assert(data@ =~= lines@[i as int].1@);
                    }
                }
            } else if str_eq(field, "event") {
                event_type = Some(lines[i].1.clone());
            }
            i = i + 1;
        }
        assert(cv.subrange(0, lines@.len() as int) =~= cv);
        let ev = SseEvent { data: if n_data == 0 { None } else { Some(data) }, event_type };
        self.ready.push_back(ev);
        proof {
            assert(self.cur() =~= Seq::<LineV>::empty());
            assert(self.ready() =~= old(self).ready().push(event_of(old(self).cur())));
        }
    }
}

/// Index of the first terminator byte, or the length.
fn find_term(buf: &[u8]) -> (r: usize)
    ensures
        r == term_pos(buf@),
        r <= buf@.len(),
{
    let mut i: usize = 0;
    while i < buf.len() && buf[i] != 10 && buf[i] != 13
        invariant
            i <= buf@.len(),
            forall|j: int| 0 <= j < i ==> !is_term(#[trigger] buf@[j]),
        decreases buf@.len() - i,
    {
        i = i + 1;
    }
    proof {
        lemma_term_pos(buf@, i as int);
    }
    i
}

proof fn lemma_term_pos(s: Seq<u8>, i: int)
    requires
        0 <= i <= s.len(),
        forall|j: int| 0 <= j < i ==> !is_term(#[trigger] s[j]),
        i == s.len() || is_term(s[i]),
    ensures
        term_pos(s) == i,
    decreases i,
{
    if i > 0 {
        let t = s.drop_first();
        assert forall|j: int| 0 <= j < i - 1 implies !is_term(#[trigger] t[j]) by {
            assert(t[j] == s[j + 1]);
        }
        if i < s.len() {
            assert(t[i - 1] == s[i]);
        }
        assert(!is_term(s[0]));
        lemma_term_pos(t, i - 1);
    }
}

/// Index of the first `c`, or the length.
fn find_char(s: &[char], c: char) -> (r: usize)
    ensures
        r == char_pos(s@, c),
        r <= s@.len(),
{
    let mut i: usize = 0;
    while i < s.len() && s[i] != c
        invariant
            i <= s@.len(),
            forall|j: int| 0 <= j < i ==> #[trigger] s@[j] != c,
        decreases s@.len() - i,
    {
        i = i + 1;
    }
    proof {
        lemma_char_pos(s@, c, i as int);
    }
    i
}

proof fn lemma_char_pos(s: Seq<char>, c: char, i: int)
    requires
        0 <= i <= s.len(),
        forall|j: int| 0 <= j < i ==> #[trigger] s[j] != c,
        i == s.len() || s[i] == c,
    ensures
        char_pos(s, c) == i,
    decreases i,
{
    if i > 0 {
        let t = s.drop_first();
        assert forall|j: int| 0 <= j < i - 1 implies #[trigger] t[j] != c by {
            assert(t[j] == s[j + 1]);
        }
        if i < s.len() {
            assert(t[i - 1] == s[i]);
        }
        assert(s[0] != c);
        lemma_char_pos(t, c, i - 1);
    }
}

/// Number of leading whitespace characters.
fn lead_count(s: &[char]) -> (r: usize)
    ensures
        r == lead_ws(s@),
        r <= s@.len(),
        s@.subrange(r as int, s@.len() as int) == trim_start(s@),
{
    let mut i: usize = 0;
    while i < s.len() && crate::text::is_whitespace_char(s[i])
        invariant
            i <= s@.len(),
            forall|j: int| 0 <= j < i ==> crate::text::is_ws(#[trigger] s@[j]),
        decreases s@.len() - i,
    {
        i = i + 1;
    }
    proof {
        crate::text::lemma_lead_ws_exact(s@, i as int);
    }
    i
}

} // verus!
