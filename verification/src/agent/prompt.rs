//! Composing the system prompt from the sections its sources provide.
use vstd::prelude::*;

use crate::text::{concat3, push_str};

verus! {

/// A section as it appears in the prompt: `[label]`, a newline, the body.
pub open spec fn section_text(label: Seq<char>, body: Seq<char>) -> Seq<char> {
    "["@ + label + "]\n"@ + body
}

/// The sections that have a body, in order.
pub open spec fn present(parts: Seq<(Seq<char>, Option<Seq<char>>)>) -> Seq<Seq<char>>
    decreases parts.len(),
{
    if parts.len() == 0 {
        seq![]
    } else {
        let rest = present(parts.drop_last());
        match parts.last().1 {
            Some(b) => rest.push(section_text(parts.last().0, b)),
            None => rest,
        }
    }
}

/// Texts joined by a separator.
pub open spec fn joined(ts: Seq<Seq<char>>, sep: Seq<char>) -> Seq<char>
    decreases ts.len(),
{
    if ts.len() == 0 {
        seq![]
    } else if ts.len() == 1 {
        ts[0]
    } else {
        joined(ts.drop_last(), sep) + sep + ts.last()
    }
}

pub open spec fn parts_view(parts: Seq<(String, Option<String>)>) -> Seq<(Seq<char>, Option<Seq<char>>)> {
    parts.map_values(
        |p: (String, Option<String>)|
            (
                p.0@,
                match p.1 {
                    Some(b) => Some(b@),
                    None => None,
                },
            ),
    )
}

/// The system prompt: every source that provided a body, as a section,
/// the sections separated by a horizontal rule.
pub fn compose_prompt(parts: &Vec<(String, Option<String>)>) -> (r: String)
    ensures
        r@ == joined(present(parts_view(parts@)), "\n\n---\n\n"@),
{
    let mut out = String::new();
    let mut n: usize = 0;
    let mut i: usize = 0;
    while i < parts.len()
        invariant
            i <= parts@.len(),
            n == present(parts_view(parts@.subrange(0, i as int))).len(),
            n <= i,
            out@ == joined(present(parts_view(parts@.subrange(0, i as int))), "\n\n---\n\n"@),
        decreases parts@.len() - i,
    {
        let ghost pre = parts_view(parts@.subrange(0, i as int));
        let ghost post = parts_view(parts@.subrange(0, i + 1));
        proof {
            assert(post.drop_last() =~= pre);
        }
        match &parts[i].1 {
            Some(body) => {
                let sec = concat3("[", parts[i].0.as_str(), "]\n");
                let ghost before = out@;
                if n > 0 {
                    push_str(&mut out, "\n\n---\n\n");
                }
                push_str(&mut out, sec.as_str());
                push_str(&mut out, body.as_str());
                proof {
                    let ps = present(post);
                    assert(ps == present(pre).push(section_text(parts@[i as int].0@, body@)));
                    assert(ps.drop_last() =~= present(pre));
                    if n > 0 {
                        assert(out@ =~= joined(ps, "\n\n---\n\n"@));
                    } else {
                        assert(out@ =~= joined(ps, "\n\n---\n\n"@));
                    }
                }
                n = n + 1;
            },
            None => {},
        }
        i = i + 1;
    }
    assert(parts@.subrange(0, parts@.len() as int) =~= parts@);
    out
}

} // verus!
