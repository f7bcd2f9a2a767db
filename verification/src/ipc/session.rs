//! A session's pending permission requests: which request each permission
//! id was issued for, and the counter that names new ones.
use vstd::prelude::*;

use crate::ipc::control::check_permission_answer;
use crate::ipc::protocol::make_error;
use crate::types::{Message, SystemErrorCode};
use crate::text::{concat2, dec, decimal, str_eq};

verus! {

/// The request id a permission id is pending for, if any.
pub open spec fn pending_for(ps: Seq<(Seq<char>, Seq<char>)>, id: Seq<char>) -> Option<Seq<char>>
    decreases ps.len(),
{
    if ps.len() == 0 {
        None
    } else if ps.last().0 == id {
        Some(ps.last().1)
    } else {
        pending_for(ps.drop_last(), id)
    }
}

/// Why a permission response for `id` with `req_id` is refused: the id
/// is unknown, or it was asked under another request id.
pub open spec fn answer_error(ps: Seq<(Seq<char>, Seq<char>)>, id: Seq<char>, req_id: Seq<char>) -> Seq<char> {
    match pending_for(ps, id) {
        None => "unknown permission id '"@ + id + "'"@,
        Some(p) => "req_id mismatch for permission '"@ + id + "': expected '"@ + p + "', got '"@ + req_id
            + "'"@,
    }
}

pub open spec fn pairs_view(v: Seq<(String, String)>) -> Seq<(Seq<char>, Seq<char>)> {
    v.map_values(|e: (String, String)| (e.0@, e.1@))
}

/// The pending permission requests of a session, and the number the next
/// permission id gets.
#[derive(Debug)]
pub struct PermissionTable {
    pending: Vec<(String, String)>,
    next_id: u64,
}

/// The name of the `n`-th permission id.
pub open spec fn perm_id(n: nat) -> Seq<char> {
    "perm-"@ + dec(n)
}

impl PermissionTable {
    /// The pending requests, oldest first: permission id and request id
    /// (a later record of an id hides an earlier one).
    pub closed spec fn view(&self) -> Seq<(Seq<char>, Seq<char>)> {
        pairs_view(self.pending@)
    }

    /// The number the next permission id gets.
    pub closed spec fn counter(&self) -> nat {
        self.next_id as nat
    }

    /// A table with nothing pending; ids start at `perm-1`.
    pub fn new() -> (r: Self)
        ensures
            forall|k: Seq<char>| #[trigger] pending_for(r@, k) is None,
            r.counter() == 1,
    {
        let r = PermissionTable { pending: Vec::new(), next_id: 1 };
        assert(r@ =~= Seq::<(Seq<char>, Seq<char>)>::empty());
        r
    }

    /// The next permission id: `perm-1`, `perm-2`, …
    pub fn next_perm_id(&mut self) -> (r: String)
        requires
            old(self).counter() < u64::MAX,
        ensures
            r@ == perm_id(old(self).counter()),
            final(self).counter() == old(self).counter() + 1,
            final(self)@ == old(self)@,
    {
        let d = decimal(self.next_id);
        self.next_id = self.next_id + 1;
        concat2("perm-", d.as_str())
    }

    /// The request id `id` is pending for.
    fn lookup(&self, id: &str) -> (r: Option<&str>)
        ensures
            match pending_for(self@, id@) {
                Some(p) => r matches Some(x) && x@ == p,
                None => r is None,
            },
    {
        let mut i: usize = self.pending.len();
        assert(self@.subrange(0, i as int) =~= self@);
        while i > 0
            invariant
                i <= self@.len(),
                self@.len() == self.pending@.len(),
                pending_for(self@, id@) == pending_for(self@.subrange(0, i as int), id@),
            decreases i,
        {
            let ghost pre = self@.subrange(0, i as int);
            proof {
                assert(pre.drop_last() =~= self@.subrange(0, i - 1));
                assert(pre.last() == self@[i - 1]);
                assert(self@[i - 1] == (self.pending@[i - 1].0@, self.pending@[i - 1].1@));
            }
            if str_eq(self.pending[i - 1].0.as_str(), id) {
                return Some(self.pending[i - 1].1.as_str());
            }
            i = i - 1;
        }
        None
    }

    /// Records that `id` is pending for `req_id`.
    pub fn insert(&mut self, id: String, req_id: String)
        ensures
            pending_for(final(self)@, id@) == Some(req_id@),
            forall|k: Seq<char>| k != id@ ==> #[trigger] pending_for(final(self)@, k) == pending_for(old(self)@, k),
            final(self).counter() == old(self).counter(),
    {
        let ghost old_v = self@;
        let ghost e = (id@, req_id@);
        self.pending.push((id, req_id));
        proof {
            assert(self@ =~= old_v.push(e));
            assert(self@.drop_last() =~= old_v);
        }
    }

    /// Drops every record of `id`.
    fn forget(&mut self, id: &str)
        ensures
            pending_for(final(self)@, id@) is None,
            forall|k: Seq<char>| k != id@ ==> #[trigger] pending_for(final(self)@, k) == pending_for(old(self)@, k),
            final(self).counter() == old(self).counter(),
    {
        let ghost old_v = self@;
        let mut kept: Vec<(String, String)> = Vec::new();
        let mut i: usize = 0;
        while i < self.pending.len()
            invariant
                i <= self.pending@.len(),
                old_v == self@,
                pending_for(pairs_view(kept@), id@) is None,
                forall|k: Seq<char>| k != id@ ==> #[trigger] pending_for(
                    pairs_view(kept@),
                    k,
                ) == pending_for(old_v.subrange(0, i as int), k),
            decreases self.pending@.len() - i,
        {
            let ghost kv = pairs_view(kept@);
            let ghost pre = old_v.subrange(0, i as int);
            let ghost post = old_v.subrange(0, i + 1);
            proof {
                assert(post.drop_last() =~= pre);
                assert(post.last() == old_v[i as int]);
                assert(old_v[i as int] == (self.pending@[i as int].0@, self.pending@[i as int].1@));
            }
            if !str_eq(self.pending[i].0.as_str(), id) {
                let e = (self.pending[i].0.clone(), self.pending[i].1.clone());
                kept.push(e);
                proof {
                    assert(pairs_view(kept@) =~= kv.push(old_v[i as int]));
                    assert(pairs_view(kept@).drop_last() =~= kv);
                    assert forall|k: Seq<char>| k != id@ implies #[trigger] pending_for(pairs_view(kept@), k)
                        == pending_for(post, k) by {
                        assert(pending_for(kv, k) == pending_for(pre, k));
                        let w = pairs_view(kept@);
                        assert(w.last() == post.last());
                        assert(w.drop_last() == kv);
                    }
                }
            } else {
                proof {
                    assert forall|k: Seq<char>| k != id@ implies #[trigger] pending_for(pairs_view(kept@), k)
                        == pending_for(post, k) by {
                        assert(pending_for(post, k) == pending_for(pre, k));
                    }
                }
            }
            i = i + 1;
        }
        assert(old_v.subrange(0, old_v.len() as int) =~= old_v);
        self.pending = kept;
    }

    /// Resolves a permission answer: when `id` is pending for `req_id` its
    /// record goes; otherwise the table is unchanged and the error says why
    /// (unknown id, or the request id that was expected).
    pub fn answer(&mut self, id: &str, req_id: &str) -> (r: Result<(), String>)
        ensures
            match pending_for(old(self)@, id@) {
                None => final(self)@ == old(self)@ && (r matches Err(m) && m@ == "unknown permission id '"@
                    + id@ + "'"@),
                Some(p) => if p == req_id@ {
                    &&& r is Ok
                    &&& pending_for(final(self)@, id@) is None
                    &&& forall|k: Seq<char>| k != id@ ==> #[trigger] pending_for(final(self)@, k) == pending_for(
                        old(self)@,
                        k,
                    )
                } else {
                    final(self)@ == old(self)@ && (r matches Err(m) && m@
                        == "req_id mismatch for permission '"@ + id@ + "': expected '"@ + p + "', got '"@
                        + req_id@ + "'"@)
                },
            },
            final(self).counter() == old(self).counter(),
    {
        let checked = check_permission_answer(id, req_id, self.lookup(id));
        if checked.is_ok() {
            self.forget(id);
        }
        checked
    }

    /// Answers a client's permission response.  When `id` is pending for
    /// `req_id` its record goes and there is nothing to send back;
    /// otherwise the table is unchanged and the reply is a `system.error`
    /// (`invalid_message`, the response's `req_id` echoed, the reason as
    /// detail) stamped `ts`.
    pub fn respond(&mut self, id: &str, req_id: &str, ts: String) -> (r: Option<Message>)
        ensures
            pending_for(old(self)@, id@) == Some(req_id@) ==> {
                &&& r is None
                &&& pending_for(final(self)@, id@) is None
                &&& forall|k: Seq<char>| k != id@ ==> #[trigger] pending_for(final(self)@, k) == pending_for(
                    old(self)@,
                    k,
                )
            },
            pending_for(old(self)@, id@) != Some(req_id@) ==> {
                &&& final(self)@ == old(self)@
                &&& r matches Some(Message::SystemError(e))
                &&& e.error == SystemErrorCode::InvalidMessage
                &&& e.req_id matches Some(q) && q@ == req_id@
                &&& e.detail@ == answer_error(old(self)@, id@, req_id@)
                &&& e.ts == ts
            },
            final(self).counter() == old(self).counter(),
    {
        match self.answer(id, req_id) {
            Ok(()) => None,
            Err(detail) => Some(make_error(SystemErrorCode::InvalidMessage, Some(String::from_str(req_id)), detail, ts)),
        }
    }

    /// Removes the records of `id`, telling whether there were any.
    pub fn remove(&mut self, id: &str) -> (r: bool)
        ensures
            r == (pending_for(old(self)@, id@) is Some),
            pending_for(final(self)@, id@) is None,
            forall|k: Seq<char>| k != id@ ==> #[trigger] pending_for(final(self)@, k) == pending_for(old(self)@, k),
            final(self).counter() == old(self).counter(),
    {
        let found = self.lookup(id).is_some();
        self.forget(id);
        found
    }

    /// Drops every pending record.
    pub fn drain(&mut self)
        ensures
            forall|k: Seq<char>| #[trigger] pending_for(final(self)@, k) is None,
            final(self).counter() == old(self).counter(),
    {
        self.pending = Vec::new();
        assert(self@ =~= Seq::<(Seq<char>, Seq<char>)>::empty());
    }
}

/// Permission ids are never issued twice: different counters give
/// different ids.
pub proof fn lemma_perm_ids_distinct(a: nat, b: nat)
    requires
        a != b,
    ensures
        perm_id(a) != perm_id(b),
{
    reveal_strlit("perm-");
    crate::ipc::protocol::lemma_dec_digits(a);
    crate::ipc::protocol::lemma_dec_digits(b);
    if perm_id(a) == perm_id(b) {
        let n = "perm-"@.len();
        assert(perm_id(a).subrange(n as int, perm_id(a).len() as int) =~= dec(a));
        assert(perm_id(b).subrange(n as int, perm_id(b).len() as int) =~= dec(b));
    }
}

} // verus!
