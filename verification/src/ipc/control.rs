//! The control plane's decisions: what each incoming message asks of the
//! daemon, and the checks on permission answers, rejoins and acks.
use vstd::prelude::*;

use crate::ipc::protocol::{event_id_parse, parse_event_id};
use crate::text::{concat2, concat3, push_str, str_eq};
use crate::types::{Message, PermissionDecision, SessionRejoin};

verus! {

/// What an incoming message asks of the daemon.
#[derive(Debug)]
pub enum RouteAction {
    /// Answer with a `system.pong` for this request.
    Pong { req_id: String },
    /// Resolve the pending permission request.
    ResolvePermission { permission_id: String, req_id: String, decision: PermissionDecision },
    /// Replay the task's events for a rejoining client.
    Rejoin { req_id: String, task_id: String, last_event_id: Option<String> },
    /// Mark an event acknowledged.
    Ack { req_id: String, event_id: String },
    /// Start the dispatched task.
    Dispatch,
    /// Nothing to do.
    Ignore,
}

/// The action for each kind of message: pings are answered, permission
/// answers resolved, rejoins replayed, acks recorded, dispatches started;
/// everything else is ignored.
pub fn route_action(msg: &Message) -> (r: RouteAction)
    ensures
        match *msg {
            Message::SystemPing(p) => r matches RouteAction::Pong { req_id } && req_id == p.req_id,
            Message::PermissionResponse(pr) => r matches RouteAction::ResolvePermission {
                permission_id,
                req_id,
                decision,
            } && permission_id == pr.permission_id && req_id == pr.req_id && decision == pr.decision,
            Message::SessionRejoin(sr) => r matches RouteAction::Rejoin { req_id, task_id, last_event_id }
                && req_id == sr.req_id && task_id == sr.task_id && last_event_id == sr.last_event_id,
            Message::SystemAck(a) => r matches RouteAction::Ack { req_id, event_id } && req_id == a.req_id
                && event_id == a.event_id,
            Message::TaskDispatch(_) => r is Dispatch,
            _ => r is Ignore,
        },
{
    match msg {
        Message::SystemPing(p) => RouteAction::Pong { req_id: p.req_id.clone() },
        Message::PermissionResponse(pr) => RouteAction::ResolvePermission {
            permission_id: pr.permission_id.clone(),
            req_id: pr.req_id.clone(),
            decision: pr.decision,
        },
        Message::SessionRejoin(sr) => RouteAction::Rejoin {
            req_id: sr.req_id.clone(),
            task_id: sr.task_id.clone(),
            last_event_id: match &sr.last_event_id {
                Some(e) => Some(e.clone()),
                None => None,
            },
        },
        Message::SystemAck(a) => RouteAction::Ack { req_id: a.req_id.clone(), event_id: a.event_id.clone() },
        Message::TaskDispatch(_) => RouteAction::Dispatch,
        _ => RouteAction::Ignore,
    }
}

/// Whether a permission answer may resolve the pending request:
/// `pending_req_id` is the request id the pending request was made with,
/// `None` when no request is pending under that id.  The error is the
/// detail of the `system.error` answer.
pub fn check_permission_answer(permission_id: &str, req_id: &str, pending_req_id: Option<&str>) -> (r:
    Result<(), String>)
    ensures
        match pending_req_id {
            None => r matches Err(m) && m@ == "unknown permission id '"@ + permission_id@ + "'"@,
            Some(p) => if p@ == req_id@ {
                r is Ok
            } else {
                r matches Err(m) && m@ == "req_id mismatch for permission '"@ + permission_id@
                    + "': expected '"@ + p@ + "', got '"@ + req_id@ + "'"@
            },
        },
{
    match pending_req_id {
        None => Err(concat3("unknown permission id '", permission_id, "'")),
        Some(p) => if str_eq(p, req_id) {
            Ok(())
        } else {
            let mut m = concat3("req_id mismatch for permission '", permission_id, "': expected '");
            push_str(&mut m, p);
            push_str(&mut m, "', got '");
            push_str(&mut m, req_id);
            push_str(&mut m, "'");
            Err(m)
        },
    }
}

/// Where a rejoin's replay starts: after the sequence number of
/// `last_event_id` (all events when there is none).  The id must parse and
/// belong to the rejoined task; the error is the detail of the answer.
pub open spec fn rejoin_start(task_id: Seq<char>, last_event_id: Option<Seq<char>>) -> Result<Option<u32>, Seq<char>> {
    match last_event_id {
        None => Ok(None),
        Some(eid) => match event_id_parse(eid) {
            Ok((t, seq)) => if t != task_id {
                Err("session.rejoin: last_event_id task '"@ + t + "' != task_id '"@ + task_id + "'"@)
            } else {
                Ok(Some(seq))
            },
            Err(e) => Err("session.rejoin: "@ + e),
        },
    }
}

pub fn rejoin_after_seq(task_id: &str, last_event_id: Option<&str>) -> (r: Result<Option<u32>, String>)
    ensures
        match rejoin_start(
            task_id@,
            match last_event_id {
                Some(e) => Some(e@),
                None => None,
            },
        ) {
            Ok(s) => r == Ok::<Option<u32>, String>(s),
            Err(m) => r matches Err(x) && x@ == m,
        },
{
    match last_event_id {
        None => Ok(None),
        Some(eid) => match parse_event_id(eid) {
            Ok((t, seq)) => if !str_eq(t.as_str(), task_id) {
                let mut m = concat3("session.rejoin: last_event_id task '", t.as_str(), "' != task_id '");
                push_str(&mut m, task_id);
                push_str(&mut m, "'");
                Err(m)
            } else {
                Ok(Some(seq))
            },
            Err(e) => Err(concat2("session.rejoin: ", e.as_str())),
        },
    }
}

/// The answer to an ack: nothing when the event was found, otherwise the
/// detail of the error (`found` is the ledger's answer, or its failure).
pub fn ack_error(event_id: &str, found: Result<bool, String>) -> (r: Option<String>)
    ensures
        match found {
            Ok(true) => r is None,
            Ok(false) => r matches Some(m) && m@ == "unknown event_id: "@ + event_id@,
            Err(e) => r matches Some(m) && m@ == "system.ack failed: "@ + e@,
        },
{
    match found {
        Ok(true) => None,
        Ok(false) => Some(concat2("unknown event_id: ", event_id)),
        Err(e) => Some(concat2("system.ack failed: ", e.as_str())),
    }
}

} // verus!
