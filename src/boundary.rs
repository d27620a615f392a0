//! The boundary that exposes operations to remote pollers. For each
//! operation it is the one consumer of the handle: it drains the updates
//! into an append-only log and keeps the terminal status, and it answers
//! each poll with a slice of that log.
//!
//! Long-poll policy: a poll with `wait` set, at a cursor past the end of the
//! log of a running operation, is told to wait; the runtime asks again once
//! the log has grown or the operation has ended, or answers it as it stands
//! when its own time limit elapses.

use crate::api::{hyphenated, json_text, ApiError, ErrorKind, Operation, OperationInfo, OperationStatus};
use crate::operation::{self, severed_detail, ChannelMessage, Outcome};
use vstd::prelude::*;

verus! {

/// What a poll at cursor `skip` is given of the events `events`: the event
/// at that index, if there is one.
pub open spec fn window(events: Seq<serde_json::Value>, skip: int) -> Seq<serde_json::Value> {
    if 0 <= skip < events.len() {
        seq![events[skip]]
    } else {
        Seq::empty()
    }
}

/// The wire status of an outcome.
pub open spec fn status_of(o: Outcome) -> OperationStatus {
    match o {
        Outcome::Error(_) => OperationStatus::Failed,
        _ => OperationStatus::Completed,
    }
}

/// The wire error of an outcome.
pub open spec fn error_of(o: Outcome) -> Option<String> {
    match o {
        Outcome::Error(e) => Some(e),
        _ => None,
    }
}

/// Accumulated history of one operation.
#[derive(Debug)]
pub struct OperationLog {
    events: Vec<serde_json::Value>,
    status: OperationStatus,
    error: Option<String>,
}

/// Answer to a poll.
#[derive(Debug)]
pub enum PollReply {
    /// The snapshot to send.
    Ready(Operation),
    /// Nothing new yet: hold the request and ask again.
    Wait,
}

impl OperationLog {
    pub closed spec fn events(&self) -> Seq<serde_json::Value> {
        self.events@
    }

    pub closed spec fn status(&self) -> OperationStatus {
        self.status
    }

    pub closed spec fn error(&self) -> Option<String> {
        self.error
    }

    /// The error is present exactly when the operation failed.
    pub open spec fn wf(&self) -> bool {
        self.error() is Some <==> self.status() == OperationStatus::Failed
    }

    /// The log of an operation that has just started.
    pub fn new() -> (r: OperationLog)
        ensures
            r.wf(),
            r.events().len() == 0,
            r.status() == OperationStatus::Running,
    {
        OperationLog { events: Vec::new(), status: OperationStatus::Running, error: None }
    }

    /// Records the next message drained from the operation's handle `op`
    /// (`None`: its producer is gone). Updates are appended; the outcome
    /// sets the terminal status and error.
    pub fn absorb(
        &mut self,
        op: &mut operation::Operation<serde_json::Value>,
        received: Option<ChannelMessage<serde_json::Value>>,
    )
        requires
            old(self).wf(),
            old(self).status() == OperationStatus::Running,
            old(op).finished() is None,
        ensures
            final(self).wf(),
            final(self).status() == OperationStatus::Running <==> final(op).finished() is None,
            match received {
                Some(ChannelMessage::Progress(v)) => final(self).events() == old(self).events().push(v)
                    && final(self).status() == OperationStatus::Running,
                Some(ChannelMessage::Done(o)) => final(self).events() == old(self).events()
                    && final(self).status() == status_of(o) && final(self).error() == error_of(o),
                None => final(self).events() == old(self).events()
                    && final(self).status() == OperationStatus::Failed
                    && final(self).error() is Some
                    && final(self).error()->Some_0@ == severed_detail(),
            },
    {
        match op.next_update(received) {
            Some(ev) => {
                self.events.push(ev);
            },
            None => {
                let out = op.outcome_ref();
                match out {
                    Outcome::Error(e) => {
                        self.status = OperationStatus::Failed;
                        self.error = Some(e.clone());
                    },
                    _ => {
                        self.status = OperationStatus::Completed;
                    },
                }
            },
        }
    }

    /// The snapshot of the operation `id` for a caller that has seen `skip`
    /// events.
    pub fn snapshot(&self, id: u128, skip: usize) -> (r: Operation)
        requires
            self.wf(),
        ensures
            r.wf(),
            r.id == id,
            r.events@ == window(self.events(), skip as int),
            r.status == self.status(),
            r.error == self.error(),
    {
        let mut events: Vec<serde_json::Value> = Vec::new();
        if skip < self.events.len() {
            events.push(self.events[skip].clone());
        }
        let error = match &self.error {
            Some(e) => Some(e.clone()),
            None => None,
        };
        let r = Operation { id, events, status: self.status, error };
        assert(r.events@ =~= window(self.events(), skip as int));
        r
    }

    /// Answers a poll: with `wait`, a running operation with no event past
    /// `skip` makes the caller wait; otherwise the snapshot is returned.
    pub fn poll(&self, id: u128, skip: usize, wait: bool) -> (r: PollReply)
        requires
            self.wf(),
        ensures
            r is Wait <==> (wait && skip >= self.events().len() && self.status() == OperationStatus::Running),
            r matches PollReply::Ready(s) ==> s.wf() && s.id == id
                && s.events@ == window(self.events(), skip as int)
                && s.status == self.status() && s.error == self.error(),
    {
        if wait && skip >= self.events.len() && self.status == OperationStatus::Running {
            PollReply::Wait
        } else {
            PollReply::Ready(self.snapshot(id, skip))
        }
    }
}

/// Code of the error for an identifier that names no operation.
pub const NOT_FOUND_CODE: &'static str = "operation_not_found";

/// Code of the error for a start under an identifier already in use.
pub const DUPLICATE_CODE: &'static str = "operation_id_taken";

/// Every operation that this process has started, by identifier.
#[derive(Debug)]
pub struct Registry {
    ids: Vec<u128>,
    logs: Vec<OperationLog>,
}

/// The error for `id`, whose details are the identifier's text.
fn id_error(kind: ErrorKind, code: &str, id: u128) -> (r: ApiError)
    ensures
        r.kind == kind,
        r.code@ == code@,
{
    ApiError { kind, code: String::from_str(code), details: json_text(hyphenated(id)) }
}

impl Registry {
    pub closed spec fn ids(&self) -> Seq<u128> {
        self.ids@
    }

    pub closed spec fn logs(&self) -> Seq<OperationLog> {
        self.logs@
    }

    /// One log per identifier, identifiers distinct, every log well formed.
    pub open spec fn wf(&self) -> bool {
        &&& self.ids().len() == self.logs().len()
        &&& forall|i: int, j: int|
            0 <= i < j < self.ids().len() ==> self.ids()[i] != self.ids()[j]
        &&& forall|i: int| 0 <= i < self.logs().len() ==> (#[trigger] self.logs()[i]).wf()
    }

    pub fn new() -> (r: Registry)
        ensures
            r.wf(),
            r.ids().len() == 0,
    {
        Registry { ids: Vec::new(), logs: Vec::new() }
    }

    /// Position of `id`, if it names an operation.
    fn find(&self, id: u128) -> (r: Option<usize>)
        requires
            self.wf(),
        ensures
            r is None <==> !self.ids().contains(id),
            r matches Some(i) ==> i < self.ids().len() && self.ids()[i as int] == id,
    {
        let mut i: usize = 0;
        while i < self.ids.len()
            invariant
                i <= self.ids@.len(),
                forall|k: int| 0 <= k < i ==> self.ids@[k] != id,
            decreases self.ids@.len() - i,
        {
            if self.ids[i] == id {
                return Some(i);
            }
            i = i + 1;
        }
        None
    }

    /// Registers a started operation under the fresh identifier `id`; an
    /// identifier already in use is an internal fault.
    pub fn start(&mut self, id: u128) -> (r: Result<OperationInfo, ApiError>)
        requires
            old(self).wf(),
        ensures
            final(self).wf(),
            old(self).ids().contains(id) ==> (r matches Err(e) && e.kind == ErrorKind::Internal
                && e.code@ == DUPLICATE_CODE@ && *final(self) == *old(self)),
            !old(self).ids().contains(id) ==> r == Ok::<OperationInfo, ApiError>(OperationInfo { id })
                && final(self).ids() == old(self).ids().push(id)
                && final(self).logs().len() == old(self).logs().len() + 1
                && final(self).logs().last().events().len() == 0
                && final(self).logs().last().status() == OperationStatus::Running
                && final(self).logs().subrange(0, old(self).logs().len() as int) == old(self).logs(),
    {
        if self.find(id).is_some() {
            return Err(id_error(ErrorKind::Internal, DUPLICATE_CODE, id));
        }
        self.ids.push(id);
        self.logs.push(OperationLog::new());
        assert(self.logs@.subrange(0, old(self).logs@.len() as int) =~= old(self).logs@);
        Ok(OperationInfo { id })
    }

    /// Answers a poll of operation `id` at cursor `skip`; an unknown
    /// identifier is NOT_FOUND.
    pub fn poll(&self, id: u128, skip: usize, wait: bool) -> (r: Result<PollReply, ApiError>)
        requires
            self.wf(),
        ensures
            r is Err <==> !self.ids().contains(id),
            r matches Err(e) ==> e.kind == ErrorKind::NotFound && e.code@ == NOT_FOUND_CODE@,
            forall|i: int| 0 <= i < self.ids().len() && self.ids()[i] == id ==> {
                let log = #[trigger] self.logs()[i];
                (r matches Ok(reply) && (reply is Wait <==> (wait && skip >= log.events().len()
                    && log.status() == OperationStatus::Running))
                && (reply matches PollReply::Ready(s) ==> s.wf() && s.id == id
                    && s.events@ == window(log.events(), skip as int)
                    && s.status == log.status() && s.error == log.error()))
            },
    {
        match self.find(id) {
            None => Err(id_error(ErrorKind::NotFound, NOT_FOUND_CODE, id)),
            Some(i) => {
                let r = self.logs[i].poll(id, skip, wait);
                assert forall|k: int| 0 <= k < self.ids().len() && self.ids()[k] == id implies k == i
                    by {
                    if k != i as int {
                        if k < i as int {
                            assert(self.ids()[k] != self.ids()[i as int]);
                        } else {
                            assert(self.ids()[i as int] != self.ids()[k]);
                        }
                    }
                }
                Ok(r)
            },
        }
    }

    /// Records the next message drained from the handle `op` of operation
    /// `id`, which must be registered and still running.
    pub fn absorb(
        &mut self,
        id: u128,
        op: &mut operation::Operation<serde_json::Value>,
        received: Option<ChannelMessage<serde_json::Value>>,
    ) -> (r: Result<(), ApiError>)
        requires
            old(self).wf(),
            old(op).finished() is None,
            forall|i: int| 0 <= i < old(self).ids().len() && old(self).ids()[i] == id
                ==> (#[trigger] old(self).logs()[i]).status() == OperationStatus::Running,
        ensures
            final(self).wf(),
            final(self).ids() == old(self).ids(),
            r is Err <==> !old(self).ids().contains(id),
            r is Err ==> *final(self) == *old(self) && *final(op) == *old(op),
            forall|i: int| 0 <= i < old(self).ids().len() && old(self).ids()[i] != id
                ==> #[trigger] final(self).logs()[i] == old(self).logs()[i],
            forall|i: int| 0 <= i < old(self).ids().len() && old(self).ids()[i] == id ==> {
                let before = #[trigger] old(self).logs()[i];
                let after = final(self).logs()[i];
                (after.status() == OperationStatus::Running <==> final(op).finished() is None)
                && match received {
                    Some(ChannelMessage::Progress(v)) => after.events() == before.events().push(v)
                        && after.status() == OperationStatus::Running,
                    Some(ChannelMessage::Done(o)) => after.events() == before.events()
                        && after.status() == status_of(o) && after.error() == error_of(o),
                    None => after.events() == before.events()
                        && after.status() == OperationStatus::Failed
                        && after.error() is Some
                        && after.error()->Some_0@ == severed_detail(),
                }
            },
    {
        match self.find(id) {
            None => Err(id_error(ErrorKind::NotFound, NOT_FOUND_CODE, id)),
            Some(i) => {
                assert forall|k: int| 0 <= k < self.ids().len() && self.ids()[k] == id implies k == i
                    by {
                    if k != i as int {
                        if k < i as int {
                            assert(self.ids()[k] != self.ids()[i as int]);
                        } else {
                            assert(self.ids()[i as int] != self.ids()[k]);
                        }
                    }
                }
                let mut log = self.logs.remove(i);
                log.absorb(op, received);
                self.logs.insert(i, log);
                assert forall|k: int| 0 <= k < self.logs().len() && k != i as int implies
                    self.logs()[k] == old(self).logs()[k] by {}
                Ok(())
            },
        }
    }
}

} // verus!
