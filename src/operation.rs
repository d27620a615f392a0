//! The in-process side of a long-running operation: the messages that flow
//! from the task doing the work to its single consumer, and the consumer's
//! handle, which yields the progress updates and then the terminal outcome.
//!
//! The conduit itself holds one message in flight: a producer that sends
//! waits until the consumer has taken the previous message. The handle below
//! decides what each received message means; the runtime that owns the
//! conduit hands it each message it receives, or `None` once the producer
//! side is gone.

use std::marker::PhantomData;
use vstd::prelude::*;

verus! {

/// How many messages the conduit holds in flight: a producer's send
/// returns only once the consumer has taken the message before it.
pub const CONDUIT_CAPACITY: usize = 1;

/// Text of the failure reported when the producer disappears without
/// publishing an outcome.
pub const SEVERED_DETAIL: &'static str = "operation was stopped in unexpected way";

pub open spec fn severed_detail() -> Seq<char> {
    "operation was stopped in unexpected way"@
}

/// Terminal result of an operation.
#[derive(Clone, Debug, PartialEq, Eq)]
pub enum Outcome {
    /// Operation has finished successfully.
    Finish,
    /// Operation failed, the error is attached.
    Error(String),
    /// Operation was cancelled successfully.
    Cancelled,
}

/// One message from the producer: a progress update, or the outcome, which
/// is always the last one.
#[derive(Clone, Debug)]
pub enum ChannelMessage<U> {
    Progress(U),
    Done(Outcome),
}

/// The outcome that a producer's result turns into.
pub open spec fn outcome_of(res: Result<(), String>) -> Outcome {
    match res {
        Ok(_) => Outcome::Finish,
        Err(e) => Outcome::Error(e),
    }
}

/// Everything a producer publishes: one progress message per update, in
/// order, then the outcome of its result.
pub open spec fn writer_messages<U>(updates: Seq<U>, res: Result<(), String>) -> Seq<ChannelMessage<U>> {
    updates.map_values(|u: U| ChannelMessage::Progress(u)).push(ChannelMessage::Done(outcome_of(res)))
}

/// What a consumer that calls `next_update` until it returns `None` sees of
/// the messages `msgs`: the updates it is given, and the outcome it then
/// holds (`None` when the messages end without one, which the handle turns
/// into a failure).
pub open spec fn deliver<U>(msgs: Seq<ChannelMessage<U>>) -> (Seq<U>, Option<Outcome>)
    decreases msgs.len(),
{
    if msgs.len() == 0 {
        (Seq::empty(), None)
    } else {
        match msgs[0] {
            ChannelMessage::Progress(u) => {
                let (rest, o) = deliver(msgs.drop_first());
                (seq![u] + rest, o)
            },
            ChannelMessage::Done(o) => (Seq::empty(), Some(o)),
        }
    }
}

/// Consumer's handle of a running operation; `Update` is the type of one
/// progress event.
#[derive(Debug)]
pub struct Operation<Update> {
    finish: Option<Outcome>,
    marker: PhantomData<Update>,
}

impl<Update> Operation<Update> {
    /// The outcome, once the updates are drained.
    pub closed spec fn finished(&self) -> Option<Outcome> {
        self.finish
    }

    /// Handles the next message of the conduit (`None`: the producer is
    /// gone). Returns the update it carries, or `None` once the operation is
    /// over; its outcome is then kept for `outcome`.
    pub fn next_update(&mut self, received: Option<ChannelMessage<Update>>) -> (r: Option<Update>)
        requires
            old(self).finished() is None,
        ensures
            match received {
                Some(ChannelMessage::Progress(u)) => r == Some(u) && final(self).finished() is None,
                Some(ChannelMessage::Done(o)) => r is None && final(self).finished() == Some(o),
                None => r is None && final(self).finished() is Some
                    && final(self).finished()->Some_0 is Error
                    && final(self).finished()->Some_0->Error_0@ == severed_detail(),
            },
    {
        match received {
            Some(ChannelMessage::Progress(p)) => Some(p),
            Some(ChannelMessage::Done(d)) => {
                self.finish = Some(d);
                None
            },
            None => {
                let detail = String::from_str(SEVERED_DETAIL);
                proof {
                    reveal_strlit("operation was stopped in unexpected way");
                }
                self.finish = Some(Outcome::Error(detail));
                None
            },
        }
    }

    /// The outcome, read in place; only after `next_update` has returned
    /// `None`.
    pub fn outcome_ref(&self) -> (r: &Outcome)
        requires
            self.finished() is Some,
        ensures
            Some(*r) == self.finished(),
    {
        self.finish.as_ref().unwrap()
    }

    /// Returns the outcome; only after `next_update` has returned `None`.
    pub fn outcome(self) -> (r: Outcome)
        requires
            self.finished() is Some,
        ensures
            Some(r) == self.finished(),
    {
        match self.finish {
            Some(o) => o,
            None => Outcome::Cancelled,
        }
    }
}

/// Producer's side of a running operation.
#[derive(Debug)]
pub struct ProgressWriter<Update> {
    marker: PhantomData<Update>,
}

impl<Update> ProgressWriter<Update> {
    /// The message that publishes `ev`.
    pub fn send(&mut self, ev: Update) -> (r: ChannelMessage<Update>)
        ensures
            r == ChannelMessage::Progress(ev),
    {
        ChannelMessage::Progress(ev)
    }

    /// The last message: the outcome of `res`.
    pub fn finish(self, res: Result<(), String>) -> (r: ChannelMessage<Update>)
        ensures
            r == ChannelMessage::<Update>::Done(outcome_of(res)),
    {
        let out = match res {
            Ok(_) => Outcome::Finish,
            Err(err) => Outcome::Error(err),
        };
        ChannelMessage::Done(out)
    }
}

/// A fresh handle, which has received nothing, and its producer.
pub fn start<U>() -> (r: (Operation<U>, ProgressWriter<U>))
    ensures
        r.0.finished() is None,
{
    (Operation { finish: None, marker: PhantomData }, ProgressWriter { marker: PhantomData })
}

/// A consumer that drains an operation receives exactly the updates that
/// the producer sent, in the order sent, and then the outcome of the
/// producer's result.
pub proof fn lemma_updates_delivered_in_order<U>(updates: Seq<U>, res: Result<(), String>)
    ensures
        deliver(writer_messages(updates, res)) == (updates, Some(outcome_of(res))),
    decreases updates.len(),
{
    let msgs = writer_messages(updates, res);
    if updates.len() == 0 {
        assert(msgs[0] == ChannelMessage::<U>::Done(outcome_of(res)));
    } else {
        let tail = updates.drop_first();
        lemma_updates_delivered_in_order(tail, res);
        assert(msgs.drop_first() =~= writer_messages(tail, res));
        assert(seq![updates[0]] + tail =~= updates);
    }
}

} // verus!
