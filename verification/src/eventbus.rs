//! The durable, replayable event log: publish framing, consumption, and the
//! delivery guarantee.
//!
//! The broker itself lives outside the core; what is verified here is every
//! decision the core makes about it. `prepare_publish` fixes the subject and
//! payload of an event, `consume_step` accepts exactly the valid payloads,
//! `plan_stream` makes stream creation idempotent, and the stream model at
//! the bottom carries the at-least-once argument: a consumer that
//! acknowledges a message only after processing it never loses one, at the
//! price of processing some twice.

use vstd::prelude::*;
use vstd::string::StringExecFns;

use crate::error::Error;
use crate::event::Event;

verus! {

/// Where a stream keeps its messages.
#[derive(Clone, Copy, PartialEq, Eq, Structural, Debug)]
pub enum StorageKind {
    File,
    Memory,
}

/// How a stream evicts old messages.
#[derive(Clone, Copy, PartialEq, Eq, Structural, Debug)]
pub enum RetentionKind {
    Limits,
}

/// The configuration a stream is created with.
pub struct StreamConfig {
    pub name: String,
    pub subjects: Vec<String>,
    pub max_age_secs: u64,
    pub storage: StorageKind,
    pub retention: RetentionKind,
}

/// Streams are retained for thirty days.
pub open spec fn spec_retention_secs() -> int {
    (60 * 60 * 24 * 30) as int
}

/// Decides what `ensure_stream` must do: nothing when a stream by that name
/// already exists (racing creators tolerate "already exists" as success),
/// otherwise create a file-persisted, limits-retained stream with the given
/// name, subjects and thirty-day retention.
pub fn plan_stream(name: String, subjects: Vec<String>, exists: bool) -> (r: Option<StreamConfig>)
    ensures
        exists <==> r is None,
        r matches Some(c) ==> c.name@ == name@ && c.subjects.deep_view() == subjects.deep_view()
            && c.max_age_secs == spec_retention_secs() && c.storage == StorageKind::File
            && c.retention == RetentionKind::Limits,
{
    if exists {
        None
    } else {
        Some(
            StreamConfig {
                name,
                subjects,
                max_age_secs: 60 * 60 * 24 * 30,
                storage: StorageKind::File,
                retention: RetentionKind::Limits,
            },
        )
    }
}

/// The subject and payload an event is published under. Publication itself
/// must await the broker's durable-persistence acknowledgment; these values
/// are what it sends.
pub fn prepare_publish<E: Event>(event: &E) -> (r: (String, Vec<u8>))
    ensures
        r.0@ == event.subject_spec(),
        r.1@ == event.encoding_spec(),
{
    (String::from_str(event.get_subject()), event.encode())
}

/// One consumption step: decode the payload handed over by the broker.
/// A payload that is no valid encoding is an invalid response; the caller
/// must then leave the message unacknowledged and stop.
pub fn consume_step<E: Event>(payload: &[u8]) -> (r: Result<E, Error>)
    ensures
        r is Ok <==> E::valid_encoding(payload@),
        r matches Ok(e) ==> payload@ == e.encoding_spec(),
        r matches Err(err) ==> err is InvalidResponse,
{
    match E::decode(payload) {
        Some(e) => Ok(e),
        None => Err(Error::InvalidResponse),
    }
}

/// A model of one durable stream: the payloads published to it, in order.
pub struct StreamModel {
    pub messages: Vec<Vec<u8>>,
}

/// A named, position-tracked consumer: its cursor survives restarts, because
/// it only advances on acknowledgment.
pub struct DurableConsumer {
    pub cursor: usize,
}

impl View for StreamModel {
    type V = Seq<Seq<u8>>;

    open spec fn view(&self) -> Seq<Seq<u8>> {
        self.messages.deep_view()
    }
}

impl StreamModel {
    /// An empty stream.
    pub fn new() -> (r: StreamModel)
        ensures
            r@ =~= Seq::<Seq<u8>>::empty(),
    {
        StreamModel { messages: Vec::new() }
    }

    /// Appends one payload; the publish returns only once this has happened
    /// (durable-persistence acknowledgment).
    pub fn publish(&mut self, payload: Vec<u8>)
        ensures
            final(self)@ == old(self)@.push(payload@),
    {
        let ghost pd = payload@;
        self.messages.push(payload);
        assert(self@ =~~= old(self)@.push(pd));
    }
}

impl DurableConsumer {
    /// A fresh consumer starts at the beginning of the stream.
    pub fn new() -> (r: DurableConsumer)
        ensures
            r.cursor == 0,
    {
        DurableConsumer { cursor: 0 }
    }

    /// Runs this consumer over `stream`, appending every processed payload to
    /// `log` and acknowledging each message only after it was processed. If
    /// `fail_at` names a message at or past the cursor, the run crashes right
    /// after processing that message and before acknowledging it, leaving the
    /// cursor there; the restarted run will process it again. Returns whether
    /// the run crashed.
    pub fn run(
        &mut self,
        stream: &StreamModel,
        log: &mut Vec<Vec<u8>>,
        fail_at: Option<usize>,
    ) -> (crashed: bool)
        requires
            old(self).cursor <= stream@.len(),
        ensures
            crashed <==> (fail_at matches Some(f) && old(self).cursor <= f < stream@.len()),
            crashed ==> (fail_at matches Some(f) && final(self).cursor == f
                && final(log).deep_view() == old(log).deep_view() + stream@.subrange(
                old(self).cursor as int,
                f + 1,
            )),
            !crashed ==> final(self).cursor == stream@.len()
                && final(log).deep_view() == old(log).deep_view() + stream@.subrange(
                old(self).cursor as int,
                stream@.len() as int,
            ),
    {
        let ghost c0 = self.cursor as int;
        let n = stream.messages.len();
        loop
            invariant
                c0 == old(self).cursor as int,
                c0 <= self.cursor <= n,
                n == stream@.len(),
                log.deep_view() =~~= old(log).deep_view() + stream@.subrange(
                    c0,
                    self.cursor as int,
                ),
                fail_at matches Some(f) ==> (c0 <= f ==> self.cursor <= f),
            decreases n - self.cursor,
        {
            if self.cursor >= n {
                assert(!(fail_at matches Some(f) && c0 <= f < stream@.len()));
                return false;
            }
            let i = self.cursor;
            let payload = stream.messages[i].clone();
            assert(payload@ =~= stream.messages@[i as int]@);
            assert(payload.deep_view() =~= stream@[i as int]) by {
                assert(stream@[i as int] == stream.messages@[i as int].deep_view());
            }
            let ghost prev_log = log.deep_view();
            log.push(payload);
            assert(log.deep_view() =~~= prev_log.push(stream@[i as int]));
            assert(stream@.subrange(c0, i + 1) =~= stream@.subrange(c0, i as int).push(
                stream@[i as int],
            ));
            assert(log.deep_view() =~~= old(log).deep_view() + stream@.subrange(c0, i + 1));
            let crash_here = match fail_at {
                Some(f) => i == f,
                None => false,
            };
            if crash_here {
                return true;
            }
            self.cursor = i + 1;
        }
    }
}

/// At-least-once delivery: a consumer that crashed after processing message
/// `f` but before acknowledging it resumes at `f`; the two runs together
/// process every message from the starting cursor to the end of the stream at
/// least once (message `f` twice).
pub proof fn lemma_at_least_once(msgs: Seq<Seq<u8>>, c0: int, f: int)
    requires
        0 <= c0 <= f < msgs.len(),
    ensures
        forall|i: int|
            c0 <= i < msgs.len() ==> #[trigger] (msgs.subrange(c0, f + 1) + msgs.subrange(
                f,
                msgs.len() as int,
            )).contains(msgs[i]),
        (msgs.subrange(c0, f + 1) + msgs.subrange(f, msgs.len() as int)).len() == (msgs.len() - c0)
            + 1,
{
    let combined = msgs.subrange(c0, f + 1) + msgs.subrange(f, msgs.len() as int);
    assert forall|i: int| c0 <= i < msgs.len() implies #[trigger] combined.contains(msgs[i]) by {
        if i <= f {
            assert(combined[i - c0] == msgs[i]);
        } else {
            assert(combined[(f + 1 - c0) + (i - f)] == msgs[i]);
        }
    }
}

} // verus!
