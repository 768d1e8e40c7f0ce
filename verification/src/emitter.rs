//! The event-deriving decorator around the progression store.
//!
//! After the wrapped mutation reports success, zero, one or two events are
//! derived in a fixed order — `AnswerSubmitted` precedes `QuestCompleted` —
//! and handed back, framed for publication. Publishing happens outside the
//! core; if it fails, the caller surfaces `Error::EventPublishFailed`, which
//! stays distinguishable from the mutation's own failures, and the mutation
//! is not rolled back: delivery is best-effort, at-least-once notification,
//! and consumers tolerate duplicates and gaps across crashes.

use vstd::prelude::*;

use crate::error::Error;
use crate::event::{Event, ProgressionEvent};
use crate::eventbus::prepare_publish;
use crate::ids::{QuestId, UserId};
use crate::progression::{spec_submit, InMemoryProgressionService};
use crate::quest::QuestService;

verus! {

/// The events one submission result derives, in fixed order: an
/// `AnswerSubmitted` for any verdict, followed by a `QuestCompleted` only
/// for a correct one; none when the submission had no effect.
pub open spec fn spec_derived_events(u: UserId, q: QuestId, r: Option<bool>) -> Seq<
    ProgressionEvent,
> {
    match r {
        None => Seq::empty(),
        Some(correct) => if correct {
            seq![
                ProgressionEvent::AnswerSubmitted { user_id: u, correct: true },
                ProgressionEvent::QuestCompleted { user_id: u, quest_id: q },
            ]
        } else {
            seq![ProgressionEvent::AnswerSubmitted { user_id: u, correct: false }]
        },
    }
}

/// Derives the events for one submission result.
pub fn derive_submission_events(user: &UserId, quest: &QuestId, result: Option<bool>) -> (r: Vec<
    ProgressionEvent,
>)
    ensures
        r@ == spec_derived_events(*user, *quest, result),
{
    let mut events: Vec<ProgressionEvent> = Vec::new();
    match result {
        None => {},
        Some(correct) => {
            events.push(ProgressionEvent::AnswerSubmitted { user_id: *user, correct });
            if correct {
                events.push(
                    ProgressionEvent::QuestCompleted { user_id: *user, quest_id: *quest },
                );
            }
        },
    }
    assert(events@ =~= spec_derived_events(*user, *quest, result));
    events
}

/// The progression store wrapped so that every effective submission also
/// yields its framed events, ready to publish.
pub struct ProgressionServiceNatsWrapper {
    inner: InMemoryProgressionService,
}

impl View for ProgressionServiceNatsWrapper {
    type V = Set<(UserId, QuestId)>;

    closed spec fn view(&self) -> Set<(UserId, QuestId)> {
        self.inner@
    }
}

impl ProgressionServiceNatsWrapper {
    /// Wraps a progression store.
    pub fn new(inner: InMemoryProgressionService) -> (r: ProgressionServiceNatsWrapper)
        ensures
            r@ == inner@,
    {
        ProgressionServiceNatsWrapper { inner }
    }

    /// Whether the pair is completed.
    pub fn has_user_completed_quest(&self, user: &UserId, quest: &QuestId) -> (r: Result<
        bool,
        Error,
    >)
        ensures
            r matches Ok(b) && b == self@.contains((*user, *quest)),
    {
        self.inner.has_user_completed_quest(user, quest)
    }

    /// The decorated submission: performs the inner submission, and — only
    /// after it succeeded — derives its events in fixed order and frames
    /// them for publication. The caller publishes each pair and awaits the
    /// broker's acknowledgment; on a publish failure it surfaces
    /// `Error::EventPublishFailed` without rolling the mutation back.
    pub fn submit_answer<Q: QuestService>(
        &mut self,
        quest_service: &Q,
        user: &UserId,
        quest: &QuestId,
        answer: &str,
    ) -> (r: Result<(Option<bool>, Vec<(String, Vec<u8>)>), Error>)
        ensures
            old(self)@.contains((*user, *quest)) ==> (r matches Ok(p) && p.0 is None && p.1@.len()
                == 0 && final(self)@ == old(self)@),
            r matches Ok(p) ==> ({
                let events = spec_derived_events(*user, *quest, p.0);
                &&& (final(self)@, p.0) == spec_submit(old(self)@, *user, *quest, p.0)
                &&& p.1@.len() == events.len()
                &&& forall|i: int|
                    0 <= i < events.len() ==> (#[trigger] p.1@[i]).0@ == events[i].subject_spec()
                        && p.1@[i].1@ == events[i].encoding_spec()
            }),
            r is Err ==> final(self)@ == old(self)@,
    {
        let result = match self.inner.submit_answer(quest_service, user, quest, answer) {
            Ok(o) => o,
            Err(e) => {
                return Err(e);
            },
        };
        let events = derive_submission_events(user, quest, result);
        let n = events.len();
        let mut framed: Vec<(String, Vec<u8>)> = Vec::new();
        let mut i: usize = 0;
        while i < n
            invariant
                i <= n,
                n == events@.len(),
                events@ == spec_derived_events(*user, *quest, result),
                framed@.len() == i,
                forall|j: int|
                    0 <= j < i ==> (#[trigger] framed@[j]).0@ == events@[j].subject_spec()
                        && framed@[j].1@ == events@[j].encoding_spec(),
            decreases n - i,
        {
            framed.push(prepare_publish(&events[i]));
            i += 1;
        }
        Ok((result, framed))
    }
}

/// No double completion: a correct submission completes the pair; any later
/// submission for the pair reports no effect and derives no events at all,
/// so a second `QuestCompleted` is never published.
pub proof fn lemma_no_double_completion(
    s: Set<(UserId, QuestId)>,
    u: UserId,
    q: QuestId,
    second_verdict: Option<bool>,
)
    ensures
        ({
            let (s1, r1) = spec_submit(s, u, q, Some(true));
            let (s2, r2) = spec_submit(s1, u, q, second_verdict);
            &&& s1.contains((u, q))
            &&& s2 == s1
            &&& spec_derived_events(u, q, r2).len() == 0
        }),
{
}

} // verus!
