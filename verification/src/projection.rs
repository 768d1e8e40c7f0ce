//! Projection workers: folding event streams into derived state.
//!
//! Each worker owns one durable consumer on one stream and folds its events
//! with idempotent operations only. The step functions here are the whole
//! fold; the surrounding task — pulling a message, calling the step,
//! acknowledging on success, stopping on failure for an external supervisor
//! to restart — performs no logic of its own. Quest events are attributed to
//! the quest's author as resolved at processing time, which the caller looks
//! up and passes in; stale attribution after an authorship change is a known,
//! accepted consequence.

use vstd::prelude::*;

use crate::event::{ProgressionEvent, QuestEvent, UserEvent};
use crate::ids::UserId;
use crate::progression::{spec_cleanup, InMemoryProgressionService};
use crate::statistics::{MetricKey, StatisticsStore};

verus! {

/// The statistics fold of one progression event: an answer submission —
/// correct or not — counts one `answers_submitted` for its user; a
/// completion counts one `quests_completed`.
pub fn apply_progression_event(stats: &mut StatisticsStore, event: &ProgressionEvent)
    ensures
        ({
            let (user, key) = match *event {
                ProgressionEvent::AnswerSubmitted { user_id, .. } => (
                    user_id,
                    MetricKey::AnswersSubmitted,
                ),
                ProgressionEvent::QuestCompleted { user_id, .. } => (
                    user_id,
                    MetricKey::QuestsCompleted,
                ),
            };
            &&& final(stats).value_spec(user, key) == old(stats).value_spec(user, key) + 1
            &&& forall|u: UserId, k: MetricKey|
                (u, k) != (user, key) ==> #[trigger] final(stats).value_spec(u, k) == old(
                    stats,
                ).value_spec(u, k)
        }),
{
    match event {
        ProgressionEvent::AnswerSubmitted { user_id, .. } => {
            stats.stat_plus_one(*user_id, MetricKey::AnswersSubmitted);
        },
        ProgressionEvent::QuestCompleted { user_id, .. } => {
            stats.stat_plus_one(*user_id, MetricKey::QuestsCompleted);
        },
    }
}

/// The statistics fold of one quest lifecycle event, attributed to the
/// quest's author as resolved at processing time. With no author resolved,
/// nothing is counted.
pub fn apply_quest_event(stats: &mut StatisticsStore, event: &QuestEvent, author: Option<UserId>)
    ensures
        author is None ==> *final(stats) == *old(stats),
        author matches Some(a) ==> ({
            let key = match *event {
                QuestEvent::Created(_) => MetricKey::QuestsCreated,
                QuestEvent::Modified(_) => MetricKey::QuestsModified,
                QuestEvent::Deleted(_) => MetricKey::QuestsDeleted,
            };
            &&& final(stats).value_spec(a, key) == old(stats).value_spec(a, key) + 1
            &&& forall|u: UserId, k: MetricKey|
                (u, k) != (a, key) ==> #[trigger] final(stats).value_spec(u, k) == old(
                    stats,
                ).value_spec(u, k)
        }),
{
    let a = match author {
        Some(a) => a,
        None => {
            return ;
        },
    };
    match event {
        QuestEvent::Created(_) => {
            stats.stat_plus_one(a, MetricKey::QuestsCreated);
        },
        QuestEvent::Modified(_) => {
            stats.stat_plus_one(a, MetricKey::QuestsModified);
        },
        QuestEvent::Deleted(_) => {
            stats.stat_plus_one(a, MetricKey::QuestsDeleted);
        },
    }
}

/// The cleanup fold of one user event: a deletion removes every progression
/// row of that user — idempotent, since deleting an absent row is a no-op —
/// and a creation changes nothing.
pub fn apply_user_event(store: &mut InMemoryProgressionService, event: &UserEvent)
    ensures
        (match *event {
            UserEvent::Deleted(u) => final(store)@ == spec_cleanup(old(store)@, u),
            UserEvent::Created(_) => final(store)@ == old(store)@,
        }),
{
    match event {
        UserEvent::Deleted(user_id) => {
            store.delete_user_rows(user_id);
        },
        UserEvent::Created(_) => {},
    }
}

} // verus!
