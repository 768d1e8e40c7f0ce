//! Derived statistics: per-user counters, folded from event streams.
//!
//! Counters are upserted additively — insert-or-add — so replaying an event
//! after a crash-before-acknowledgment re-applies safely for these monotonic,
//! non-decreasing counters; it is not deduplicated against the same logical
//! event delivered twice, which at-least-once delivery permits.

use vstd::prelude::*;

use crate::fmtnum::{spec_decimal, u64_to_decimal};
use crate::ids::UserId;
use crate::quest::str_eq;

verus! {

/// The metric keys the statistics projection maintains.
#[derive(Clone, Copy, PartialEq, Eq, Structural, Hash, Debug)]
pub enum MetricKey {
    AnswersSubmitted,
    QuestsCompleted,
    QuestsCreated,
    QuestsModified,
    QuestsDeleted,
}

impl MetricKey {
    /// The storage key text of this metric.
    pub open spec fn key_text_spec(&self) -> Seq<char> {
        match self {
            MetricKey::AnswersSubmitted => "answers_submitted"@,
            MetricKey::QuestsCompleted => "quests_completed"@,
            MetricKey::QuestsCreated => "quests_created"@,
            MetricKey::QuestsModified => "quests_modified"@,
            MetricKey::QuestsDeleted => "quests_deleted"@,
        }
    }

    /// The storage key text of this metric.
    pub fn key_text(&self) -> (r: &'static str)
        ensures
            r@ == self.key_text_spec(),
    {
        match self {
            MetricKey::AnswersSubmitted => "answers_submitted",
            MetricKey::QuestsCompleted => "quests_completed",
            MetricKey::QuestsCreated => "quests_created",
            MetricKey::QuestsModified => "quests_modified",
            MetricKey::QuestsDeleted => "quests_deleted",
        }
    }
}

/// One reported metric: its storage key text and its value text.
pub struct Metric {
    key: String,
    pub value: String,
}

impl View for Metric {
    type V = (Seq<char>, Seq<char>);

    closed spec fn view(&self) -> (Seq<char>, Seq<char>) {
        (self.key@, self.value@)
    }
}

impl Metric {
    /// Packs a key text and a value text.
    pub fn new(key: String, value: String) -> (r: Metric)
        ensures
            r@ == (key@, value@),
    {
        Metric { key, value }
    }

    /// The human-readable name of the metric, or a fixed fallback for a key
    /// this projection does not maintain.
    pub fn get_display_name(&self) -> (r: &'static str)
        ensures
            r@ == (if self@.0 == "answers_submitted"@ {
                "Total answers submitted"@
            } else if self@.0 == "quests_completed"@ {
                "Total quests completed"@
            } else if self@.0 == "quests_created"@ {
                "Total quests created"@
            } else if self@.0 == "quests_modified"@ {
                "Total quests modified"@
            } else if self@.0 == "quests_deleted"@ {
                "Total quests deleted"@
            } else {
                "unknown_metric"@
            }),
    {
        let key = self.key.as_str();
        if str_eq(key, "answers_submitted") {
            "Total answers submitted"
        } else if str_eq(key, "quests_completed") {
            "Total quests completed"
        } else if str_eq(key, "quests_created") {
            "Total quests created"
        } else if str_eq(key, "quests_modified") {
            "Total quests modified"
        } else if str_eq(key, "quests_deleted") {
            "Total quests deleted"
        } else {
            "unknown_metric"
        }
    }
}

/// How many of the recorded upserts hit counter `k`.
pub open spec fn count_of(s: Seq<(UserId, MetricKey)>, k: (UserId, MetricKey)) -> int
    decreases s.len(),
{
    if s.len() == 0 {
        0int
    } else {
        count_of(s.drop_last(), k) + if s.last() == k {
            1int
        } else {
            0int
        }
    }
}

/// A counter counts at most one per recorded upsert.
proof fn lemma_count_le_len(s: Seq<(UserId, MetricKey)>, k: (UserId, MetricKey))
    ensures
        0 <= count_of(s, k) <= s.len(),
    decreases s.len(),
{
    if s.len() > 0 {
        lemma_count_le_len(s.drop_last(), k);
    }
}

/// The per-user statistics counters.
pub struct StatisticsStore {
    upserts: Vec<(UserId, MetricKey)>,
}

impl StatisticsStore {
    /// The current value of counter `(user, key)`.
    pub closed spec fn value_spec(&self, user: UserId, key: MetricKey) -> int {
        count_of(self.upserts@, (user, key))
    }

    /// An empty store: every counter is zero.
    pub fn new() -> (r: StatisticsStore)
        ensures
            forall|u: UserId, k: MetricKey| #[trigger] r.value_spec(u, k) == 0,
    {
        StatisticsStore { upserts: Vec::new() }
    }

    /// The additive upsert: adds one to counter `(user, key)` and leaves
    /// every other counter unchanged. Counters never decrease.
    pub fn stat_plus_one(&mut self, user: UserId, key: MetricKey)
        ensures
            final(self).value_spec(user, key) == old(self).value_spec(user, key) + 1,
            forall|u: UserId, k: MetricKey|
                (u, k) != (user, key) ==> #[trigger] final(self).value_spec(u, k) == old(
                    self,
                ).value_spec(u, k),
    {
        self.upserts.push((user, key));
        proof {
            assert forall|u: UserId, k: MetricKey| true implies #[trigger] self.value_spec(u, k)
                == old(self).value_spec(u, k) + if (u, k) == (user, key) {
                1int
            } else {
                0int
            } by {
                assert(self.upserts@.drop_last() == old(self).upserts@);
                assert(self.upserts@.last() == (user, key));
            }
        }
    }

    /// The current value of counter `(user, key)`.
    pub fn get_value(&self, user: &UserId, key: MetricKey) -> (r: u64)
        ensures
            r as int == self.value_spec(*user, key),
    {
        let n = self.upserts.len();
        let mut acc: u64 = 0;
        let mut i: usize = 0;
        proof {
            assert(self.upserts@.subrange(0, 0) =~= Seq::<(UserId, MetricKey)>::empty());
        }
        while i < n
            invariant
                i <= n,
                n == self.upserts@.len(),
                acc as int == count_of(self.upserts@.subrange(0, i as int), (*user, key)),
                acc <= i,
            decreases n - i,
        {
            proof {
                assert(self.upserts@.subrange(0, i + 1).drop_last() =~= self.upserts@.subrange(
                    0,
                    i as int,
                ));
                assert(self.upserts@.subrange(0, i + 1).last() == self.upserts@[i as int]);
            }
            if self.upserts[i].0 == *user && self.upserts[i].1 == key {
                assert(self.upserts@[i as int] == (*user, key));
                acc += 1;
            } else {
                assert(self.upserts@[i as int] != (*user, key));
            }
            i += 1;
        }
        proof {
            assert(self.upserts@.subrange(0, n as int) =~= self.upserts@);
        }
        acc
    }

    /// The metric rows reported for one user: one row per maintained key
    /// with a positive counter, in a fixed key order, the value rendered in
    /// decimal.
    pub fn get_user_metrics(&self, user: &UserId) -> (r: Vec<Metric>)
        ensures
            r@.len() == spec_user_metrics(self, *user).len(),
            forall|i: int|
                0 <= i < r@.len() ==> #[trigger] r@[i]@ == spec_user_metrics(self, *user)[i],
    {
        let keys: [MetricKey; 5] = [
            MetricKey::AnswersSubmitted,
            MetricKey::QuestsCompleted,
            MetricKey::QuestsCreated,
            MetricKey::QuestsModified,
            MetricKey::QuestsDeleted,
        ];
        let mut out: Vec<Metric> = Vec::new();
        let mut i: usize = 0;
        proof {
            assert(metric_rows_upto(self, *user, 0) =~= Seq::<(Seq<char>, Seq<char>)>::empty());
        }
        while i < 5
            invariant
                i <= 5,
                keys@ =~= seq![
                    MetricKey::AnswersSubmitted,
                    MetricKey::QuestsCompleted,
                    MetricKey::QuestsCreated,
                    MetricKey::QuestsModified,
                    MetricKey::QuestsDeleted,
                ],
                out@.len() == metric_rows_upto(self, *user, i as int).len(),
                forall|j: int|
                    0 <= j < out@.len() ==> #[trigger] out@[j]@ == metric_rows_upto(
                        self,
                        *user,
                        i as int,
                    )[j],
            decreases 5 - i,
        {
            let key = keys[i];
            assert(key == nth_metric_key(i as int));
            let value = self.get_value(user, key);
            proof {
                assert(metric_rows_upto(self, *user, i + 1) =~= metric_rows_upto(
                    self,
                    *user,
                    i as int,
                ) + metric_row(self, *user, nth_metric_key(i as int)));
            }
            if value > 0 {
                out.push(Metric::new(key.key_text().to_owned(), u64_to_decimal(value)));
            }
            i += 1;
        }
        proof {
            assert(metric_rows_upto(self, *user, 5) =~= spec_user_metrics(self, *user));
        }
        out
    }
}

/// The `i`-th maintained metric key, in report order.
pub open spec fn nth_metric_key(i: int) -> MetricKey {
    if i == 0 {
        MetricKey::AnswersSubmitted
    } else if i == 1 {
        MetricKey::QuestsCompleted
    } else if i == 2 {
        MetricKey::QuestsCreated
    } else if i == 3 {
        MetricKey::QuestsModified
    } else {
        MetricKey::QuestsDeleted
    }
}

/// The report row of one counter: nothing for zero, else key and decimal
/// value texts.
pub open spec fn metric_row(store: &StatisticsStore, user: UserId, key: MetricKey) -> Seq<
    (Seq<char>, Seq<char>),
> {
    if store.value_spec(user, key) > 0 {
        seq![(key.key_text_spec(), spec_decimal(store.value_spec(user, key) as nat))]
    } else {
        Seq::empty()
    }
}

/// The report rows of the first `i` maintained keys.
pub open spec fn metric_rows_upto(store: &StatisticsStore, user: UserId, i: int) -> Seq<
    (Seq<char>, Seq<char>),
>
    decreases i,
{
    if i <= 0 {
        Seq::empty()
    } else {
        metric_rows_upto(store, user, i - 1) + metric_row(store, user, nth_metric_key(i - 1))
    }
}

/// The full metric report of one user.
pub open spec fn spec_user_metrics(store: &StatisticsStore, user: UserId) -> Seq<
    (Seq<char>, Seq<char>),
> {
    metric_rows_upto(store, user, 5)
}

} // verus!
