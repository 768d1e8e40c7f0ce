//! Progression: which user has completed which quest.
//!
//! A completion row exists at most logically once — the store is a set of
//! `(user, quest)` pairs. Submission is idempotent per pair: once a correct
//! answer completes a pair, any further submission for it reports no effect.
//! Cleanup after a user deletion removes every row of that user and is a
//! no-op when replayed.

use vstd::prelude::*;

use crate::error::Error;
use crate::ids::{QuestId, UserId};
use crate::quest::QuestService;

verus! {

/// What one submission does to the set of completed pairs, and what it
/// reports: an already-completed pair reports no effect and the verdict is
/// not even asked for; otherwise the oracle's verdict is reported, and a
/// correct one completes the pair.
pub open spec fn spec_submit(
    s: Set<(UserId, QuestId)>,
    u: UserId,
    q: QuestId,
    verdict: Option<bool>,
) -> (Set<(UserId, QuestId)>, Option<bool>) {
    if s.contains((u, q)) {
        (s, None)
    } else if verdict == Some(true) {
        (s.insert((u, q)), Some(true))
    } else {
        (s, verdict)
    }
}

/// What a user-deletion cleanup leaves: every row of other users, none of
/// the deleted user's.
pub open spec fn spec_cleanup(s: Set<(UserId, QuestId)>, u: UserId) -> Set<(UserId, QuestId)> {
    Set::new(|p: (UserId, QuestId)| s.contains(p) && p.0 != u)
}

/// Idempotent cleanup: after cleaning up user `u`, no row of `u` remains,
/// and replaying the same cleanup changes nothing.
pub proof fn lemma_cleanup_idempotent(s: Set<(UserId, QuestId)>, u: UserId)
    ensures
        forall|q: QuestId| !spec_cleanup(s, u).contains((u, q)),
        spec_cleanup(spec_cleanup(s, u), u) == spec_cleanup(s, u),
{
    assert(spec_cleanup(spec_cleanup(s, u), u) =~= spec_cleanup(s, u));
}

/// The in-process progression store.
pub struct InMemoryProgressionService {
    rows: Vec<(UserId, QuestId)>,
}

impl View for InMemoryProgressionService {
    type V = Set<(UserId, QuestId)>;

    closed spec fn view(&self) -> Set<(UserId, QuestId)> {
        Set::new(
            |p: (UserId, QuestId)|
                exists|i: int| 0 <= i < self.rows@.len() && #[trigger] self.rows@[i] == p,
        )
    }
}

impl InMemoryProgressionService {
    /// An empty store.
    pub fn new() -> (r: InMemoryProgressionService)
        ensures
            r@ == Set::<(UserId, QuestId)>::empty(),
    {
        let r = InMemoryProgressionService { rows: Vec::new() };
        proof {
            assert(r@ =~= Set::<(UserId, QuestId)>::empty());
        }
        r
    }

    /// A store holding exactly the given completion rows.
    pub fn with(rows: Vec<(UserId, QuestId)>) -> (r: InMemoryProgressionService)
        ensures
            forall|p: (UserId, QuestId)| #[trigger] r@.contains(p) <==> rows@.contains(p),
    {
        let r = InMemoryProgressionService { rows };
        proof {
            assert forall|p: (UserId, QuestId)| #[trigger] r@.contains(p) <==> r.rows@.contains(
                p,
            ) by {
            }
        }
        r
    }

    /// Whether the pair is completed. The in-process store cannot fail.
    pub fn has_user_completed_quest(&self, user: &UserId, quest: &QuestId) -> (r: Result<
        bool,
        Error,
    >)
        ensures
            r matches Ok(b) && b == self@.contains((*user, *quest)),
    {
        let n = self.rows.len();
        let mut i: usize = 0;
        while i < n
            invariant
                i <= n,
                n == self.rows@.len(),
                forall|j: int| 0 <= j < i ==> #[trigger] self.rows@[j] != (*user, *quest),
            decreases n - i,
        {
            if self.rows[i].0 == *user && self.rows[i].1 == *quest {
                assert(self.rows@[i as int] == (*user, *quest));
                return Ok(true);
            }
            i += 1;
        }
        assert(!self@.contains((*user, *quest)));
        Ok(false)
    }

    /// Applies the outcome of one submission, the oracle's verdict given:
    /// exactly the `spec_submit` transition.
    pub fn record_submission(&mut self, user: &UserId, quest: &QuestId, verdict: Option<bool>) -> (
        r: Option<bool>)
        ensures
            (final(self)@, r) == spec_submit(old(self)@, *user, *quest, verdict),
    {
        let already = match self.has_user_completed_quest(user, quest) {
            Ok(b) => b,
            Err(_) => {
                return None;
            },
        };
        if already {
            return None;
        }
        let correct = match verdict {
            Some(c) => c,
            None => {
                return None;
            },
        };
        if correct {
            self.rows.push((*user, *quest));
            proof {
                assert forall|p: (UserId, QuestId)| #[trigger] self@.contains(p) <==> old(
                    self,
                )@.insert((*user, *quest)).contains(p) by {
                    if p == (*user, *quest) {
                        assert(self.rows@[self.rows@.len() - 1] == p);
                    } else if self@.contains(p) {
                        let i = choose|i: int|
                            0 <= i < self.rows@.len() && #[trigger] self.rows@[i] == p;
                        assert(old(self).rows@[i] == p);
                    } else if old(self)@.contains(p) {
                        let i = choose|i: int|
                            0 <= i < old(self).rows@.len() && #[trigger] old(self).rows@[i] == p;
                        assert(self.rows@[i] == p);
                    }
                }
                assert(self@ =~= old(self)@.insert((*user, *quest)));
            }
            return Some(true);
        }
        Some(false)
    }

    /// The full submission flow against a quest service: an already-completed
    /// pair reports no effect without consulting the oracle; otherwise the
    /// oracle's verdict decides, and only a correct answer completes the
    /// pair. Whatever the oracle answers, the store changes exactly by the
    /// `spec_submit` transition; an oracle failure changes nothing.
    pub fn submit_answer<Q: QuestService>(
        &mut self,
        quest_service: &Q,
        user: &UserId,
        quest: &QuestId,
        answer: &str,
    ) -> (r: Result<Option<bool>, Error>)
        ensures
            old(self)@.contains((*user, *quest)) ==> (r matches Ok(o) && o is None && final(self)@
                == old(self)@),
            r matches Ok(o) ==> (final(self)@, o) == spec_submit(old(self)@, *user, *quest, o),
            r is Err ==> final(self)@ == old(self)@,
    {
        let already = match self.has_user_completed_quest(user, quest) {
            Ok(b) => b,
            Err(e) => {
                return Err(e);
            },
        };
        if already {
            return Ok(None);
        }
        let verdict = match quest_service.verify_answer(quest, user, answer) {
            Ok(v) => v,
            Err(e) => {
                return Err(e);
            },
        };
        Ok(self.record_submission(user, quest, verdict))
    }

    /// Removes every completion row of the given user: exactly the
    /// `spec_cleanup` transition, so replaying a deletion is a no-op.
    pub fn delete_user_rows(&mut self, user: &UserId)
        ensures
            final(self)@ == spec_cleanup(old(self)@, *user),
    {
        let n = self.rows.len();
        let mut kept: Vec<(UserId, QuestId)> = Vec::new();
        let mut i: usize = 0;
        while i < n
            invariant
                i <= n,
                n == self.rows@.len(),
                forall|k: int|
                    0 <= k < kept@.len() ==> (#[trigger] kept@[k]).0 != *user && (exists|j: int|
                        0 <= j < i && self.rows@[j] == kept@[k]),
                forall|j: int|
                    0 <= j < i && (#[trigger] self.rows@[j]).0 != *user ==> kept@.contains(
                        self.rows@[j],
                    ),
            decreases n - i,
        {
            if !(self.rows[i].0 == *user) {
                let ghost prev_kept = kept@;
                kept.push((self.rows[i].0, self.rows[i].1));
                proof {
                    assert(self.rows@[i as int] == kept@[kept@.len() - 1]);
                    assert forall|j: int|
                        0 <= j < i + 1 && (#[trigger] self.rows@[j]).0 != *user implies kept@
                        .contains(self.rows@[j]) by {
                        if j == i {
                            assert(kept@[kept@.len() - 1] == self.rows@[j]);
                        } else {
                            assert(prev_kept.contains(self.rows@[j]));
                            let k = choose|k: int|
                                0 <= k < prev_kept.len() && prev_kept[k] == self.rows@[j];
                            assert(kept@[k] == self.rows@[j]);
                        }
                    }
                }
            }
            i += 1;
        }
        let ghost prior = self@;
        self.rows = kept;
        proof {
            assert forall|p: (UserId, QuestId)| #[trigger] self@.contains(p) <==> spec_cleanup(
                prior,
                *user,
            ).contains(p) by {
                if self@.contains(p) {
                    let k = choose|k: int|
                        0 <= k < self.rows@.len() && #[trigger] self.rows@[k] == p;
                    assert(self.rows@.contains(p));
                }
                if spec_cleanup(prior, *user).contains(p) {
                    let j = choose|j: int|
                        0 <= j < old(self).rows@.len() && #[trigger] old(self).rows@[j] == p;
                    assert(self.rows@.contains(p));
                    let k = choose|k: int|
                        0 <= k < self.rows@.len() && #[trigger] self.rows@[k] == p;
                }
            }
            assert(self@ =~= spec_cleanup(prior, *user));
        }
    }
}

/// Progression idempotence: a correct submission completes the pair, and any
/// second submission for it — the same correct answer included — changes
/// nothing and reports no effect.
pub proof fn lemma_progression_idempotent(
    s: Set<(UserId, QuestId)>,
    u: UserId,
    q: QuestId,
    second_verdict: Option<bool>,
)
    ensures
        ({
            let (s1, r1) = spec_submit(s, u, q, Some(true));
            let (s2, r2) = spec_submit(s1, u, q, second_verdict);
            &&& s1.contains((u, q))
            &&& s2 == s1
            &&& r2 is None
        }),
{
}

} // verus!
