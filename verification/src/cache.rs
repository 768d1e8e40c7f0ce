//! The per-process content cache.
//!
//! `ContextKey → Option<QuestContext>` — `Some` is generated content, `None`
//! a confirmed-absent result, and both are cached so a key is generated at
//! most once per fill. The cache is unbounded and lives for the process.
//!
//! Race policy: concurrent misses on the same key may each invoke the
//! generator and each record a result, last write wins. That is acceptable
//! only because generation is deterministic — both writers hold the same
//! value — and is explicitly not a single-flight guarantee.

use vstd::prelude::*;

use crate::context::{ContextKey, QuestContext};

verus! {

/// The view of one cached value: `None` is confirmed absence.
pub open spec fn entry_view(v: Option<QuestContext>) -> Option<(Seq<char>, Seq<char>)> {
    match v {
        Some(ctx) => Some(ctx@),
        None => None,
    }
}

/// The map a record of fills denotes; a later fill for a key wins.
pub open spec fn map_of(s: Seq<(ContextKey, Option<QuestContext>)>) -> Map<
    ContextKey,
    Option<(Seq<char>, Seq<char>)>,
>
    decreases s.len(),
{
    if s.len() == 0 {
        Map::empty()
    } else {
        map_of(s.drop_last()).insert(s.last().0, entry_view(s.last().1))
    }
}

/// A key filled nowhere is not in the map.
proof fn lemma_map_of_absent(s: Seq<(ContextKey, Option<QuestContext>)>, k: ContextKey)
    requires
        forall|i: int| 0 <= i < s.len() ==> (#[trigger] s[i]).0 != k,
    ensures
        !map_of(s).dom().contains(k),
    decreases s.len(),
{
    if s.len() > 0 {
        assert(s.last().0 != k);
        lemma_map_of_absent(s.drop_last(), k);
    }
}

/// The map holds, for each filled key, the value of its last fill.
proof fn lemma_map_of_last_match(
    s: Seq<(ContextKey, Option<QuestContext>)>,
    i: int,
    k: ContextKey,
)
    requires
        0 <= i < s.len(),
        s[i].0 == k,
        forall|j: int| i < j < s.len() ==> (#[trigger] s[j]).0 != k,
    ensures
        map_of(s).dom().contains(k),
        map_of(s)[k] == entry_view(s[i].1),
    decreases s.len(),
{
    if i == s.len() - 1 {
        assert(s.last() == s[i]);
    } else {
        assert(s.last().0 != k);
        lemma_map_of_last_match(s.drop_last(), i, k);
    }
}

/// What a cache lookup decides: answer from the cache, or invoke the
/// generator for this key.
pub enum CacheDecision {
    /// The key is cached; answer with this (possibly confirmed-absent) value.
    Hit(Option<QuestContext>),
    /// The key is not cached; the generator must run.
    MustGenerate,
}

/// Memoizes generated content per `(quest, user)` key.
pub struct InMemoryQuestContextCache {
    fills: Vec<(ContextKey, Option<QuestContext>)>,
}

impl View for InMemoryQuestContextCache {
    type V = Map<ContextKey, Option<(Seq<char>, Seq<char>)>>;

    closed spec fn view(&self) -> Map<ContextKey, Option<(Seq<char>, Seq<char>)>> {
        map_of(self.fills@)
    }
}

impl InMemoryQuestContextCache {
    /// An empty cache.
    pub fn new() -> (r: InMemoryQuestContextCache)
        ensures
            r@ == Map::<ContextKey, Option<(Seq<char>, Seq<char>)>>::empty(),
    {
        InMemoryQuestContextCache { fills: Vec::new() }
    }

    /// The read path of `get_context`: a cached key — generated or confirmed
    /// absent — is answered from the cache without invoking the generator;
    /// only an uncached key sends the caller to the generator.
    pub fn lookup(&self, key: &ContextKey) -> (r: CacheDecision)
        ensures
            r is MustGenerate <==> !self@.dom().contains(*key),
            r matches CacheDecision::Hit(v) ==> self@.dom().contains(*key) && entry_view(v)
                == self@[*key],
    {
        let n = self.fills.len();
        let mut i: usize = n;
        while i > 0
            invariant
                i <= n,
                n == self.fills@.len(),
                forall|j: int| i <= j < n ==> (#[trigger] self.fills@[j]).0 != *key,
            decreases i,
        {
            i -= 1;
            if self.fills[i].0 == *key {
                let v = match &self.fills[i].1 {
                    Some(ctx) => Some(ctx.clone()),
                    None => None,
                };
                proof {
                    lemma_map_of_last_match(self.fills@, i as int, *key);
                }
                return CacheDecision::Hit(v);
            }
        }
        proof {
            lemma_map_of_absent(self.fills@, *key);
        }
        CacheDecision::MustGenerate
    }

    /// The write path of `get_context`: records the generator's result for
    /// the key, present or confirmed absent, replacing any concurrent
    /// writer's value (last write wins).
    pub fn record(&mut self, key: ContextKey, value: Option<QuestContext>)
        ensures
            final(self)@ == old(self)@.insert(key, entry_view(value)),
    {
        let ghost v = entry_view(value);
        self.fills.push((key, value));
        proof {
            assert(self.fills@.drop_last() == old(self).fills@);
            assert(self.fills@.last() == (key, self.fills@.last().1));
            assert(entry_view(self.fills@.last().1) == v);
        }
    }
}

/// Cache correctness: a key not yet cached forces a generation — its lookup
/// must miss — and once any result for it is recorded, present or confirmed
/// absent, every later lookup answers with exactly that result, so the
/// generator runs at most once per fill for a key.
pub proof fn lemma_cache_correctness(
    m: Map<ContextKey, Option<(Seq<char>, Seq<char>)>>,
    k: ContextKey,
    v: Option<(Seq<char>, Seq<char>)>,
)
    requires
        !m.dom().contains(k),
    ensures
        m.insert(k, v).dom().contains(k),
        m.insert(k, v)[k] == v,
{
}

} // verus!
