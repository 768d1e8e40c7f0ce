//! Per-user generated quest content and the generator program protocol.
//!
//! An external per-quest program, invoked with the user's identifier in
//! canonical text form as its sole argument, writes `<input>\0<answer>` to
//! its standard output and exits 0. What is verified here is the core's side
//! of that protocol: building the invocation, and interpreting the outcome —
//! a missing program is content absence, a non-zero exit is a hard failure
//! with full diagnostic context, and any output without the single NUL
//! separator or with invalid encoding is an invalid response.

use vstd::prelude::*;
use vstd::string::StringExecFns;
use vstd::utf8::{encode_utf8, valid_utf8};

use crate::error::Error;
use crate::ids::{spec_canonical_text, QuestId, UserId};

verus! {

/// The generated content for one (quest, user) pair: the quest input shown
/// to the user, and the answer that completes the quest.
#[derive(Debug)]
pub struct QuestContext {
    input: String,
    answer: String,
}

impl View for QuestContext {
    type V = (Seq<char>, Seq<char>);

    closed spec fn view(&self) -> (Seq<char>, Seq<char>) {
        (self.input@, self.answer@)
    }
}

impl Clone for QuestContext {
    fn clone(&self) -> (r: Self)
        ensures
            r == *self,
    {
        QuestContext { input: self.input.clone(), answer: self.answer.clone() }
    }
}

impl QuestContext {
    /// Packs an input and its answer.
    pub fn new(input: String, answer: String) -> (r: QuestContext)
        ensures
            r@ == (input@, answer@),
    {
        QuestContext { input, answer }
    }

    /// The quest input.
    pub fn input(&self) -> (r: &str)
        ensures
            r@ == self@.0,
    {
        self.input.as_str()
    }

    /// The answer.
    pub fn answer(&self) -> (r: &str)
        ensures
            r@ == self@.1,
    {
        self.answer.as_str()
    }

    /// Surrenders the input, dropping the answer.
    pub fn into_input(self) -> (r: String)
        ensures
            r@ == self@.0,
    {
        self.input
    }

    /// Surrenders the answer, dropping the input.
    pub fn into_answer(self) -> (r: String)
        ensures
            r@ == self@.1,
    {
        self.answer
    }
}

/// The cache key of one generated-content instance.
#[derive(Clone, Copy, PartialEq, Eq, Structural, Hash, Debug)]
pub struct ContextKey {
    pub quest: QuestId,
    pub user: UserId,
}

impl ContextKey {
    /// The key for the given pair.
    pub fn new(quest: QuestId, user: UserId) -> (r: ContextKey)
        ensures
            r.quest == quest && r.user == user,
    {
        ContextKey { quest, user }
    }
}

/// What running (or failing to run) a generator program produced.
pub enum GeneratorOutcome {
    /// The program named for the quest is not on disk.
    NotFound,
    /// The program ran; `exit_code` is `None` when it was killed by a signal.
    Ran { exit_code: Option<i32>, stdout: Vec<u8> },
}

/// Relies on String::from_utf8: succeeds exactly on valid UTF-8, and the
/// returned string's UTF-8 encoding is the input bytes.
#[verifier::external_body]
fn bytes_to_string(b: Vec<u8>) -> (r: Option<String>)
    ensures
        r is Some <==> valid_utf8(b@),
        r matches Some(s) ==> encode_utf8(s@) == b@,
{
    String::from_utf8(b).ok()
}

/// Splits a byte string at its first NUL byte, if any.
fn split_once_nul(b: &[u8]) -> (r: Option<(Vec<u8>, Vec<u8>)>)
    ensures
        r is Some <==> (exists|i: int| 0 <= i < b@.len() && #[trigger] b@[i] == 0),
        r matches Some((x, y)) ==> ({
            let i = x@.len() as int;
            &&& 0 <= i < b@.len()
            &&& b@[i] == 0
            &&& (forall|j: int| 0 <= j < i ==> b@[j] != 0)
            &&& x@ == b@.subrange(0, i)
            &&& y@ == b@.subrange(i + 1, b@.len() as int)
        }),
{
    let n = b.len();
    let mut i: usize = 0;
    while i < n
        invariant
            i <= n,
            n == b@.len(),
            forall|j: int| 0 <= j < i ==> b@[j] != 0,
        decreases n - i,
    {
        if b[i] == 0 {
            let mut x: Vec<u8> = Vec::new();
            let mut j: usize = 0;
            while j < i
                invariant
                    j <= i < n,
                    n == b@.len(),
                    x@ =~= b@.subrange(0, j as int),
                decreases i - j,
            {
                x.push(b[j]);
                assert(x@ =~= b@.subrange(0, j + 1));
                j += 1;
            }
            let mut y: Vec<u8> = Vec::new();
            let mut k: usize = i + 1;
            while k < n
                invariant
                    i + 1 <= k <= n,
                    n == b@.len(),
                    y@ =~= b@.subrange(i + 1, k as int),
                decreases n - k,
            {
                y.push(b[k]);
                assert(y@ =~= b@.subrange(i + 1, k + 1));
                k += 1;
            }
            assert(x@ =~= b@.subrange(0, i as int));
            assert(y@ =~= b@.subrange(i + 1, n as int));
            return Some((x, y));
        }
        i += 1;
    }
    None
}

/// The stdout of a successful generator run is well-formed when it has a NUL
/// separator and both halves around the first NUL are valid UTF-8.
pub open spec fn well_formed_generator_output(b: Seq<u8>) -> bool {
    exists|i: int|
        {
            &&& 0 <= i < b.len()
            &&& #[trigger] b[i] == 0
            &&& (forall|j: int| 0 <= j < i ==> b[j] != 0)
            &&& valid_utf8(b.subrange(0, i))
            &&& valid_utf8(b.subrange(i + 1, b.len() as int))
        }
}

/// If the first NUL of `b` stands at `i` and either half around it is not
/// valid UTF-8, the output is not well formed.
proof fn lemma_first_nul_unique(b: Seq<u8>, i: int)
    requires
        0 <= i < b.len(),
        b[i] == 0,
        forall|j: int| 0 <= j < i ==> b[j] != 0,
        !valid_utf8(b.subrange(0, i)) || !valid_utf8(b.subrange(i + 1, b.len() as int)),
    ensures
        !well_formed_generator_output(b),
{
    if well_formed_generator_output(b) {
        let i2 = choose|i2: int|
            {
                &&& 0 <= i2 < b.len()
                &&& #[trigger] b[i2] == 0
                &&& (forall|j: int| 0 <= j < i2 ==> b[j] != 0)
                &&& valid_utf8(b.subrange(0, i2))
                &&& valid_utf8(b.subrange(i2 + 1, b.len() as int))
            };
        if i2 < i {
            assert(b[i2] != 0);
        }
        if i2 > i {
            assert(b[i] != 0);
        }
        assert(i2 == i);
    }
}

/// Interprets what the generator program produced for `(quest, user)`:
/// absence for a missing program, a diagnostic hard failure for a non-zero
/// exit, content for well-formed output, and an invalid-response error for
/// anything else.
pub fn interpret_generator_outcome(quest: QuestId, user: UserId, outcome: GeneratorOutcome) -> (r:
    Result<Option<QuestContext>, Error>)
    ensures
        outcome is NotFound <==> (r matches Ok(o) && o is None),
        (match outcome {
            GeneratorOutcome::NotFound => true,
            GeneratorOutcome::Ran { exit_code, stdout } => if exit_code != Some(0i32) {
                r matches Err(e) && e matches Error::QuestContextGeneratorFailed {
                    quest: q,
                    user: u,
                    exit_code: c,
                } && q == quest && u == user && c == exit_code
            } else {
                match r {
                    Ok(o) => o matches Some(ctx) && well_formed_generator_output(stdout@) && ({
                        let i = encode_utf8(ctx@.0).len() as int;
                        &&& 0 <= i < stdout@.len()
                        &&& stdout@[i] == 0
                        &&& (forall|j: int| 0 <= j < i ==> stdout@[j] != 0)
                        &&& encode_utf8(ctx@.0) == stdout@.subrange(0, i)
                        &&& encode_utf8(ctx@.1) == stdout@.subrange(i + 1, stdout@.len() as int)
                    }),
                    Err(e) => e is InvalidResponse && !well_formed_generator_output(stdout@),
                }
            },
        }),
{
    match outcome {
        GeneratorOutcome::NotFound => Ok(None),
        GeneratorOutcome::Ran { exit_code, stdout } => {
            let ok = match exit_code {
                Some(c) => c == 0,
                None => false,
            };
            if !ok {
                return Err(
                    Error::QuestContextGeneratorFailed { quest, user, exit_code },
                );
            }
            let (input_bytes, answer_bytes) = match split_once_nul(stdout.as_slice()) {
                Some(parts) => parts,
                None => {
                    assert(!well_formed_generator_output(stdout@));
                    return Err(Error::InvalidResponse);
                },
            };
            let ghost i = input_bytes@.len() as int;
            let input = match bytes_to_string(input_bytes) {
                Some(s) => s,
                None => {
                    proof {
                        lemma_first_nul_unique(stdout@, i);
                    }
                    return Err(Error::InvalidResponse);
                },
            };
            let answer = match bytes_to_string(answer_bytes) {
                Some(s) => s,
                None => {
                    proof {
                        lemma_first_nul_unique(stdout@, i);
                    }
                    return Err(Error::InvalidResponse);
                },
            };
            let ctx = QuestContext::new(input, answer);
            assert(well_formed_generator_output(stdout@)) by {
                broadcast use vstd::utf8::encode_utf8_valid_utf8;

                assert(0 <= i < stdout@.len() && stdout@[i] == 0 && (forall|j: int|
                    0 <= j < i ==> stdout@[j] != 0) && valid_utf8(stdout@.subrange(0, i))
                    && valid_utf8(stdout@.subrange(i + 1, stdout@.len() as int)));
            }
            Ok(Some(ctx))
        },
    }
}

/// The program path and argument with which the generator for `quest` is
/// invoked on behalf of `user`: the program named by the quest's canonical
/// text inside the generator directory, the user's canonical text as the
/// sole argument.
pub fn generator_invocation(generator_dir: &str, quest: QuestId, user: UserId) -> (r: (
    String,
    String,
))
    ensures
        r.0@ == generator_dir@ + "/"@ + spec_canonical_text(quest@),
        r.1@ == spec_canonical_text(user@),
{
    let mut path = generator_dir.to_owned();
    path.append("/");
    let quest_text = quest.to_text();
    path.append(quest_text.as_str());
    (path, user.to_text())
}

/// Produces per-user quest content by invoking the external per-quest
/// program found in its generator directory. The core decides the program
/// path, the argument, and the meaning of the outcome; spawning and waiting
/// happen outside it, which hands the outcome back to `interpret`.
pub struct QuestContextGenerator {
    generator_dir_path: String,
}

impl QuestContextGenerator {
    /// The directory the generator programs live in.
    pub closed spec fn dir_spec(&self) -> Seq<char> {
        self.generator_dir_path@
    }

    /// A generator rooted at the given directory.
    pub fn new(generator_dir_path: String) -> (r: QuestContextGenerator)
        ensures
            r.dir_spec() == generator_dir_path@,
    {
        QuestContextGenerator { generator_dir_path }
    }

    /// The program path and argument for one `(quest, user)` pair.
    pub fn invocation(&self, quest: QuestId, user: UserId) -> (r: (String, String))
        ensures
            r.0@ == self.dir_spec() + "/"@ + spec_canonical_text(quest@),
            r.1@ == spec_canonical_text(user@),
    {
        generator_invocation(self.generator_dir_path.as_str(), quest, user)
    }

    /// The meaning of what the spawned program produced; see
    /// `interpret_generator_outcome`.
    pub fn interpret(&self, quest: QuestId, user: UserId, outcome: GeneratorOutcome) -> (r: Result<
        Option<QuestContext>,
        Error,
    >)
        ensures
            outcome is NotFound <==> (r matches Ok(o) && o is None),
            (match outcome {
                GeneratorOutcome::NotFound => true,
                GeneratorOutcome::Ran { exit_code, stdout } => if exit_code != Some(0i32) {
                    r matches Err(e) && e matches Error::QuestContextGeneratorFailed {
                        quest: q,
                        user: u,
                        exit_code: c,
                    } && q == quest && u == user && c == exit_code
                } else {
                    match r {
                        Ok(o) => o matches Some(ctx) && well_formed_generator_output(stdout@) && ({
                            let i = encode_utf8(ctx@.0).len() as int;
                            &&& 0 <= i < stdout@.len()
                            &&& stdout@[i] == 0
                            &&& (forall|j: int| 0 <= j < i ==> stdout@[j] != 0)
                            &&& encode_utf8(ctx@.0) == stdout@.subrange(0, i)
                            &&& encode_utf8(ctx@.1) == stdout@.subrange(
                                i + 1,
                                stdout@.len() as int,
                            )
                        }),
                        Err(e) => e is InvalidResponse && !well_formed_generator_output(stdout@),
                    }
                },
            }),
    {
        interpret_generator_outcome(quest, user, outcome)
    }
}

} // verus!
