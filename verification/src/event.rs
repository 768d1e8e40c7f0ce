//! Domain events, their routing subjects, and their wire format.
//!
//! An event is immutable once published and carries only the identifiers its
//! subscribers need. Every event type maps each variant to one fixed dotted
//! routing subject and to one byte encoding; decoding accepts exactly the
//! encodings and recovers the event that produced them.

use vstd::prelude::*;

use crate::codec::{lemma_bytes16_injective, push_bytes16, read_bytes16, spec_bytes16};
use crate::ids::{QuestId, UserId};

verus! {

/// An event about one user account.
#[derive(Clone, Copy, PartialEq, Eq, Structural, Debug)]
pub enum UserEvent {
    Created(UserId),
    Deleted(UserId),
}

/// An event about one quest's lifecycle.
#[derive(Clone, Copy, PartialEq, Eq, Structural, Debug)]
pub enum QuestEvent {
    Created(QuestId),
    Modified(QuestId),
    Deleted(QuestId),
}

/// An event about one user's progress.
#[derive(Clone, Copy, PartialEq, Eq, Structural, Debug)]
pub enum ProgressionEvent {
    AnswerSubmitted { user_id: UserId, correct: bool },
    QuestCompleted { user_id: UserId, quest_id: QuestId },
}

/// A publishable event: a fixed routing subject and an exact wire form.
pub trait Event: Sized {
    /// The routing subject of this event.
    spec fn subject_spec(&self) -> Seq<char>;

    /// The wire form of this event.
    spec fn encoding_spec(&self) -> Seq<u8>;

    /// The byte strings that decode successfully.
    spec fn valid_encoding(b: Seq<u8>) -> bool;

    /// The subject the event is published under.
    fn get_subject(&self) -> (s: &'static str)
        ensures
            s@ == self.subject_spec(),
    ;

    /// Serializes the event.
    fn encode(&self) -> (r: Vec<u8>)
        ensures
            r@ == self.encoding_spec(),
            Self::valid_encoding(r@),
    ;

    /// Deserializes an event; exactly the valid encodings are accepted, and a
    /// decoded event re-encodes to the bytes it came from.
    fn decode(b: &[u8]) -> (r: Option<Self>)
        ensures
            r is Some <==> Self::valid_encoding(b@),
            r matches Some(e) ==> b@ == e.encoding_spec(),
    ;
}

impl Event for UserEvent {
    open spec fn subject_spec(&self) -> Seq<char> {
        match self {
            UserEvent::Created(_) => "user.events.created"@,
            UserEvent::Deleted(_) => "user.events.deleted"@,
        }
    }

    open spec fn encoding_spec(&self) -> Seq<u8> {
        match self {
            UserEvent::Created(u) => seq![0u8] + spec_bytes16(u@),
            UserEvent::Deleted(u) => seq![1u8] + spec_bytes16(u@),
        }
    }

    open spec fn valid_encoding(b: Seq<u8>) -> bool {
        b.len() == 17 && (b[0] == 0 || b[0] == 1)
    }

    fn get_subject(&self) -> (s: &'static str)
        ensures
            s@ == self.subject_spec(),
    {
        match self {
            UserEvent::Created(_) => "user.events.created",
            UserEvent::Deleted(_) => "user.events.deleted",
        }
    }

    fn encode(&self) -> (r: Vec<u8>)
        ensures
            r@ == self.encoding_spec(),
            Self::valid_encoding(r@),
    {
        let mut out: Vec<u8> = Vec::new();
        match self {
            UserEvent::Created(u) => {
                out.push(0);
                push_bytes16(&mut out, u.bits());
            },
            UserEvent::Deleted(u) => {
                out.push(1);
                push_bytes16(&mut out, u.bits());
            },
        }
        assert(out@ =~= self.encoding_spec());
        out
    }

    fn decode(b: &[u8]) -> (r: Option<UserEvent>)
        ensures
            r is Some <==> Self::valid_encoding(b@),
            r matches Some(e) ==> b@ == e.encoding_spec(),
    {
        if b.len() != 17 {
            return None;
        }
        let tag = b[0];
        if tag > 1 {
            return None;
        }
        let bits = read_bytes16(b, 1);
        let u = UserId::from_bits(bits);
        let e = if tag == 0 {
            UserEvent::Created(u)
        } else {
            UserEvent::Deleted(u)
        };
        assert(b@ =~= e.encoding_spec()) by {
            assert(spec_bytes16(bits) =~= b@.subrange(1, 17));
        }
        Some(e)
    }
}

impl Event for QuestEvent {
    open spec fn subject_spec(&self) -> Seq<char> {
        match self {
            QuestEvent::Created(_) => "quest.events.created"@,
            QuestEvent::Modified(_) => "quest.events.modified"@,
            QuestEvent::Deleted(_) => "quest.events.deleted"@,
        }
    }

    open spec fn encoding_spec(&self) -> Seq<u8> {
        match self {
            QuestEvent::Created(q) => seq![0u8] + spec_bytes16(q@),
            QuestEvent::Modified(q) => seq![1u8] + spec_bytes16(q@),
            QuestEvent::Deleted(q) => seq![2u8] + spec_bytes16(q@),
        }
    }

    open spec fn valid_encoding(b: Seq<u8>) -> bool {
        b.len() == 17 && (b[0] == 0 || b[0] == 1 || b[0] == 2)
    }

    fn get_subject(&self) -> (s: &'static str)
        ensures
            s@ == self.subject_spec(),
    {
        match self {
            QuestEvent::Created(_) => "quest.events.created",
            QuestEvent::Modified(_) => "quest.events.modified",
            QuestEvent::Deleted(_) => "quest.events.deleted",
        }
    }

    fn encode(&self) -> (r: Vec<u8>)
        ensures
            r@ == self.encoding_spec(),
            Self::valid_encoding(r@),
    {
        let mut out: Vec<u8> = Vec::new();
        match self {
            QuestEvent::Created(q) => {
                out.push(0);
                push_bytes16(&mut out, q.bits());
            },
            QuestEvent::Modified(q) => {
                out.push(1);
                push_bytes16(&mut out, q.bits());
            },
            QuestEvent::Deleted(q) => {
                out.push(2);
                push_bytes16(&mut out, q.bits());
            },
        }
        assert(out@ =~= self.encoding_spec());
        out
    }

    fn decode(b: &[u8]) -> (r: Option<QuestEvent>)
        ensures
            r is Some <==> Self::valid_encoding(b@),
            r matches Some(e) ==> b@ == e.encoding_spec(),
    {
        if b.len() != 17 {
            return None;
        }
        let tag = b[0];
        if tag > 2 {
            return None;
        }
        let bits = read_bytes16(b, 1);
        let q = QuestId::from_bits(bits);
        let e = if tag == 0 {
            QuestEvent::Created(q)
        } else if tag == 1 {
            QuestEvent::Modified(q)
        } else {
            QuestEvent::Deleted(q)
        };
        assert(b@ =~= e.encoding_spec()) by {
            assert(spec_bytes16(bits) =~= b@.subrange(1, 17));
        }
        Some(e)
    }
}

impl Event for ProgressionEvent {
    open spec fn subject_spec(&self) -> Seq<char> {
        match self {
            ProgressionEvent::AnswerSubmitted { .. } => "progression.events.answer_submitted"@,
            ProgressionEvent::QuestCompleted { .. } => "progression.events.quest_completed"@,
        }
    }

    open spec fn encoding_spec(&self) -> Seq<u8> {
        match self {
            ProgressionEvent::AnswerSubmitted { user_id, correct } => seq![0u8] + spec_bytes16(
                user_id@,
            ) + seq![if *correct {
                1u8
            } else {
                0u8
            }],
            ProgressionEvent::QuestCompleted { user_id, quest_id } => seq![1u8] + spec_bytes16(
                user_id@,
            ) + spec_bytes16(quest_id@),
        }
    }

    open spec fn valid_encoding(b: Seq<u8>) -> bool {
        ||| (b.len() == 18 && b[0] == 0 && (b[17] == 0 || b[17] == 1))
        ||| (b.len() == 33 && b[0] == 1)
    }

    fn get_subject(&self) -> (s: &'static str)
        ensures
            s@ == self.subject_spec(),
    {
        match self {
            ProgressionEvent::AnswerSubmitted { .. } => "progression.events.answer_submitted",
            ProgressionEvent::QuestCompleted { .. } => "progression.events.quest_completed",
        }
    }

    fn encode(&self) -> (r: Vec<u8>)
        ensures
            r@ == self.encoding_spec(),
            Self::valid_encoding(r@),
    {
        let mut out: Vec<u8> = Vec::new();
        match self {
            ProgressionEvent::AnswerSubmitted { user_id, correct } => {
                out.push(0);
                push_bytes16(&mut out, user_id.bits());
                out.push(if *correct {
                    1
                } else {
                    0
                });
            },
            ProgressionEvent::QuestCompleted { user_id, quest_id } => {
                out.push(1);
                push_bytes16(&mut out, user_id.bits());
                push_bytes16(&mut out, quest_id.bits());
            },
        }
        assert(out@ =~= self.encoding_spec());
        out
    }

    fn decode(b: &[u8]) -> (r: Option<ProgressionEvent>)
        ensures
            r is Some <==> Self::valid_encoding(b@),
            r matches Some(e) ==> b@ == e.encoding_spec(),
    {
        let n = b.len();
        if n == 18 {
            if b[0] != 0 {
                return None;
            }
            let flag = b[17];
            if flag > 1 {
                return None;
            }
            let bits = read_bytes16(b, 1);
            let e = ProgressionEvent::AnswerSubmitted {
                user_id: UserId::from_bits(bits),
                correct: flag == 1,
            };
            assert(b@ =~= e.encoding_spec()) by {
                assert(spec_bytes16(bits) =~= b@.subrange(1, 17));
            }
            Some(e)
        } else if n == 33 {
            if b[0] != 1 {
                return None;
            }
            let user_bits = read_bytes16(b, 1);
            let quest_bits = read_bytes16(b, 17);
            let e = ProgressionEvent::QuestCompleted {
                user_id: UserId::from_bits(user_bits),
                quest_id: QuestId::from_bits(quest_bits),
            };
            assert(b@ =~= e.encoding_spec()) by {
                assert(spec_bytes16(user_bits) =~= b@.subrange(1, 17));
                assert(spec_bytes16(quest_bits) =~= b@.subrange(17, 33));
            }
            Some(e)
        } else {
            None
        }
    }
}

/// The wire form of a quest event determines the event.
pub proof fn lemma_quest_event_encoding_injective(e1: QuestEvent, e2: QuestEvent)
    requires
        e1.encoding_spec() == e2.encoding_spec(),
    ensures
        e1 == e2,
{
    let b1 = e1.encoding_spec();
    let b2 = e2.encoding_spec();
    assert(b1[0] == b2[0]);
    match (e1, e2) {
        (QuestEvent::Created(q1), QuestEvent::Created(q2)) => {
            assert(spec_bytes16(q1@) =~= b1.subrange(1, 17));
            assert(spec_bytes16(q2@) =~= b2.subrange(1, 17));
            lemma_bytes16_injective(q1@, q2@);
            QuestId::lemma_view_injective(q1, q2);
        },
        (QuestEvent::Modified(q1), QuestEvent::Modified(q2)) => {
            assert(spec_bytes16(q1@) =~= b1.subrange(1, 17));
            assert(spec_bytes16(q2@) =~= b2.subrange(1, 17));
            lemma_bytes16_injective(q1@, q2@);
            QuestId::lemma_view_injective(q1, q2);
        },
        (QuestEvent::Deleted(q1), QuestEvent::Deleted(q2)) => {
            assert(spec_bytes16(q1@) =~= b1.subrange(1, 17));
            assert(spec_bytes16(q2@) =~= b2.subrange(1, 17));
            lemma_bytes16_injective(q1@, q2@);
            QuestId::lemma_view_injective(q1, q2);
        },
        _ => {},
    }
}

/// The wire form of a progression event determines the event.
pub proof fn lemma_progression_event_encoding_injective(
    e1: ProgressionEvent,
    e2: ProgressionEvent,
)
    requires
        e1.encoding_spec() == e2.encoding_spec(),
    ensures
        e1 == e2,
{
    let b1 = e1.encoding_spec();
    let b2 = e2.encoding_spec();
    match (e1, e2) {
        (
            ProgressionEvent::AnswerSubmitted { user_id: u1, correct: c1 },
            ProgressionEvent::AnswerSubmitted { user_id: u2, correct: c2 },
        ) => {
            assert(spec_bytes16(u1@) =~= b1.subrange(1, 17));
            assert(spec_bytes16(u2@) =~= b2.subrange(1, 17));
            lemma_bytes16_injective(u1@, u2@);
            UserId::lemma_view_injective(u1, u2);
            assert(b1[17] == if c1 {
                1u8
            } else {
                0u8
            });
            assert(b2[17] == if c2 {
                1u8
            } else {
                0u8
            });
        },
        (
            ProgressionEvent::QuestCompleted { user_id: u1, quest_id: q1 },
            ProgressionEvent::QuestCompleted { user_id: u2, quest_id: q2 },
        ) => {
            assert(spec_bytes16(u1@) =~= b1.subrange(1, 17));
            assert(spec_bytes16(u2@) =~= b2.subrange(1, 17));
            lemma_bytes16_injective(u1@, u2@);
            UserId::lemma_view_injective(u1, u2);
            assert(spec_bytes16(q1@) =~= b1.subrange(17, 33));
            assert(spec_bytes16(q2@) =~= b2.subrange(17, 33));
            lemma_bytes16_injective(q1@, q2@);
            QuestId::lemma_view_injective(q1, q2);
        },
        _ => {
            assert(b1.len() == b2.len());
        },
    }
}

/// The wire form of a user event determines the event.
pub proof fn lemma_user_event_encoding_injective(e1: UserEvent, e2: UserEvent)
    requires
        e1.encoding_spec() == e2.encoding_spec(),
    ensures
        e1 == e2,
{
    let b1 = e1.encoding_spec();
    let b2 = e2.encoding_spec();
    assert(b1[0] == b2[0]);
    match (e1, e2) {
        (UserEvent::Created(u1), UserEvent::Created(u2)) => {
            assert(spec_bytes16(u1@) =~= b1.subrange(1, 17));
            assert(spec_bytes16(u2@) =~= b2.subrange(1, 17));
            lemma_bytes16_injective(u1@, u2@);
            UserId::lemma_view_injective(u1, u2);
        },
        (UserEvent::Deleted(u1), UserEvent::Deleted(u2)) => {
            assert(spec_bytes16(u1@) =~= b1.subrange(1, 17));
            assert(spec_bytes16(u2@) =~= b2.subrange(1, 17));
            lemma_bytes16_injective(u1@, u2@);
            UserId::lemma_view_injective(u1, u2);
        },
        _ => {},
    }
}

} // verus!
