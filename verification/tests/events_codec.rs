use codequest::error::Error;
use codequest::event::{Event, ProgressionEvent, QuestEvent, UserEvent};
use codequest::eventbus::{
    consume_step, plan_stream, prepare_publish, DurableConsumer, RetentionKind, StorageKind,
    StreamModel,
};
use codequest::ids::{QuestId, UserId};

#[test]
fn user_event_subjects() {
    let u = UserId::from_bits(5);
    assert_eq!(UserEvent::Created(u).get_subject(), "user.events.created");
    assert_eq!(UserEvent::Deleted(u).get_subject(), "user.events.deleted");
}

#[test]
fn quest_event_subjects() {
    let q = QuestId::from_bits(9);
    assert_eq!(QuestEvent::Created(q).get_subject(), "quest.events.created");
    assert_eq!(QuestEvent::Modified(q).get_subject(), "quest.events.modified");
    assert_eq!(QuestEvent::Deleted(q).get_subject(), "quest.events.deleted");
}

#[test]
fn progression_event_subjects() {
    let u = UserId::from_bits(5);
    let q = QuestId::from_bits(9);
    assert_eq!(
        ProgressionEvent::AnswerSubmitted { user_id: u, correct: true }.get_subject(),
        "progression.events.answer_submitted"
    );
    assert_eq!(
        ProgressionEvent::QuestCompleted { user_id: u, quest_id: q }.get_subject(),
        "progression.events.quest_completed"
    );
}

#[test]
fn user_event_codec_roundtrip() {
    let u = UserId::from_bits(0xfeed_0000_0000_4000_8000_000000000001u128);
    for e in [UserEvent::Created(u), UserEvent::Deleted(u)] {
        let bytes = e.encode();
        assert_eq!(bytes.len(), 17);
        assert_eq!(UserEvent::decode(bytes.as_slice()), Some(e));
    }
}

#[test]
fn quest_event_codec_roundtrip() {
    let q = QuestId::from_bits(77);
    for e in [QuestEvent::Created(q), QuestEvent::Modified(q), QuestEvent::Deleted(q)] {
        let bytes = e.encode();
        assert_eq!(bytes.len(), 17);
        assert_eq!(QuestEvent::decode(bytes.as_slice()), Some(e));
    }
}

#[test]
fn progression_event_codec_roundtrip() {
    let u = UserId::from_bits(3);
    let q = QuestId::from_bits(4);
    for e in [
        ProgressionEvent::AnswerSubmitted { user_id: u, correct: true },
        ProgressionEvent::AnswerSubmitted { user_id: u, correct: false },
        ProgressionEvent::QuestCompleted { user_id: u, quest_id: q },
    ] {
        let bytes = e.encode();
        assert_eq!(ProgressionEvent::decode(bytes.as_slice()), Some(e));
    }
}

#[test]
fn decode_rejects_malformed_payloads() {
    assert_eq!(UserEvent::decode(&[]), None);
    assert_eq!(UserEvent::decode(&[0u8; 16]), None);
    assert_eq!(UserEvent::decode(&[9u8; 17]), None);
    assert_eq!(QuestEvent::decode(&[3u8; 17]), None);
    assert_eq!(ProgressionEvent::decode(&[0u8; 17]), None);
    let mut bad_flag = [0u8; 18];
    bad_flag[17] = 2;
    assert_eq!(ProgressionEvent::decode(&bad_flag), None);
}

#[test]
fn encoding_distinguishes_the_payload() {
    let a = UserEvent::Created(UserId::from_bits(1)).encode();
    let b = UserEvent::Created(UserId::from_bits(2)).encode();
    let c = UserEvent::Deleted(UserId::from_bits(1)).encode();
    assert_ne!(a, b);
    assert_ne!(a, c);
}

#[test]
fn prepare_publish_frames_subject_and_payload() {
    let e = UserEvent::Deleted(UserId::from_bits(11));
    let (subject, payload) = prepare_publish(&e);
    assert_eq!(subject, "user.events.deleted");
    assert_eq!(UserEvent::decode(payload.as_slice()), Some(e));
}

#[test]
fn consume_step_accepts_exactly_the_encodings() {
    let e = ProgressionEvent::AnswerSubmitted { user_id: UserId::from_bits(1), correct: false };
    let ok: Result<ProgressionEvent, Error> = consume_step(e.encode().as_slice());
    assert_eq!(ok.unwrap(), e);
    let bad: Result<ProgressionEvent, Error> = consume_step(b"not an event");
    assert!(matches!(bad, Err(Error::InvalidResponse)));
}

#[test]
fn plan_stream_is_idempotent() {
    let existing = plan_stream("USER_EVENTS".to_owned(), vec!["user.events.*".to_owned()], true);
    assert!(existing.is_none());
    let config = plan_stream("USER_EVENTS".to_owned(), vec!["user.events.*".to_owned()], false)
        .unwrap();
    assert_eq!(config.name, "USER_EVENTS");
    assert_eq!(config.subjects, vec!["user.events.*".to_owned()]);
    assert_eq!(config.max_age_secs, 60 * 60 * 24 * 30);
    assert!(matches!(config.storage, StorageKind::File));
    assert!(matches!(config.retention, RetentionKind::Limits));
}

#[test]
fn at_least_once_across_a_crash() {
    let mut stream = StreamModel::new();
    let m0 = b"m0".to_vec();
    let m1 = b"m1".to_vec();
    let m2 = b"m2".to_vec();
    stream.publish(m0.clone());
    stream.publish(m1.clone());
    stream.publish(m2.clone());

    let mut consumer = DurableConsumer::new();
    let mut log: Vec<Vec<u8>> = Vec::new();

    // First run crashes after processing message 1, before acknowledging it.
    let crashed = consumer.run(&stream, &mut log, Some(1));
    assert!(crashed);
    assert_eq!(consumer.cursor, 1);
    assert_eq!(log, vec![m0.clone(), m1.clone()]);

    // The restarted run resumes at the durable cursor and finishes.
    let crashed_again = consumer.run(&stream, &mut log, None);
    assert!(!crashed_again);
    assert_eq!(consumer.cursor, 3);

    // Every published message was processed; message 1 twice.
    assert_eq!(log, vec![m0.clone(), m1.clone(), m1.clone(), m2.clone()]);
    for m in [&m0, &m1, &m2] {
        assert!(log.iter().any(|x| x == m));
    }
}

#[test]
fn clean_run_processes_everything_once() {
    let mut stream = StreamModel::new();
    stream.publish(b"a".to_vec());
    stream.publish(b"b".to_vec());
    let mut consumer = DurableConsumer::new();
    let mut log: Vec<Vec<u8>> = Vec::new();
    let crashed = consumer.run(&stream, &mut log, None);
    assert!(!crashed);
    assert_eq!(log, vec![b"a".to_vec(), b"b".to_vec()]);
}
