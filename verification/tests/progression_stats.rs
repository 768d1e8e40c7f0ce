use codequest::emitter::{derive_submission_events, ProgressionServiceNatsWrapper};
use codequest::event::{Event, ProgressionEvent, QuestEvent, UserEvent};
use codequest::ids::{QuestId, UserId};
use codequest::progression::InMemoryProgressionService;
use codequest::projection::{apply_progression_event, apply_quest_event, apply_user_event};
use codequest::quest::{ConstQuestService, QuestService};
use codequest::statistics::{Metric, MetricKey, StatisticsStore};

#[test]
fn submission_is_idempotent_per_pair() {
    let u = UserId::from_bits(1);
    let q = QuestId::from_bits(2);
    let mut store = InMemoryProgressionService::new();
    assert_eq!(store.record_submission(&u, &q, Some(true)), Some(true));
    assert_eq!(store.record_submission(&u, &q, Some(true)), None);
    assert_eq!(store.record_submission(&u, &q, Some(false)), None);
    assert!(store.has_user_completed_quest(&u, &q).unwrap());
}

#[test]
fn wrong_answers_do_not_complete() {
    let u = UserId::from_bits(1);
    let q = QuestId::from_bits(2);
    let mut store = InMemoryProgressionService::new();
    assert_eq!(store.record_submission(&u, &q, Some(false)), Some(false));
    assert!(!store.has_user_completed_quest(&u, &q).unwrap());
    assert_eq!(store.record_submission(&u, &q, None), None);
    assert!(!store.has_user_completed_quest(&u, &q).unwrap());
}

#[test]
fn cleanup_removes_every_row_of_the_user_and_replays_as_noop() {
    let u1 = UserId::from_bits(1);
    let u2 = UserId::from_bits(2);
    let q1 = QuestId::from_bits(11);
    let q2 = QuestId::from_bits(12);
    let mut store = InMemoryProgressionService::with(vec![(u1, q1), (u1, q2), (u2, q1)]);

    apply_user_event(&mut store, &UserEvent::Deleted(u1));
    assert!(!store.has_user_completed_quest(&u1, &q1).unwrap());
    assert!(!store.has_user_completed_quest(&u1, &q2).unwrap());
    assert!(store.has_user_completed_quest(&u2, &q1).unwrap());

    // Replaying the same deletion event is a no-op.
    apply_user_event(&mut store, &UserEvent::Deleted(u1));
    assert!(!store.has_user_completed_quest(&u1, &q1).unwrap());
    assert!(store.has_user_completed_quest(&u2, &q1).unwrap());

    // A creation event changes nothing.
    apply_user_event(&mut store, &UserEvent::Created(u2));
    assert!(store.has_user_completed_quest(&u2, &q1).unwrap());
}

#[test]
fn derived_events_in_fixed_order() {
    let u = UserId::from_bits(1);
    let q = QuestId::from_bits(2);
    assert_eq!(derive_submission_events(&u, &q, None), vec![]);
    assert_eq!(
        derive_submission_events(&u, &q, Some(false)),
        vec![ProgressionEvent::AnswerSubmitted { user_id: u, correct: false }]
    );
    assert_eq!(
        derive_submission_events(&u, &q, Some(true)),
        vec![
            ProgressionEvent::AnswerSubmitted { user_id: u, correct: true },
            ProgressionEvent::QuestCompleted { user_id: u, quest_id: q },
        ]
    );
}

#[test]
fn decorated_submission_frames_its_events() {
    let author = UserId::from_bits(99);
    let catalogue = ConstQuestService::new(author);
    let u = UserId::from_bits(1);
    let q = QuestId::from_bits(2);
    let answer = q.to_text();
    let mut wrapper = ProgressionServiceNatsWrapper::new(InMemoryProgressionService::new());

    let (result, framed) = wrapper.submit_answer(&catalogue, &u, &q, answer.as_str()).unwrap();
    assert_eq!(result, Some(true));
    assert_eq!(framed.len(), 2);
    assert_eq!(framed[0].0, "progression.events.answer_submitted");
    assert_eq!(framed[1].0, "progression.events.quest_completed");
    assert_eq!(
        ProgressionEvent::decode(framed[0].1.as_slice()),
        Some(ProgressionEvent::AnswerSubmitted { user_id: u, correct: true })
    );
    assert_eq!(
        ProgressionEvent::decode(framed[1].1.as_slice()),
        Some(ProgressionEvent::QuestCompleted { user_id: u, quest_id: q })
    );

    // The second submission has no effect and derives no events.
    let (again, framed_again) = wrapper.submit_answer(&catalogue, &u, &q, answer.as_str()).unwrap();
    assert_eq!(again, None);
    assert!(framed_again.is_empty());
    assert!(wrapper.has_user_completed_quest(&u, &q).unwrap());
}

#[test]
fn wrong_answer_derives_one_event() {
    let catalogue = ConstQuestService::new(UserId::from_bits(99));
    let u = UserId::from_bits(1);
    let q = QuestId::from_bits(2);
    let mut wrapper = ProgressionServiceNatsWrapper::new(InMemoryProgressionService::new());
    let (result, framed) = wrapper.submit_answer(&catalogue, &u, &q, "nonsense").unwrap();
    assert_eq!(result, Some(false));
    assert_eq!(framed.len(), 1);
    assert_eq!(framed[0].0, "progression.events.answer_submitted");
    assert!(!wrapper.has_user_completed_quest(&u, &q).unwrap());
}

#[test]
fn unknown_quest_reports_absence() {
    let catalogue = ConstQuestService::new(UserId::from_bits(99));
    let u = UserId::from_bits(1);
    let q = QuestId::from_bits(77);
    let mut wrapper = ProgressionServiceNatsWrapper::new(InMemoryProgressionService::new());
    let (result, framed) = wrapper.submit_answer(&catalogue, &u, &q, "anything").unwrap();
    assert_eq!(result, None);
    assert!(framed.is_empty());
}

#[test]
fn counters_fold_progression_events() {
    let u = UserId::from_bits(1);
    let q = QuestId::from_bits(2);
    let mut stats = StatisticsStore::new();
    apply_progression_event(
        &mut stats,
        &ProgressionEvent::AnswerSubmitted { user_id: u, correct: false },
    );
    apply_progression_event(
        &mut stats,
        &ProgressionEvent::AnswerSubmitted { user_id: u, correct: true },
    );
    apply_progression_event(
        &mut stats,
        &ProgressionEvent::QuestCompleted { user_id: u, quest_id: q },
    );
    assert_eq!(stats.get_value(&u, MetricKey::AnswersSubmitted), 2);
    assert_eq!(stats.get_value(&u, MetricKey::QuestsCompleted), 1);
    assert_eq!(stats.get_value(&u, MetricKey::QuestsCreated), 0);
    assert_eq!(stats.get_value(&UserId::from_bits(9), MetricKey::AnswersSubmitted), 0);
}

#[test]
fn replaying_an_event_reapplies_the_upsert() {
    // At-least-once delivery may deliver the same logical event twice; the
    // additive upsert applies it again, by design.
    let u = UserId::from_bits(1);
    let e = ProgressionEvent::AnswerSubmitted { user_id: u, correct: true };
    let mut stats = StatisticsStore::new();
    apply_progression_event(&mut stats, &e);
    apply_progression_event(&mut stats, &e);
    assert_eq!(stats.get_value(&u, MetricKey::AnswersSubmitted), 2);
}

#[test]
fn quest_events_are_attributed_to_the_resolved_author() {
    let author = UserId::from_bits(42);
    let q = QuestId::from_bits(2);
    let mut stats = StatisticsStore::new();
    apply_quest_event(&mut stats, &QuestEvent::Created(q), Some(author));
    apply_quest_event(&mut stats, &QuestEvent::Modified(q), Some(author));
    apply_quest_event(&mut stats, &QuestEvent::Modified(q), Some(author));
    apply_quest_event(&mut stats, &QuestEvent::Deleted(q), None);
    assert_eq!(stats.get_value(&author, MetricKey::QuestsCreated), 1);
    assert_eq!(stats.get_value(&author, MetricKey::QuestsModified), 2);
    assert_eq!(stats.get_value(&author, MetricKey::QuestsDeleted), 0);
}

#[test]
fn metric_report_lists_positive_counters_in_order() {
    let u = UserId::from_bits(1);
    let mut stats = StatisticsStore::new();
    stats.stat_plus_one(u, MetricKey::QuestsCompleted);
    stats.stat_plus_one(u, MetricKey::AnswersSubmitted);
    stats.stat_plus_one(u, MetricKey::AnswersSubmitted);
    stats.stat_plus_one(u, MetricKey::AnswersSubmitted);
    let metrics = stats.get_user_metrics(&u);
    assert_eq!(metrics.len(), 2);
    assert_eq!(metrics[0].get_display_name(), "Total answers submitted");
    assert_eq!(metrics[0].value, "3");
    assert_eq!(metrics[1].get_display_name(), "Total quests completed");
    assert_eq!(metrics[1].value, "1");
}

#[test]
fn metric_display_names() {
    assert_eq!(
        Metric::new("quests_created".to_owned(), "1".to_owned()).get_display_name(),
        "Total quests created"
    );
    assert_eq!(
        Metric::new("quests_modified".to_owned(), "1".to_owned()).get_display_name(),
        "Total quests modified"
    );
    assert_eq!(
        Metric::new("quests_deleted".to_owned(), "1".to_owned()).get_display_name(),
        "Total quests deleted"
    );
    assert_eq!(
        Metric::new("something_else".to_owned(), "1".to_owned()).get_display_name(),
        "unknown_metric"
    );
}

#[test]
fn metric_key_texts() {
    assert_eq!(MetricKey::AnswersSubmitted.key_text(), "answers_submitted");
    assert_eq!(MetricKey::QuestsCompleted.key_text(), "quests_completed");
    assert_eq!(MetricKey::QuestsCreated.key_text(), "quests_created");
    assert_eq!(MetricKey::QuestsModified.key_text(), "quests_modified");
    assert_eq!(MetricKey::QuestsDeleted.key_text(), "quests_deleted");
}
