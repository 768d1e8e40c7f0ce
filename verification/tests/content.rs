use codequest::cache::{CacheDecision, InMemoryQuestContextCache};
use codequest::context::{
    generator_invocation, interpret_generator_outcome, ContextKey, GeneratorOutcome, QuestContext,
    QuestContextGenerator,
};
use codequest::error::Error;
use codequest::ids::{QuestId, UserId};
use codequest::progression::InMemoryProgressionService;
use codequest::questgen::{format_generator_output, generator_seed, stability_context};

#[test]
fn generator_invocation_names_program_and_argument() {
    let q = QuestId::from_bits(1);
    let u = UserId::from_bits(0xA);
    let (program, argument) = generator_invocation("./quests/generators", q, u);
    assert_eq!(program, "./quests/generators/00000000-0000-0000-0000-000000000001");
    assert_eq!(argument, "00000000-0000-0000-0000-00000000000a");
    let generator = QuestContextGenerator::new("./run".to_owned());
    let (program2, argument2) = generator.invocation(q, u);
    assert_eq!(program2, "./run/00000000-0000-0000-0000-000000000001");
    assert_eq!(argument2, argument);
}

#[test]
fn missing_program_is_absence() {
    let q = QuestId::from_bits(1);
    let u = UserId::from_bits(2);
    let r = interpret_generator_outcome(q, u, GeneratorOutcome::NotFound);
    assert!(matches!(r, Ok(None)));
}

#[test]
fn nonzero_exit_is_a_hard_failure_with_context() {
    let q = QuestId::from_bits(1);
    let u = UserId::from_bits(2);
    let outcome = GeneratorOutcome::Ran { exit_code: Some(3), stdout: b"42\x0042".to_vec() };
    match interpret_generator_outcome(q, u, outcome) {
        Err(Error::QuestContextGeneratorFailed { quest, user, exit_code }) => {
            assert_eq!(quest.bits(), q.bits());
            assert_eq!(user.bits(), u.bits());
            assert_eq!(exit_code, Some(3));
        },
        _ => panic!("expected QuestContextGeneratorFailed"),
    }
    let killed = GeneratorOutcome::Ran { exit_code: None, stdout: Vec::new() };
    assert!(matches!(
        interpret_generator_outcome(q, u, killed),
        Err(Error::QuestContextGeneratorFailed { exit_code: None, .. })
    ));
}

#[test]
fn malformed_output_is_invalid_response() {
    let q = QuestId::from_bits(1);
    let u = UserId::from_bits(2);
    let no_separator = GeneratorOutcome::Ran { exit_code: Some(0), stdout: b"4242".to_vec() };
    assert!(matches!(
        interpret_generator_outcome(q, u, no_separator),
        Err(Error::InvalidResponse)
    ));
    let bad_encoding = GeneratorOutcome::Ran {
        exit_code: Some(0),
        stdout: vec![0xff, 0xfe, 0x00, b'4', b'2'],
    };
    assert!(matches!(
        interpret_generator_outcome(q, u, bad_encoding),
        Err(Error::InvalidResponse)
    ));
}

#[test]
fn well_formed_output_becomes_content() {
    let q = QuestId::from_bits(1);
    let u = UserId::from_bits(2);
    let outcome = GeneratorOutcome::Ran { exit_code: Some(0), stdout: b"42\n\x0042".to_vec() };
    let ctx = interpret_generator_outcome(q, u, outcome).unwrap().unwrap();
    assert_eq!(ctx.input(), "42\n");
    assert_eq!(ctx.answer(), "42");
}

fn get_input_counting(
    cache: &mut InMemoryQuestContextCache,
    quest: QuestId,
    user: UserId,
    stdout: &[u8],
    found: bool,
    spawns: &mut usize,
) -> Option<String> {
    let key = ContextKey::new(quest, user);
    match cache.lookup(&key) {
        CacheDecision::Hit(v) => v.map(|c| c.into_input()),
        CacheDecision::MustGenerate => {
            *spawns += 1;
            let outcome = if found {
                GeneratorOutcome::Ran { exit_code: Some(0), stdout: stdout.to_vec() }
            } else {
                GeneratorOutcome::NotFound
            };
            let ctx = interpret_generator_outcome(quest, user, outcome).unwrap();
            cache.record(key, ctx.clone());
            ctx.map(|c| c.into_input())
        },
    }
}

#[test]
fn cache_invokes_the_generator_exactly_once() {
    let q = QuestId::from_bits(1);
    let u = UserId::from_bits(0xA);
    let mut cache = InMemoryQuestContextCache::new();
    let mut spawns: usize = 0;
    let first = get_input_counting(&mut cache, q, u, b"42\n\x0042", true, &mut spawns);
    assert_eq!(first.as_deref(), Some("42\n"));
    assert_eq!(spawns, 1);
    let second = get_input_counting(&mut cache, q, u, b"42\n\x0042", true, &mut spawns);
    assert_eq!(second.as_deref(), Some("42\n"));
    assert_eq!(spawns, 1);
}

#[test]
fn confirmed_absence_is_cached_too() {
    let q = QuestId::from_bits(7);
    let u = UserId::from_bits(8);
    let mut cache = InMemoryQuestContextCache::new();
    let mut spawns: usize = 0;
    assert_eq!(get_input_counting(&mut cache, q, u, b"", false, &mut spawns), None);
    assert_eq!(spawns, 1);
    assert_eq!(get_input_counting(&mut cache, q, u, b"", false, &mut spawns), None);
    assert_eq!(spawns, 1);
}

#[test]
fn cache_keys_are_per_pair() {
    let q = QuestId::from_bits(1);
    let mut cache = InMemoryQuestContextCache::new();
    let mut spawns: usize = 0;
    get_input_counting(&mut cache, q, UserId::from_bits(1), b"a\x00b", true, &mut spawns);
    get_input_counting(&mut cache, q, UserId::from_bits(2), b"a\x00b", true, &mut spawns);
    assert_eq!(spawns, 2);
}

#[test]
fn seed_derivation_is_deterministic() {
    let u = UserId::from_bits(0xA);
    let s1 = generator_seed(&u);
    let s2 = generator_seed(&u);
    assert_eq!(s1, s2);
    assert_eq!(s1.len(), 32);
    let other = generator_seed(&UserId::from_bits(0xB));
    assert_ne!(s1, other);
}

#[test]
fn repeated_generation_is_byte_identical() {
    let packets = vec![vec![1u32, 2, 3], vec![100, 5]];
    let c1 = stability_context(10, &packets);
    let c2 = stability_context(10, &packets);
    assert_eq!(c1.input(), c2.input());
    assert_eq!(c1.answer(), c2.answer());
    assert_eq!(format_generator_output(&c1), format_generator_output(&c2));
}

#[test]
fn stability_content_counts_unstable_packets() {
    let packets = vec![vec![1u32, 2], vec![1, 50], vec![7]];
    let ctx = stability_context(10, &packets);
    assert_eq!(ctx.input(), "10\n1 2\n1 50\n7\n");
    assert_eq!(ctx.answer(), "1");
}

#[test]
fn stability_content_with_no_packets() {
    let packets: Vec<Vec<u32>> = Vec::new();
    let ctx = stability_context(42, &packets);
    assert_eq!(ctx.input(), "42\n");
    assert_eq!(ctx.answer(), "0");
}

#[test]
fn output_framing_matches_the_protocol() {
    let ctx = QuestContext::new("42\n".to_owned(), "42".to_owned());
    assert_eq!(format_generator_output(&ctx), b"42\n\x0042".to_vec());
}

#[test]
fn framed_output_parses_back() {
    let packets = vec![vec![3u32, 90], vec![4, 4, 4]];
    let ctx = stability_context(5, &packets);
    let bytes = format_generator_output(&ctx);
    let q = QuestId::from_bits(1);
    let u = UserId::from_bits(2);
    let outcome = GeneratorOutcome::Ran { exit_code: Some(0), stdout: bytes };
    let back = interpret_generator_outcome(q, u, outcome).unwrap().unwrap();
    assert_eq!(back.input(), ctx.input());
    assert_eq!(back.answer(), ctx.answer());
}

#[test]
fn quest_one_scenario() {
    // Quest Q1's generator, seeded from the digest of userA's identifier,
    // emits "42\n" as input and "42" as answer.
    let q1 = QuestId::from_bits(1);
    let user_a = UserId::from_bits(0xA);
    assert_eq!(generator_seed(&user_a), generator_seed(&user_a));

    let mut cache = InMemoryQuestContextCache::new();
    let mut spawns: usize = 0;
    let first = get_input_counting(&mut cache, q1, user_a, b"42\n\x0042", true, &mut spawns);
    let second = get_input_counting(&mut cache, q1, user_a, b"42\n\x0042", true, &mut spawns);
    assert_eq!(first.as_deref(), Some("42\n"));
    assert_eq!(second.as_deref(), Some("42\n"));
    assert_eq!(spawns, 1);

    // The cached answer drives the verification oracle.
    let key = ContextKey::new(q1, user_a);
    let answer = match cache.lookup(&key) {
        CacheDecision::Hit(Some(ctx)) => ctx.into_answer(),
        _ => panic!("expected cached content"),
    };
    assert_eq!(answer, "42");

    let mut progression = InMemoryProgressionService::new();
    // Submitting "7" first: wrong, and completion is not marked.
    let wrong = progression.record_submission(&user_a, &q1, Some("7" == answer));
    assert_eq!(wrong, Some(false));
    assert_eq!(progression.has_user_completed_quest(&user_a, &q1).unwrap(), false);
    // Submitting "42": correct once, then no effect.
    let right = progression.record_submission(&user_a, &q1, Some("42" == answer));
    assert_eq!(right, Some(true));
    assert_eq!(progression.has_user_completed_quest(&user_a, &q1).unwrap(), true);
    let again = progression.record_submission(&user_a, &q1, Some("42" == answer));
    assert_eq!(again, None);
}
