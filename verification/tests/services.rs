use codequest::auth::{change_password_outcome, login_outcome, signup_outcome};
use codequest::backend::{
    interpret_bool_response, interpret_exists_response, interpret_flag_response,
    interpret_signup_response, interpret_text_response, parse_bool_text, HttpOutcome,
};
use codequest::error::Error;
use codequest::ids::{QuestId, UserId};
use codequest::quest::{ConstQuestService, Quest, QuestItem, QuestService};
use codequest::username::Username;
use codequest::users::{Credentials, InMemoryUserService, User, UserService};

#[test]
fn catalogue_lists_four_quests() {
    let service = ConstQuestService::new(UserId::from_bits(9));
    let items = service.list_quests().unwrap();
    let names: Vec<&str> = items.iter().map(|i| i.name.as_str()).collect();
    assert_eq!(names, vec!["Quest 1", "Quest 2", "Quest 3", "Quest 4"]);
}

#[test]
fn catalogue_lookup_by_id() {
    let service = ConstQuestService::new(UserId::from_bits(9));
    let quest = service.get_quest(&QuestId::from_bits(2)).unwrap().unwrap();
    assert_eq!(quest.item.name, "Quest 2");
    assert_eq!(quest.text, "For this quest, you have to submit '2'");
    assert!(service.get_quest(&QuestId::from_bits(77)).unwrap().is_none());
    assert!(service.quest_exists(&QuestId::from_bits(4)).unwrap());
    assert!(!service.quest_exists(&QuestId::from_bits(5)).unwrap());
}

#[test]
fn catalogue_answers_are_the_canonical_id_text() {
    let service = ConstQuestService::new(UserId::from_bits(9));
    let q = QuestId::from_bits(3);
    let u = UserId::from_bits(1);
    assert_eq!(service.get_answer(&q, &u).unwrap().unwrap(), q.to_text());
    assert_eq!(service.verify_answer(&q, &u, q.to_text().as_str()).unwrap(), Some(true));
    assert_eq!(service.verify_answer(&q, &u, "wrong").unwrap(), Some(false));
    assert_eq!(service.verify_answer(&QuestId::from_bits(8), &u, "x").unwrap(), None);
}

#[test]
fn catalogue_input_names_the_pair() {
    let service = ConstQuestService::new(UserId::from_bits(9));
    let q = QuestId::from_bits(1);
    let u = UserId::from_bits(0xA);
    let input = service.get_input(&q, &u).unwrap().unwrap();
    assert_eq!(
        input,
        format!("Input for quest '{}' for user '{}'", q.to_text(), u.to_text())
    );
    assert!(service.get_input(&QuestId::from_bits(8), &u).unwrap().is_none());
}

#[test]
fn catalogue_attributes_to_its_author() {
    let author = UserId::from_bits(9);
    let service = ConstQuestService::new(author);
    let found = service.get_quest_author(&QuestId::from_bits(1)).unwrap().unwrap();
    assert_eq!(found.bits(), author.bits());
    assert!(service.get_quest_author(&QuestId::from_bits(8)).unwrap().is_none());
}

#[test]
fn custom_catalogue() {
    let q = QuestId::from_bits(0x1234);
    let quests = vec![Quest::new(q, "Custom".to_owned(), "Text".to_owned())];
    let service = ConstQuestService::with_quests(quests, UserId::from_bits(1));
    let items = service.list_quests().unwrap();
    assert_eq!(items.len(), 1);
    assert_eq!(items[0].id.bits(), q.bits());
    let item = QuestItem::new(q, "Custom".to_owned());
    assert_eq!(item.name, "Custom");
}

#[test]
fn user_registration_and_login() {
    let mut users = InMemoryUserService::new(vec![7u8; 16]);
    assert!(!users.user_exists("alice").unwrap());
    assert_eq!(users.add_user("alice", "secret").unwrap(), true);
    assert_eq!(users.add_user("alice", "other").unwrap(), false);
    assert!(users.user_exists("alice").unwrap());
    assert!(users.verify_password("alice", "secret").unwrap());
    assert!(!users.verify_password("alice", "wrong").unwrap());
    assert!(!users.verify_password("bob", "secret").unwrap());
}

#[test]
fn stored_hash_is_not_the_password() {
    // If hashing handed the password back unchanged, a stored "hash" equal to
    // the password would verify; with a real hash it must not.
    let users = InMemoryUserService::with(
        vec![7u8; 16],
        vec![("a".to_owned(), "x".to_owned())],
    );
    assert!(users.user_exists("a").unwrap());
    assert!(!users.verify_password("a", "x").unwrap());
}

#[test]
fn hashing_is_deterministic_across_stores() {
    let mut one = InMemoryUserService::new(vec![3u8; 16]);
    let mut two = InMemoryUserService::new(vec![3u8; 16]);
    one.add_user("carol", "pw").unwrap();
    two.add_user("carol", "pw").unwrap();
    assert!(one.verify_password("carol", "pw").unwrap());
    assert!(two.verify_password("carol", "pw").unwrap());
}

#[test]
fn unusable_salt_surfaces_as_incoherent_state() {
    let mut users = InMemoryUserService::new(vec![1u8, 2u8]);
    assert!(matches!(users.add_user("alice", "secret"), Err(Error::IncoherentState)));
    assert!(!users.user_exists("alice").unwrap());
}

#[test]
fn credentials_and_user_hold_their_parts() {
    let c = Credentials::new("svc".to_owned(), "pw".to_owned());
    assert_eq!(c.username, "svc");
    assert_eq!(c.password, "pw");
    let u = User::new(UserId::from_bits(1), Username::build("alice".to_owned()).unwrap());
    assert_eq!(u.id.bits(), 1);
    assert_eq!(u.username.as_str(), "alice");
}

#[test]
fn signup_outcomes() {
    let (status, body) = signup_outcome(true);
    assert_eq!(status, 200);
    assert!(body.success);
    assert_eq!(body.redirect.as_deref(), Some("/"));
    assert!(body.error.is_none());
    let (status, body) = signup_outcome(false);
    assert_eq!(status, 401);
    assert!(!body.success);
    assert!(body.redirect.is_none());
    assert_eq!(body.error.as_deref(), Some("Username already taken"));
}

#[test]
fn login_outcomes() {
    let (status, body) = login_outcome(true);
    assert_eq!(status, 200);
    assert!(body.success);
    assert_eq!(body.redirect.as_deref(), Some("/"));
    let (status, body) = login_outcome(false);
    assert_eq!(status, 401);
    assert_eq!(body.error.as_deref(), Some("Invalid username or password"));
}

#[test]
fn change_password_outcomes() {
    let (status, body) = change_password_outcome(true);
    assert_eq!(status, 200);
    assert!(body.success);
    assert!(body.error.is_none());
    let (status, body) = change_password_outcome(false);
    assert_eq!(status, 401);
    assert_eq!(body.error.as_deref(), Some("Wrong password"));
}

#[test]
fn bool_text_parsing() {
    assert_eq!(parse_bool_text("true"), Some(true));
    assert_eq!(parse_bool_text("false"), Some(false));
    assert_eq!(parse_bool_text("True"), None);
    assert_eq!(parse_bool_text(""), None);
}

#[test]
fn text_response_interpretation() {
    let ok = interpret_text_response(HttpOutcome::Response {
        status: 200,
        body: Some("payload".to_owned()),
    });
    assert_eq!(ok.unwrap().as_deref(), Some("payload"));
    let absent = interpret_text_response(HttpOutcome::Response { status: 404, body: None });
    assert!(matches!(absent, Ok(None)));
    assert!(matches!(
        interpret_text_response(HttpOutcome::NoResponse),
        Err(Error::ServerUnreachable)
    ));
    assert!(matches!(
        interpret_text_response(HttpOutcome::Response { status: 500, body: None }),
        Err(Error::InvalidResponse)
    ));
    assert!(matches!(
        interpret_text_response(HttpOutcome::Response { status: 200, body: None }),
        Err(Error::InvalidResponse)
    ));
}

#[test]
fn bool_response_interpretation() {
    let yes = interpret_bool_response(HttpOutcome::Response {
        status: 200,
        body: Some("true".to_owned()),
    });
    assert_eq!(yes.unwrap(), Some(true));
    let no = interpret_bool_response(HttpOutcome::Response {
        status: 200,
        body: Some("false".to_owned()),
    });
    assert_eq!(no.unwrap(), Some(false));
    let absent = interpret_bool_response(HttpOutcome::Response { status: 404, body: None });
    assert!(matches!(absent, Ok(None)));
    assert!(matches!(
        interpret_bool_response(HttpOutcome::Response {
            status: 200,
            body: Some("yes".to_owned()),
        }),
        Err(Error::InvalidResponse)
    ));
}

#[test]
fn flag_response_interpretation() {
    let yes = interpret_flag_response(HttpOutcome::Response {
        status: 200,
        body: Some("true".to_owned()),
    });
    assert_eq!(yes.unwrap(), true);
    assert!(matches!(
        interpret_flag_response(HttpOutcome::Response { status: 404, body: None }),
        Err(Error::InvalidResponse)
    ));
}

#[test]
fn signup_response_interpretation() {
    assert_eq!(
        interpret_signup_response(HttpOutcome::Response { status: 201, body: None }).unwrap(),
        true
    );
    assert_eq!(
        interpret_signup_response(HttpOutcome::Response { status: 409, body: None }).unwrap(),
        false
    );
    assert!(matches!(
        interpret_signup_response(HttpOutcome::Response { status: 500, body: None }),
        Err(Error::InvalidResponse)
    ));
}

#[test]
fn exists_response_interpretation() {
    assert_eq!(
        interpret_exists_response(HttpOutcome::Response { status: 200, body: None }).unwrap(),
        true
    );
    assert_eq!(
        interpret_exists_response(HttpOutcome::Response { status: 404, body: None }).unwrap(),
        false
    );
    assert!(matches!(
        interpret_exists_response(HttpOutcome::NoResponse),
        Err(Error::ServerUnreachable)
    ));
}
