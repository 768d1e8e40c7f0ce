use codequest::error::Error;
use codequest::fmtnum::u64_to_decimal;
use codequest::ids::{QuestId, UserId};
use codequest::username::{Username, UsernameRef};

#[test]
fn canonical_text_of_known_bits() {
    let id = UserId::from_bits(0x00112233_4455_6677_8899_aabbccddeeffu128);
    assert_eq!(id.to_text(), "00112233-4455-6677-8899-aabbccddeeff");
}

#[test]
fn canonical_text_of_small_bits() {
    let id = QuestId::from_bits(1);
    assert_eq!(id.to_text(), "00000000-0000-0000-0000-000000000001");
}

#[test]
fn parse_recovers_the_bits() {
    let parsed = UserId::try_parse("00112233-4455-6677-8899-aabbccddeeff").unwrap();
    assert_eq!(parsed.bits(), 0x00112233_4455_6677_8899_aabbccddeeffu128);
}

#[test]
fn display_then_parse_roundtrip() {
    let id = QuestId::from_bits(0xdeadbeef_0000_4000_8000_000000000042u128);
    let parsed = QuestId::try_parse(id.to_text().as_str()).unwrap();
    assert_eq!(parsed.bits(), id.bits());
}

#[test]
fn parse_rejects_malformed_input() {
    assert!(UserId::try_parse("").is_none());
    assert!(UserId::try_parse("00112233-4455-6677-8899-aabbccddeef").is_none());
    assert!(UserId::try_parse("00112233-4455-6677-8899-aabbccddeeffa").is_none());
    assert!(UserId::try_parse("00112233-4455-6677-8899-AABBCCDDEEFF").is_none());
    assert!(UserId::try_parse("001122334455-6677-8899-aabbccddeeff0").is_none());
    assert!(UserId::try_parse("00112233-4455-6677-8899-aabbccddeefg").is_none());
    assert!(UserId::try_parse("00112233-4455-6677-8899-aabbccddee\u{e9}").is_none());
}

#[test]
fn fresh_ids_carry_version_four() {
    let a = UserId::new();
    let b = UserId::new();
    assert_eq!((a.bits() >> 76) & 0xf, 4);
    assert_eq!((b.bits() >> 76) & 0xf, 4);
    assert_ne!(a.bits(), b.bits());
    let q = QuestId::new();
    assert_eq!((q.bits() >> 76) & 0xf, 4);
}

#[test]
fn fresh_id_text_parses_back() {
    let a = UserId::new();
    let parsed = UserId::try_parse(a.to_text().as_str()).unwrap();
    assert_eq!(parsed.bits(), a.bits());
}

#[test]
fn username_rules() {
    assert!(Username::build("alice".to_owned()).is_ok());
    assert!(Username::build("A-Z_09".to_owned()).is_ok());
    assert!(Username::build("a".repeat(30)).is_ok());
    assert!(Username::build(String::new()).is_err());
    assert!(Username::build("a".repeat(31)).is_err());
    assert!(Username::build("bad name".to_owned()).is_err());
    assert!(Username::build("caf\u{e9}".to_owned()).is_err());
}

#[test]
fn username_rejection_carries_the_value() {
    match Username::build("no/slash".to_owned()) {
        Err(Error::InvalidUsername(v)) => assert_eq!(v, "no/slash"),
        _ => panic!("expected InvalidUsername"),
    }
    let e = Username::build("!".to_owned()).unwrap_err();
    assert!(e.is_invalid_username());
}

#[test]
fn username_accessors_agree() {
    let u = Username::build("bob-7".to_owned()).unwrap();
    assert_eq!(u.as_str(), "bob-7");
    assert_eq!(u.as_ref().as_str(), "bob-7");
    let r = UsernameRef::build("carol_x").unwrap();
    assert_eq!(r.as_str(), "carol_x");
    assert_eq!(r.to_owned().as_str(), "carol_x");
}

#[test]
fn decimal_rendering() {
    assert_eq!(u64_to_decimal(0), "0");
    assert_eq!(u64_to_decimal(7), "7");
    assert_eq!(u64_to_decimal(42), "42");
    assert_eq!(u64_to_decimal(10050), "10050");
    assert_eq!(u64_to_decimal(u64::MAX), "18446744073709551615");
}
