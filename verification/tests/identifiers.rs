use omegle_rs::id;
use omegle_rs::types::lang::LangCode;
use omegle_rs::types::rand_id::RandID;

#[test]
fn id_errors_on_invalid_id_string() {
    let id_string = "ABCDE1IO";
    let id = id::RandID::try_from(id_string);
    assert!(id.is_err())
}

#[test]
fn id_allows_valid_id_string() {
    let id_string = "ABCDEFGH";
    let id = id::RandID::try_from(id_string);
    assert!(id.is_ok())
}

#[test]
fn id_errors_on_long_id_string() {
    let id_string = "AAAAAAAAAAA";
    let id = id::RandID::try_from(id_string);
    assert!(id.is_err())
}

#[test]
fn id_errors_on_short_id_string() {
    let id_string = "ABC";
    let id = id::RandID::try_from(id_string);
    assert!(id.is_err())
}

#[test]
fn id_new_generates_valid_id() {
    let id_rand = id::RandID::new();
    let id_string: String = id_rand.into_string();
    let id = id::RandID::try_from(&id_string);
    assert!(id.is_ok())
}

#[test]
fn rand_id_errors_on_invalid_id_string() {
    let id_string = "ABCDE1IO";
    let id = RandID::try_from(id_string);
    assert!(id.is_err())
}

#[test]
fn rand_id_allows_valid_id_string() {
    let id_string = "ABCDEFGH";
    let id = RandID::try_from(id_string);
    assert!(id.is_ok())
}

#[test]
fn rand_id_errors_on_long_id_string() {
    let id_string = "AAAAAAAAAAA";
    let id = RandID::try_from(id_string);
    assert!(id.is_err())
}

#[test]
fn rand_id_errors_on_short_id_string() {
    let id_string = "ABC";
    let id = RandID::try_from(id_string);
    assert!(id.is_err())
}

#[test]
fn rand_id_new_generates_valid_id() {
    let id_rand = RandID::new();
    let id_string: String = id_rand.encode();
    let id = RandID::try_from(&id_string);
    assert!(id.is_ok())
}

#[test]
fn serializes_to_valid_id() {
    let rand_id = RandID::try_from("ABCDEFGH").expect("Is valid id");
    assert_eq!(rand_id.encode(), "ABCDEFGH")
}

#[test]
fn rand_id_rejects_lowercase_and_ambiguous_symbols() {
    assert!(RandID::try_from("abcdefgh").is_err());
    assert!(RandID::try_from("ABCDEFG0").is_err());
    assert!(RandID::try_from("ABCDEFG1").is_err());
    assert!(RandID::try_from("ABCDEFGI").is_err());
    assert!(RandID::try_from("ABCDEFGO").is_err());
    assert!(RandID::try_from("23456789").is_ok());
}

#[test]
fn serializes_properly() {
    assert_eq!(LangCode::English.code(), "en");
    assert_eq!(LangCode::French.code(), "fr");
    assert_eq!(LangCode::Spanish.code(), "es");
}
