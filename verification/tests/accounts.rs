use link_shortener::cache::MappingCache;
use link_shortener::error::WebServerError;
use link_shortener::password::{
    account_record_for, hash_matches, hash_password, hex, salted_digest, split_record, SECRET_LENGTH,
};
use link_shortener::state::{AppState, Config};
use link_shortener::text_set::{DisallowedCodes, TokenStore};
use link_shortener::users::{
    check_login, credentials, read_field, settle_setup, setup, token, AccountLookup, AccountWrite,
    Authorization, LoginReply,
};

const PEPPER_HUNTER2: &str = "b35f6250c71dbbc538f13453f8361e836d1b257d08fe30129ff30c0f38807cbc2004e7cb4cbe3686c3725259ae943e817fb6931f61848cbf00936ecf787ab35a";
const ACCENTED: &str = "56d020e1dca7188d25c1150ff955a5ae5b76d5fe5a2e4a43b2ab95faa338479582c394fda3a8fc64930f21257ace6b992e3aa389a4b39adb6f95a5891c410e37";

fn state_with(tokens: TokenStore) -> AppState {
    AppState {
        links: Some(MappingCache::new()),
        disallowed: Some(DisallowedCodes::new(vec!["admin".to_string()])),
        tokens: Some(tokens),
        config: Some(Config { root: None }),
    }
}

fn fresh_state() -> AppState {
    state_with(TokenStore::new())
}

fn state_knowing(token: &str) -> AppState {
    let mut tokens = TokenStore::new();
    tokens.enroll(token.to_string());
    state_with(tokens)
}

fn token_of(reply: Result<LoginReply, WebServerError>) -> String {
    match reply {
        Ok(LoginReply::Token(t)) => t,
        other => panic!("no token: {:?}", other),
    }
}

#[test]
fn hex_writes_two_lower_case_digits_per_byte() {
    assert_eq!(hex(&[]), "");
    assert_eq!(hex(&[0]), "00");
    assert_eq!(hex(&[0x0f, 0xf0, 0xab, 0x09, 0xff]), "0ff0ab09ff");
    assert_eq!(hex(&[1, 2, 3, 254]), "010203fe");
}

#[test]
fn password_hash_is_the_digest_of_salt_bar_password() {
    assert_eq!(hash_password("pepper", "hunter2"), PEPPER_HUNTER2);
    assert_eq!(hash_password("s\u{e4}lt", "p\u{e4}ss"), ACCENTED);
    assert_ne!(hash_password("pepper", "hunter3"), PEPPER_HUNTER2);
    assert_ne!(hash_password("peppes", "hunter2"), PEPPER_HUNTER2);
}

#[test]
fn salted_digest_is_sha512() {
    assert_eq!(hex(&salted_digest("pepper", "hunter2")), PEPPER_HUNTER2);
    assert_eq!(salted_digest("pepper", "hunter2").len(), 64);
    assert_eq!(salted_digest("", "")[..4], [0xbf, 0xc9, 0xbd, 0xe1]);
}

#[test]
fn issue_makes_a_fresh_token_valid() {
    let mut store = TokenStore::new();
    let first = store.issue();
    let second = store.issue();
    assert_eq!(first.chars().count(), SECRET_LENGTH);
    assert!(first.chars().all(|c| c.is_ascii_alphanumeric()));
    assert_ne!(first, second);
    assert!(store.validate(&first));
    assert!(store.validate(&second));
    assert!(!store.validate("other"));
}

#[test]
fn account_record_is_salt_bar_hash() {
    assert_eq!(account_record_for("pepper", "hunter2"), format!("pepper|{}", PEPPER_HUNTER2));
}

#[test]
fn hash_matches_is_exact() {
    assert!(hash_matches("0ff0", &[0x0f, 0xf0]));
    assert!(!hash_matches("0FF0", &[0x0f, 0xf0]));
    assert!(!hash_matches("0ff", &[0x0f, 0xf0]));
    assert!(!hash_matches("0ff00", &[0x0f, 0xf0]));
    assert!(hash_matches("", &[]));
}

#[test]
fn split_record_parts_at_the_separators() {
    assert_eq!(split_record("salt|hash"), Some(("salt".to_string(), "hash".to_string())));
    assert_eq!(split_record("salt|hash|rest|more"), Some(("salt".to_string(), "hash".to_string())));
    assert_eq!(split_record("|hash"), Some(("".to_string(), "hash".to_string())));
    assert_eq!(split_record("salt|"), Some(("salt".to_string(), "".to_string())));
    assert_eq!(split_record("|"), Some(("".to_string(), "".to_string())));
    assert_eq!(split_record("s\u{e4}lt|h\u{4e16}sh"), Some(("s\u{e4}lt".to_string(), "h\u{4e16}sh".to_string())));
    assert_eq!(split_record("nosalt"), None);
    assert_eq!(split_record(""), None);
}

#[test]
fn check_login_compares_hashes() {
    let record = AccountLookup::Found(format!("pepper|{}", PEPPER_HUNTER2));
    assert_eq!(check_login(&record, "hunter2"), Ok(true));
    assert_eq!(check_login(&record, "hunter3"), Ok(false));
    assert_eq!(check_login(&record, ""), Ok(false));
    assert_eq!(check_login(&AccountLookup::Absent, "hunter2"), Ok(false));
    assert_eq!(check_login(&AccountLookup::Failed, "hunter2"), Err(WebServerError::StoreUnavailable));
    assert_eq!(
        check_login(&AccountLookup::Found(PEPPER_HUNTER2.to_string()), "hunter2"),
        Err(WebServerError::NoSalt)
    );
    let upper = AccountLookup::Found(format!("pepper|{}", PEPPER_HUNTER2.to_uppercase()));
    assert_eq!(check_login(&upper, "hunter2"), Ok(false));
}

#[test]
fn wrong_password_and_unknown_user_get_the_same_answer() {
    let mut state = fresh_state();
    let wrong = token(&mut state, AccountLookup::Found(format!("pepper|{}", PEPPER_HUNTER2)), "guess");
    let unknown = token(&mut state, AccountLookup::Absent, "guess");
    assert!(matches!(wrong, Ok(LoginReply::Incorrect)));
    assert!(matches!(unknown, Ok(LoginReply::Incorrect)));
    assert_eq!(format!("{:?}", wrong), format!("{:?}", unknown));
}

#[test]
fn issued_token_is_accepted_at_once() {
    let mut state = fresh_state();
    let record = format!("pepper|{}", PEPPER_HUNTER2);
    let first = token_of(token(&mut state, AccountLookup::Found(record.clone()), "hunter2"));
    assert_eq!(first.chars().count(), SECRET_LENGTH);
    assert!(first.chars().all(|c| c.is_ascii_alphanumeric()));
    assert!(Authorization::from_request(&state, Some(first.clone().into_bytes())).is_ok());
    let second = token_of(token(&mut state, AccountLookup::Found(record), "hunter2"));
    assert_ne!(first, second);
    assert!(Authorization::from_request(&state, Some(second.into_bytes())).is_ok());
    assert!(Authorization::from_request(&state, Some(first.into_bytes())).is_ok());
}

#[test]
fn failed_login_issues_nothing() {
    let mut state = fresh_state();
    assert!(matches!(
        token(&mut state, AccountLookup::Failed, "hunter2"),
        Err(WebServerError::StoreUnavailable)
    ));
    assert!(matches!(
        token(&mut state, AccountLookup::Found("nosalt".to_string()), "hunter2"),
        Err(WebServerError::NoSalt)
    ));
    state.tokens = None;
    assert!(matches!(
        token(&mut state, AccountLookup::Found(format!("pepper|{}", PEPPER_HUNTER2)), "hunter2"),
        Err(WebServerError::Uninitialized)
    ));
}

#[test]
fn guard_tells_missing_from_unknown() {
    let mut state = state_knowing("tok-1");
    assert!(Authorization::from_request(&state, Some(b"tok-1".to_vec())).is_ok());
    assert!(matches!(Authorization::from_request(&state, None), Err(WebServerError::BadRequest)));
    assert!(matches!(
        Authorization::from_request(&state, Some(vec![0xff, 0xfe])),
        Err(WebServerError::BadRequest)
    ));
    assert!(matches!(
        Authorization::from_request(&state, Some(b"tok-2".to_vec())),
        Err(WebServerError::IncorrectAuth)
    ));
    assert!(matches!(
        Authorization::from_request(&state, Some(b"".to_vec())),
        Err(WebServerError::IncorrectAuth)
    ));
    assert!(matches!(
        Authorization::from_request(&state, Some(b"tok-1 ".to_vec())),
        Err(WebServerError::IncorrectAuth)
    ));
    state.tokens = None;
    assert!(matches!(Authorization::from_request(&state, None), Err(WebServerError::BadRequest)));
}

#[test]
fn token_store_is_a_set() {
    let mut store = TokenStore::new();
    assert!(!store.validate("a"));
    store.enroll("a".to_string());
    store.enroll("b".to_string());
    store.enroll("a".to_string());
    assert!(store.validate("a"));
    assert!(store.validate("b"));
    assert!(!store.validate("c"));
    assert!(!store.validate(""));
}

#[test]
fn reserved_codes_are_fixed() {
    let reserved = DisallowedCodes::new(vec!["admin".to_string(), "auth".to_string()]);
    assert!(reserved.contains("admin"));
    assert!(reserved.contains("auth"));
    assert!(!reserved.contains("Admin"));
    assert!(!reserved.contains("adm"));
    assert!(!DisallowedCodes::new(vec![]).contains("admin"));
}

#[test]
fn fields_are_read_as_text() {
    assert_eq!(read_field(Some(b"alice".to_vec())), Ok("alice".to_string()));
    assert_eq!(read_field(Some("s\u{e4}lt".as_bytes().to_vec())), Ok("s\u{e4}lt".to_string()));
    assert_eq!(read_field(Some(vec![])), Ok("".to_string()));
    assert_eq!(read_field(Some(vec![0xc3])), Err(WebServerError::BadRequest));
    assert_eq!(read_field(None), Err(WebServerError::BadRequest));
}

#[test]
fn credentials_need_both_headers() {
    let read = credentials(Some(b"alice".to_vec()), Some(b"hunter2".to_vec())).unwrap();
    assert_eq!(read.username, "alice");
    assert_eq!(read.password, "hunter2");
    assert!(matches!(credentials(None, Some(b"hunter2".to_vec())), Err(WebServerError::BadRequest)));
    assert!(matches!(credentials(Some(b"alice".to_vec()), None), Err(WebServerError::BadRequest)));
    assert!(matches!(
        credentials(Some(vec![0x80]), Some(b"hunter2".to_vec())),
        Err(WebServerError::BadRequest)
    ));
    assert!(matches!(
        credentials(Some(b"alice".to_vec()), Some(vec![0xe2, 0x82])),
        Err(WebServerError::BadRequest)
    ));
}

#[test]
fn new_account_accepts_its_password() {
    let state = state_knowing("operator");
    let auth = Authorization::from_request(&state, Some(b"operator".to_vec())).unwrap();
    let row = setup(&auth, "alice".to_string(), "hunter2");
    assert_eq!(row.username, "alice");
    let (salt, hash) = split_record(&row.password).unwrap();
    assert_eq!(salt.chars().count(), SECRET_LENGTH);
    assert!(salt.chars().all(|c| c.is_ascii_alphanumeric()));
    assert_eq!(hash.len(), 128);
    assert_eq!(hash, hash_password(&salt, "hunter2"));
    assert_eq!(row.password, format!("{}|{}", salt, hash));
    let stored = AccountLookup::Found(row.password);
    assert_eq!(check_login(&stored, "hunter2"), Ok(true));
    assert_eq!(check_login(&stored, "hunter"), Ok(false));
    let other = setup(&auth, "bob".to_string(), "hunter2");
    assert_ne!(other.password, format!("{}|{}", salt, hash));
}

#[test]
fn setup_is_settled_by_the_store() {
    assert_eq!(settle_setup(AccountWrite::Stored), Ok(()));
    assert_eq!(settle_setup(AccountWrite::Duplicate), Err(WebServerError::Conflict));
    assert_eq!(settle_setup(AccountWrite::Failed), Err(WebServerError::StoreUnavailable));
}
