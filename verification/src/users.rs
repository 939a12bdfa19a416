use vstd::prelude::*;
use vstd::utf8::{decode_utf8, encode_utf8, valid_utf8};
use crate::error::WebServerError;
use crate::password::{
    account_record, account_record_for, alphanumeric, hash_matches, lemma_hex_without_separator,
    password_hash, random_secret, record_parts, record_parts_of_joined, salted_digest,
    salted_digest_of, secret_text, split_record, SECRET_LENGTH, SEPARATOR,
};
use crate::state::{AppState, StateView};

verus! {

/// Reads bytes as text with `String::from_utf8` of the standard library,
/// which accepts exactly the valid UTF-8 sequences and keeps the bytes as
/// they are.
#[verifier::external_body]
fn text_from(bytes: Vec<u8>) -> (text: Option<String>)
    ensures
        text is Some <==> valid_utf8(bytes@),
        text matches Some(t) ==> encode_utf8(t@) == bytes@,
{
    String::from_utf8(bytes).ok()
}

/// The text of a header field: none where the field is missing or is not
/// valid UTF-8.
pub open spec fn field_text(field: Option<Vec<u8>>) -> Option<Seq<char>> {
    match field {
        Some(bytes) => if valid_utf8(bytes@) {
            Some(decode_utf8(bytes@))
        } else {
            None
        },
        None => None,
    }
}

/// Reads a header field as text. A field that is missing or is not text
/// is a bad request.
pub fn read_field(field: Option<Vec<u8>>) -> (text: Result<String, WebServerError>)
    ensures
        match text {
            Ok(t) => field_text(field) == Some(t@),
            Err(e) => e == WebServerError::BadRequest && field_text(field) is None,
        },
{
    match field {
        None => Err(WebServerError::BadRequest),
        Some(bytes) => {
            match text_from(bytes) {
                Some(t) => {
                    proof {
                        vstd::utf8::encode_utf8_decode_utf8(t@);
                    }
                    Ok(t)
                },
                None => Err(WebServerError::BadRequest),
            }
        },
    }
}

/// Proof that a request presented a valid token. Admin operations ask for
/// it; only [`Authorization::from_request`] gives one.
#[derive(Debug)]
pub struct Authorization {
    granted: (),
}

/// The guard's verdict on the text of the `Authorization` header: a
/// missing header is a bad request, a text that is no member of the token
/// store is incorrect.
pub open spec fn guard(s: StateView, presented: Option<Seq<char>>) -> Result<(), WebServerError> {
    if presented is None {
        Err(WebServerError::BadRequest)
    } else if s.tokens is None {
        Err(WebServerError::Uninitialized)
    } else if !s.tokens->0.contains(presented->0) {
        Err(WebServerError::IncorrectAuth)
    } else {
        Ok(())
    }
}

impl Authorization {
    /// Runs the guard on the `Authorization` header of a request, given
    /// as the bytes of its value if it has one. Any valid token
    /// authorizes; nothing but the token store is consulted.
    pub fn from_request(state: &AppState, header: Option<Vec<u8>>) -> (granted: Result<
        Authorization,
        WebServerError,
    >)
        ensures
            match granted {
                Ok(_) => guard(state@, field_text(header)) is Ok,
                Err(e) => guard(state@, field_text(header)) == Err::<(), WebServerError>(e),
            },
    {
        let presented = match read_field(header) {
            Ok(text) => text,
            Err(e) => {
                return Err(e);
            },
        };
        match &state.tokens {
            None => Err(WebServerError::Uninitialized),
            Some(store) => {
                if store.validate(presented.as_str()) {
                    Ok(Authorization { granted: () })
                } else {
                    Err(WebServerError::IncorrectAuth)
                }
            },
        }
    }
}

/// The username and password that a login request presented.
#[derive(Debug)]
pub struct Credentials {
    pub username: String,
    pub password: String,
}

/// Reads the `username` and `password` headers of a login request. If
/// either is missing or is not text, the request is bad.
pub fn credentials(username: Option<Vec<u8>>, password: Option<Vec<u8>>) -> (read: Result<
    Credentials,
    WebServerError,
>)
    ensures
        match read {
            Ok(c) => field_text(username) == Some(c.username@) && field_text(password) == Some(
                c.password@,
            ),
            Err(e) => e == WebServerError::BadRequest && (field_text(username) is None || field_text(
                password,
            ) is None),
        },
{
    let username = match read_field(username) {
        Ok(text) => text,
        Err(e) => {
            return Err(e);
        },
    };
    let password = match read_field(password) {
        Ok(text) => text,
        Err(e) => {
            return Err(e);
        },
    };
    Ok(Credentials { username, password })
}

/// What the durable store answered to the lookup of an account.
#[derive(Debug)]
pub enum AccountLookup {
    /// The account exists, with this record of salt and hash.
    Found(String),
    /// No account has the username.
    Absent,
    /// The lookup failed.
    Failed,
}

/// The answer to an account lookup as a value.
pub enum LookupView {
    Found(Seq<char>),
    Absent,
    Failed,
}

impl View for AccountLookup {
    type V = LookupView;

    open spec fn view(&self) -> LookupView {
        match *self {
            AccountLookup::Found(record) => LookupView::Found(record@),
            AccountLookup::Absent => LookupView::Absent,
            AccountLookup::Failed => LookupView::Failed,
        }
    }
}

/// The answer to a login.
#[derive(Debug)]
pub enum LoginReply {
    /// The credentials were right: a fresh token.
    Token(String),
    /// The username or the password was wrong; which of them is not told.
    Incorrect,
}

/// Whether a password is the right one, given what the store holds for
/// the username: it is when the hash of the password under the stored
/// salt equals the stored hash. An absent account accepts no password.
pub open spec fn login_verdict(lookup: LookupView, password: Seq<char>) -> Result<bool, WebServerError> {
    match lookup {
        LookupView::Failed => Err(WebServerError::StoreUnavailable),
        LookupView::Absent => Ok(false),
        LookupView::Found(record) => match record_parts(record) {
            None => Err(WebServerError::NoSalt),
            Some((salt, hash)) => Ok(hash == password_hash(salt, password)),
        },
    }
}

/// Decides whether a password is the right one, given what the store
/// holds for the username.
pub fn check_login(lookup: &AccountLookup, password: &str) -> (verdict: Result<bool, WebServerError>)
    ensures
        verdict == login_verdict(lookup@, password@),
{
    match lookup {
        AccountLookup::Failed => Err(WebServerError::StoreUnavailable),
        AccountLookup::Absent => Ok(false),
        AccountLookup::Found(record) => match split_record(record.as_str()) {
            None => Err(WebServerError::NoSalt),
            Some((salt, hash)) => {
                let digest = salted_digest(salt.as_str(), password);
                Ok(hash_matches(hash.as_str(), digest.as_slice()))
            },
        },
    }
}

/// The state after the token was made valid.
pub open spec fn with_token(s: StateView, token: Seq<char>) -> StateView {
    StateView { tokens: Some(s.tokens->0.insert(token)), ..s }
}

/// Answers a login, given what the durable store holds for the username.
/// The right password earns a fresh random token, which is valid from
/// then on. A wrong password and an unknown username get the same answer,
/// and leave the token store as it was.
pub fn token(state: &mut AppState, lookup: AccountLookup, password: &str) -> (reply: Result<
    LoginReply,
    WebServerError,
>)
    requires
        old(state).wf(),
    ensures
        final(state).wf(),
        old(state)@.tokens is None ==> reply == Err::<LoginReply, WebServerError>(
            WebServerError::Uninitialized,
        ) && final(state)@ == old(state)@,
        old(state)@.tokens is Some ==> match login_verdict(lookup@, password@) {
            Err(e) => reply == Err::<LoginReply, WebServerError>(e) && final(state)@ == old(state)@,
            Ok(false) => reply matches Ok(LoginReply::Incorrect) && final(state)@ == old(state)@,
            Ok(true) => reply matches Ok(LoginReply::Token(t)) && secret_text(t@, SECRET_LENGTH as nat)
                && final(state)@ == with_token(old(state)@, t@),
        },
{
    match state.tokens.take() {
        None => Err(WebServerError::Uninitialized),
        Some(mut store) => {
            let reply = match check_login(&lookup, password) {
                Err(e) => Err(e),
                Ok(false) => Ok(LoginReply::Incorrect),
                Ok(true) => Ok(LoginReply::Token(store.issue())),
            };
            state.tokens = Some(store);
            reply
        },
    }
}

/// An account row to store: the username and the record of salt and hash.
#[derive(Debug)]
pub struct AccountRow {
    pub username: String,
    pub password: String,
}

/// Prepares the account row for a new user: draws a fresh random salt and
/// hashes the password under it.
pub fn setup(_auth: &Authorization, username: String, password: &str) -> (row: AccountRow)
    ensures
        row.username@ == username@,
        exists|salt: Seq<char>| #[trigger]
            secret_text(salt, SECRET_LENGTH as nat) && row.password@ == account_record(salt, password@),
{
    let salt = random_secret(SECRET_LENGTH);
    let record = account_record_for(salt.as_str(), password);
    assert(secret_text(salt@, SECRET_LENGTH as nat) && record@ == account_record(salt@, password@));
    AccountRow { username, password: record }
}

/// What the durable store answered to the insertion of an account row.
#[derive(Clone, Copy, Debug, PartialEq, Eq, Structural)]
pub enum AccountWrite {
    /// The row was stored.
    Stored,
    /// An account with the username exists already.
    Duplicate,
    /// The write failed.
    Failed,
}

/// The answer to an account setup, once the durable store has reported:
/// an existing username is a conflict.
pub fn settle_setup(outcome: AccountWrite) -> (reply: Result<(), WebServerError>)
    ensures
        reply == match outcome {
            AccountWrite::Stored => Ok::<(), WebServerError>(()),
            AccountWrite::Duplicate => Err(WebServerError::Conflict),
            AccountWrite::Failed => Err(WebServerError::StoreUnavailable),
        },
{
    match outcome {
        AccountWrite::Stored => Ok(()),
        AccountWrite::Duplicate => Err(WebServerError::Conflict),
        AccountWrite::Failed => Err(WebServerError::StoreUnavailable),
    }
}

/// A wrong password for an existing account and any password for an
/// unknown username get the same verdict, so the answer to a login does
/// not tell which usernames exist.
pub proof fn rejections_agree(record: Seq<char>, wrong: Seq<char>, other: Seq<char>)
    requires
        record_parts(record) matches Some((salt, hash)) && hash != password_hash(salt, wrong),
    ensures
        login_verdict(LookupView::Found(record), wrong) == login_verdict(LookupView::Absent, other),
        login_verdict(LookupView::Absent, other) == Ok::<bool, WebServerError>(false),
{
}

/// A token passes the guard as soon as it was issued, and every token
/// that passed before still does.
pub proof fn issued_token_validates(s: StateView, token: Seq<char>, earlier: Seq<char>)
    requires
        s.tokens is Some,
    ensures
        guard(with_token(s, token), Some(token)) == Ok::<(), WebServerError>(()),
        guard(s, Some(earlier)) is Ok ==> guard(with_token(s, token), Some(earlier)) is Ok,
{
}

/// The record that is set up for a password under a generated salt
/// accepts that password at login.
pub proof fn fresh_account_accepts_password(salt: Seq<char>, password: Seq<char>)
    requires
        secret_text(salt, salt.len()),
    ensures
        login_verdict(LookupView::Found(account_record(salt, password)), password) == Ok::<
            bool,
            WebServerError,
        >(true),
{
    let hash = password_hash(salt, password);
    lemma_hex_without_separator(salted_digest_of(salt, password));
    assert forall|i: int| 0 <= i < salt.len() implies #[trigger] salt[i] != SEPARATOR by {
        assert(alphanumeric(salt[i]));
    }
    record_parts_of_joined(salt, hash);
}

} // verus!
