use vstd::prelude::*;
use crate::error::WebServerError;
use crate::state::{AppState, StateView};

verus! {

/// The status of every redirect answered here: 308, permanent redirect.
pub const PERMANENT_REDIRECT: u16 = 308;

/// Whether a character may stand in the value of a header: a tab, or
/// anything from the space on but the delete character.
pub open spec fn header_char(c: char) -> bool {
    (c as u32 >= 32 && c as u32 != 127) || c as u32 == 9
}

/// Whether a text can be sent as the value of a header, and so as the
/// target of a redirect.
pub open spec fn header_text(s: Seq<char>) -> bool {
    forall|i: int| 0 <= i < s.len() ==> header_char(#[trigger] s[i])
}

/// Asks `HeaderValue::from_str` of the http crate, as axum exports it,
/// whether it accepts the text. It refuses a text exactly when one of its
/// bytes is below 32 and no tab, or is 127. The bytes of a character past
/// 127 are all above it, so the test on bytes is stated here on the
/// characters.
#[verifier::external_body]
fn header_value_accepts(text: &str) -> (accepted: bool)
    ensures
        accepted == header_text(text@),
{
    axum::http::HeaderValue::from_str(text).is_ok()
}

/// A redirect to send: its status and the value of its `Location` header.
#[derive(Debug)]
pub struct Redirect {
    pub status: u16,
    pub location: String,
}

/// What the root path answers.
#[derive(Debug)]
pub enum RootReply {
    /// The static page, with status 200 and content type `text/html`.
    Page,
    /// A redirect to the configured root target.
    Moved(Redirect),
}

/// Where a code leads: the destination that the cache holds for it, if
/// that can be sent as a redirect target.
pub open spec fn resolve(s: StateView, code: Seq<char>) -> Result<Seq<char>, WebServerError> {
    if s.links is None {
        Err(WebServerError::Uninitialized)
    } else if !s.links->0.contains_key(code) {
        Err(WebServerError::NotFound)
    } else if !header_text(s.links->0[code]) {
        Err(WebServerError::InvalidRedirectTarget)
    } else {
        Ok(s.links->0[code])
    }
}

/// A redirect as values, or its refusal.
pub open spec fn redirect_view(r: Result<Redirect, WebServerError>) -> Result<(u16, Seq<char>), WebServerError> {
    match r {
        Ok(redirect) => Ok((redirect.status, redirect.location@)),
        Err(e) => Err(e),
    }
}

/// The permanent redirect to a target, or its refusal.
pub open spec fn moved_to(target: Result<Seq<char>, WebServerError>) -> Result<(u16, Seq<char>), WebServerError> {
    match target {
        Ok(location) => Ok((PERMANENT_REDIRECT, location)),
        Err(e) => Err(e),
    }
}

/// Answers a request for a short code from the cache alone: a permanent
/// redirect to its destination, `NotFound` for an unknown code, and
/// `InvalidRedirectTarget` for a destination that no header can carry.
pub fn redirect(state: &AppState, code: &str) -> (reply: Result<Redirect, WebServerError>)
    requires
        state.wf(),
    ensures
        redirect_view(reply) == moved_to(resolve(state@, code@)),
{
    match &state.links {
        None => Err(WebServerError::Uninitialized),
        Some(cache) => match cache.get(code) {
            None => Err(WebServerError::NotFound),
            Some(destination) => {
                if header_value_accepts(destination.as_str()) {
                    Ok(Redirect { status: PERMANENT_REDIRECT, location: destination })
                } else {
                    Err(WebServerError::InvalidRedirectTarget)
                }
            },
        },
    }
}

/// What the root path answers in a state, as values: `None` stands for
/// the static page.
pub open spec fn root_answer(s: StateView) -> Result<Option<(u16, Seq<char>)>, WebServerError> {
    match s.root {
        None => Err(WebServerError::Uninitialized),
        Some(None) => Ok(None),
        Some(Some(target)) => if header_text(target) {
            Ok(Some((PERMANENT_REDIRECT, target)))
        } else {
            Err(WebServerError::InvalidRedirectTarget)
        },
    }
}

/// A root reply as values, or its refusal.
pub open spec fn root_view(r: Result<RootReply, WebServerError>) -> Result<Option<(u16, Seq<char>)>, WebServerError> {
    match r {
        Ok(RootReply::Page) => Ok(None),
        Ok(RootReply::Moved(redirect)) => Ok(Some((redirect.status, redirect.location@))),
        Err(e) => Err(e),
    }
}

/// Answers a request for the root path: a permanent redirect to the
/// configured root target, or the static page where none is configured.
pub fn root(state: &AppState) -> (reply: Result<RootReply, WebServerError>)
    ensures
        root_view(reply) == root_answer(state@),
{
    match &state.config {
        None => Err(WebServerError::Uninitialized),
        Some(config) => match &config.root {
            None => Ok(RootReply::Page),
            Some(target) => {
                if header_value_accepts(target.as_str()) {
                    Ok(RootReply::Moved(Redirect { status: PERMANENT_REDIRECT, location: target.clone() }))
                } else {
                    Err(WebServerError::InvalidRedirectTarget)
                }
            },
        },
    }
}

} // verus!
