//! Signing in to Firebase: endpoints, tokens and error responses.

use vstd::prelude::*;
use crate::error::{AppError, AppErrorV};
use crate::sync::firestore::{error_text_of, extract_error, is_success};
use crate::text::concat_str;

verus! {

/// The tokens Firebase hands out at sign-in and refresh.
#[derive(Debug, Clone)]
pub struct AuthTokens {
    pub id_token: String,
    pub refresh_token: String,
    pub local_id: String,
}

/// The endpoint of the password sign-in.
pub open spec fn sign_in_endpoint(api_key: Seq<char>) -> Seq<char> {
    "https://identitytoolkit.googleapis.com/v1/accounts:signInWithPassword?key="@ + api_key
}

pub fn sign_in_url(api_key: &str) -> (r: String)
    ensures
        r@ == sign_in_endpoint(api_key@),
{
    concat_str("https://identitytoolkit.googleapis.com/v1/accounts:signInWithPassword?key=", api_key)
}

/// The endpoint of the token refresh.
pub open spec fn refresh_endpoint(api_key: Seq<char>) -> Seq<char> {
    "https://securetoken.googleapis.com/v1/token?key="@ + api_key
}

pub fn refresh_url(api_key: &str) -> (r: String)
    ensures
        r@ == refresh_endpoint(api_key@),
{
    concat_str("https://securetoken.googleapis.com/v1/token?key=", api_key)
}

/// The text to report for a failed sign-in or refresh.
pub fn extract_firebase_error(body: &str) -> (r: String)
    ensures
        r@ == error_text_of(body@),
{
    extract_error(body)
}

/// The error an authentication response means: the server's message for any
/// status but a success.
pub fn auth_response_error(status: u16, body: &str) -> (r: Option<AppError>)
    ensures
        is_success(status) ==> r is None,
        !is_success(status) ==> (r matches Some(e) && e@ == AppErrorV::Firebase(error_text_of(body@))),
{
    if 200 <= status && status <= 299 {
        None
    } else {
        Some(AppError::Firebase(extract_firebase_error(body)))
    }
}

/// The tokens after a refresh: the response carries no user id, so it is empty.
pub fn refreshed_tokens(id_token: String, refresh_token: String) -> (t: AuthTokens)
    ensures
        t.id_token@ == id_token@,
        t.refresh_token@ == refresh_token@,
        t.local_id@.len() == 0,
{
    AuthTokens { id_token, refresh_token, local_id: String::new() }
}

} // verus!
