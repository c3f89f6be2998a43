//! The rules of `auth login` on the token it is given, and of `auth clear`.

use vstd::prelude::*;

use crate::commands::CacheHits;
use crate::credentials::CredentialStore;
use crate::error::{AppError, AppErrorView};
use crate::output::{envelope_text, print_deleted, success_line};
use crate::text::{trim, trimmed_chars};
use vstd::utf8::encode_utf8;

verus! {

broadcast use vstd::string::group_string_axioms;

/// Refuses a token that is empty once surrounding whitespace is removed.
pub fn check_login_token(token: &str) -> (r: Result<(), AppError>)
    ensures
        r is Ok <==> trim(token@).len() > 0,
        r matches Err(e) ==> e@ == AppErrorView::InvalidInput("API token cannot be empty"@),
{
    let t = trimmed_chars(token);
    if t.len() == 0 {
        Err(AppError::InvalidInput("API token cannot be empty".to_string()))
    } else {
        Ok(())
    }
}

/// The step of `auth login` once the token has been checked against the API
/// (`me_ok`) and saved (`saved`): a refusal to save is returned as it came;
/// otherwise `Ok(true)` exactly when the account was confirmed, which is when
/// every cached entry is cleared (the cache may hold another account's data).
pub fn login_next(me_ok: bool, saved: Result<(), AppError>) -> (r: Result<bool, AppError>)
    ensures
        saved matches Err(e) ==> r == Err::<bool, AppError>(e),
        saved is Ok ==> r == Ok::<bool, AppError>(me_ok),
        r == Ok::<bool, AppError>(true) <==> (me_ok && saved is Ok),
{
    match saved {
        Err(e) => Err(e),
        Ok(()) => Ok(me_ok),
    }
}

/// What `auth clear` does with the store's answer: a refusal is returned as
/// it came and nothing is written; once the token is removed, `✓ Token
/// removed` is written (or the JSON envelope with `null` data, no cache hits).
pub fn clear_outcome(answer: Result<(), AppError>, json: bool, w: &mut Vec<u8>) -> (r: Result<
    (),
    AppError,
>)
    ensures
        answer is Err ==> r == answer && final(w)@ == old(w)@,
        answer is Ok ==> r is Ok,
        answer is Ok && json ==> final(w)@ == old(w)@ + encode_utf8(
            envelope_text(Seq::empty(), "null"@) + seq!['\n'],
        ),
        answer is Ok && !json ==> exists|on: bool|
            final(w)@ == old(w)@ + encode_utf8(#[trigger] success_line("Token removed"@, on)),
{
    match answer {
        Err(e) => Err(e),
        Ok(()) => {
            let hits = CacheHits::new();
            print_deleted(w, json, "Token removed", &hits)
        },
    }
}

/// `auth clear`: asks the store to remove the token, then answers as
/// `clear_outcome` says for what the store answered.
pub fn clear_inner<S: CredentialStore>(store: &S, json: bool, w: &mut Vec<u8>) -> (r: Result<
    (),
    AppError,
>)
    ensures
        r is Err ==> final(w)@ == old(w)@,
        r is Ok && json ==> final(w)@ == old(w)@ + encode_utf8(
            envelope_text(Seq::empty(), "null"@) + seq!['\n'],
        ),
        r is Ok && !json ==> exists|on: bool|
            final(w)@ == old(w)@ + encode_utf8(#[trigger] success_line("Token removed"@, on)),
{
    clear_outcome(store.clear(), json, w)
}

} // verus!
