//! Classification of the platform's answers.
//!
//! Each function takes what came back from one platform operation: the HTTP
//! status, the body when it parsed as the expected success shape, and the
//! platform's error message (or raw body text) for logs. It decides between
//! success and the error kinds of the service.
use vstd::prelude::*;

use crate::error::{Error, Result};
use crate::structs::{
    AppAccessTokenResponse, StreamData, TokenExchangeResponse, TwitchEventsub,
    TwitchEventsubResponse, TwitchStreamsResponse, TwitchUser, TwitchUserResponse,
};

verus! {

/// Outcome of a subscription-create request.
#[derive(Clone, Debug, PartialEq, Eq)]
pub enum CreateOutcome {
    /// The platform accepted the subscription; its id.
    Created(String),
    /// The platform holds a subscription for this broadcaster already: look it up.
    AlreadyExists,
    /// Any other answer.
    Failed(Error),
}

/// Client-credentials exchange: 200 with a token body succeeds, anything
/// else is a platform error carrying the body text.
pub fn app_token_result(
    status: u16,
    body: Option<AppAccessTokenResponse>,
    text: String,
) -> (r: Result<AppAccessTokenResponse>)
    ensures
        status == 200 && body is Some ==> r == Ok::<AppAccessTokenResponse, Error>(body->Some_0),
        !(status == 200 && body is Some) ==> r == Err::<AppAccessTokenResponse, Error>(
            Error::Twitch(status, text),
        ),
{
    match body {
        Some(b) if status == 200 => Ok(b),
        _ => Err(Error::Twitch(status, text)),
    }
}

/// Authorization-code exchange: 200 with a token body yields the user token.
pub fn user_token_result(
    status: u16,
    body: Option<TokenExchangeResponse>,
    message: String,
) -> (r: Result<String>)
    ensures
        status == 200 && body is Some ==> r is Ok && r->Ok_0@ == body->Some_0.access_token@,
        !(status == 200 && body is Some) ==> r == Err::<String, Error>(
            Error::Twitch(status, message),
        ),
{
    match body {
        Some(b) if status == 200 => Ok(b.access_token),
        _ => Err(Error::Twitch(status, message)),
    }
}

/// User lookup: 200 with at least one row yields the first user; 400 and 401
/// mean the token was refused.
pub fn user_result(status: u16, body: Option<TwitchUserResponse>, message: String) -> (r: Result<
    TwitchUser,
>)
    ensures
        status == 200 && body is Some && body->Some_0.data@.len() > 0 ==> r == Ok::<
            TwitchUser,
            Error,
        >(body->Some_0.data@[0]),
        status == 200 && body is Some && body->Some_0.data@.len() == 0 ==> r is Err && r->Err_0
            is Twitch && r->Err_0->Twitch_0 == 200 && r->Err_0->Twitch_1@
            == "Received empty user response"@,
        status == 400 || status == 401 ==> r == Err::<TwitchUser, Error>(Error::Auth(status)),
        status != 200 && status != 400 && status != 401 || status == 200 && body is None ==> r
            == Err::<TwitchUser, Error>(Error::Twitch(status, message)),
{
    if status == 400 || status == 401 {
        return Err(Error::Auth(status));
    }
    match body {
        Some(mut b) if status == 200 => {
            if b.data.len() > 0 {
                Ok(b.data.remove(0))
            } else {
                Err(Error::Twitch(status, String::from_str("Received empty user response")))
            }
        },
        _ => Err(Error::Twitch(status, message)),
    }
}

/// Subscription create: 202 with a row yields its id; 409 says that one
/// exists already.
pub fn create_subscription_result(
    status: u16,
    body: Option<TwitchEventsubResponse>,
    message: String,
) -> (r: CreateOutcome)
    ensures
        status == 202 && body is Some && body->Some_0.data@.len() > 0 ==> r is Created
            && r->Created_0@ == body->Some_0.data@[0].id@,
        status == 409 ==> r is AlreadyExists,
        status != 409 && !(status == 202 && body is Some && body->Some_0.data@.len() > 0) ==> r
            == CreateOutcome::Failed(Error::Twitch(status, message)),
{
    if status == 409 {
        return CreateOutcome::AlreadyExists;
    }
    match body {
        Some(mut b) if status == 202 && b.data.len() > 0 => {
            let first = b.data.remove(0);
            CreateOutcome::Created(first.id)
        },
        _ => CreateOutcome::Failed(Error::Twitch(status, message)),
    }
}

/// Subscription listing: 200 yields the first subscription listed, if any.
pub fn subscription_lookup_result(
    status: u16,
    body: Option<TwitchEventsubResponse>,
    message: String,
) -> (r: Result<Option<TwitchEventsub>>)
    ensures
        status == 200 && body is Some && body->Some_0.data@.len() > 0 ==> r == Ok::<
            Option<TwitchEventsub>,
            Error,
        >(Some(body->Some_0.data@[0])),
        status == 200 && body is Some && body->Some_0.data@.len() == 0 ==> r == Ok::<
            Option<TwitchEventsub>,
            Error,
        >(None),
        !(status == 200 && body is Some) ==> r == Err::<Option<TwitchEventsub>, Error>(
            Error::Twitch(status, message),
        ),
{
    match body {
        Some(mut b) if status == 200 => {
            if b.data.len() > 0 {
                Ok(Some(b.data.remove(0)))
            } else {
                Ok(None)
            }
        },
        _ => Err(Error::Twitch(status, message)),
    }
}

/// After a 409 on create: the listed subscription's id is reused; none listed
/// means the platform contradicts itself.
pub fn existing_subscription_id(found: Option<TwitchEventsub>) -> (r: Result<String>)
    ensures
        found is Some ==> r is Ok && r->Ok_0@ == found->Some_0.id@,
        found is None ==> r is Err && r->Err_0 is InternalServer && r->Err_0->InternalServer_0@
            == "Cannot find existing eventsub for user"@,
{
    match found {
        Some(s) => Ok(s.id),
        None => Err(
            Error::InternalServer(String::from_str("Cannot find existing eventsub for user")),
        ),
    }
}

/// Subscription delete: 204 succeeds, and so does 404 (gone already).
pub fn delete_subscription_result(status: u16, message: String) -> (r: Result<()>)
    ensures
        status == 204 || status == 404 ==> r is Ok,
        status != 204 && status != 404 ==> r == Err::<(), Error>(Error::Twitch(status, message)),
{
    if status == 204 || status == 404 {
        Ok(())
    } else {
        Err(Error::Twitch(status, message))
    }
}

/// Stream lookup: 200 with a row yields the stream; 200 without one means
/// the broadcaster is not live.
pub fn stream_result(status: u16, body: Option<TwitchStreamsResponse>, message: String) -> (r:
    Result<StreamData>)
    ensures
        status == 200 && body is Some && body->Some_0.data@.len() > 0 ==> r == Ok::<
            StreamData,
            Error,
        >(body->Some_0.data@[0]),
        status == 200 && body is Some && body->Some_0.data@.len() == 0 ==> r is Err && r->Err_0
            is Twitch && r->Err_0->Twitch_0 == 200 && r->Err_0->Twitch_1@
            == "No stream data returned."@,
        !(status == 200 && body is Some) ==> r == Err::<StreamData, Error>(
            Error::Twitch(status, message),
        ),
{
    match body {
        Some(mut b) if status == 200 => {
            if b.data.len() > 0 {
                Ok(b.data.remove(0))
            } else {
                Err(Error::Twitch(status, String::from_str("No stream data returned.")))
            }
        },
        _ => Err(Error::Twitch(status, message)),
    }
}

} // verus!
