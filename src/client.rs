//! What the session client decides on its own: how an answer of the service
//! is classified, and the credentials it attaches to each request.
use vstd::prelude::*;
use vstd::string::StringExecFns;

verus! {

/// Failures of the engine and its collaborators.
#[derive(Clone, Debug, PartialEq, Eq)]
pub enum BananaErr {
    /// The account table could not be read or parsed.
    ConfigUnreadable,
    /// The account table could not be written back.
    ConfigWriteFailed,
    /// The login handshake did not yield a session.
    LoginFailed,
    /// The request failed at the network or HTTP layer, or its payload was malformed.
    TransportFailed,
    /// The service answered with this non-zero status code and this message.
    ApiRejected(i64, String),
    /// A click pass met a transport failure and was abandoned.
    ClickAborted,
    /// The quest list could not be fetched.
    QuestListUnavailable,
}

/// Whether `e` is the service's rejection with status `code` and `message`.
pub open spec fn rejection(e: BananaErr, code: i64, message: Seq<char>) -> bool {
    &&& e is ApiRejected
    &&& e->ApiRejected_0 == code
    &&& e->ApiRejected_1@ == message
}

/// Classifies an answer from whether the HTTP exchange succeeded, the status
/// code its payload carried, if any, and the service's message. A failed
/// transport, or a payload without a status code, is a transport failure;
/// code 0 is success; any other code is a rejection that keeps the code and
/// the message.
pub fn classify(http_ok: bool, code: Option<i64>, message: &str) -> (r: Result<(), BananaErr>)
    ensures
        r is Ok <==> http_ok && code == Some(0i64),
        !http_ok || code is None ==> r == Err::<(), BananaErr>(BananaErr::TransportFailed),
        http_ok && code is Some && code != Some(0i64) ==> (r is Err && rejection(
            r->Err_0,
            code->Some_0,
            message@,
        )),
{
    if !http_ok {
        return Err(BananaErr::TransportFailed);
    }
    match code {
        None => Err(BananaErr::TransportFailed),
        Some(c) => if c == 0 {
            Ok(())
        } else {
            Err(BananaErr::ApiRejected(c, message.to_owned()))
        },
    }
}

/// The value of the `Authorization` header for a bearer token.
pub fn bearer(token: &str) -> (r: String)
    ensures
        r@ == "Bearer "@ + token@,
{
    let mut h = String::from_str("Bearer ");
    h.append(token);
    h
}

} // verus!
