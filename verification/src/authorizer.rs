//! The authorization gate: from request headers to an allow/deny
//! decision.
//!
//! The checks run in a fixed order and stop at the first failure, so a
//! denial always carries exactly one diagnostic: the `Authorization`
//! header must be present and carry the literal prefix `"Bearer "`, then
//! the `X-UserId` and `X-DeviceId` headers must be present. Only then is
//! the external credential validator consulted; its outcome is taken
//! here as a plain value, since the authorizer itself decides nothing about
//! signatures.

use vstd::prelude::*;
use vstd::string::StrSliceExecFns;
use vstd::string::StringExecFns;

use crate::simple_authorizer_response::SimpleAuthorizerResponse;
use crate::table::Table;

verus! {

/// Whether a header value starts with the literal `"Bearer "` (seven
/// characters).
pub open spec fn has_bearer_prefix(v: Seq<char>) -> bool {
    v.len() >= 7 && v.subrange(0, 7) == "Bearer "@
}

/// The token carried after the `"Bearer "` prefix.
pub open spec fn bearer_token(v: Seq<char>) -> Seq<char> {
    v.subrange(7, v.len() as int)
}

/// A context holding the single diagnostic entry `failure = msg`.
pub open spec fn failure_context(msg: Seq<char>) -> Map<Seq<char>, Seq<char>> {
    Map::<Seq<char>, Seq<char>>::empty().insert("failure"@, msg)
}

/// The credentials the authorizer extracts from the headers, or the diagnostic
/// of the first check that fails.
pub open spec fn credentials_spec(h: Map<Seq<char>, Seq<char>>) -> Result<
    (Seq<char>, Seq<char>, Seq<char>),
    Seq<char>,
> {
    if !h.contains_key("Authorization"@) {
        Err("Missing Authorization header"@)
    } else if !has_bearer_prefix(h["Authorization"@]) {
        Err("Invalid Authorization header"@)
    } else if !h.contains_key("X-UserId"@) {
        Err("Missing UserId header"@)
    } else if !h.contains_key("X-DeviceId"@) {
        Err("Missing DeviceId header"@)
    } else {
        Ok((bearer_token(h["Authorization"@]), h["X-UserId"@], h["X-DeviceId"@]))
    }
}

/// The view of a validator outcome.
pub open spec fn validation_view(v: Result<(), String>) -> Result<(), Seq<char>> {
    match v {
        Ok(u) => Ok(u),
        Err(m) => Err(m@),
    }
}

/// The decision once the headers have passed and the validator has
/// reported: success allows with an empty context, failure denies with
/// the validator's message in the diagnostic.
pub open spec fn validated_decision_spec(v: Result<(), Seq<char>>) -> (
    bool,
    Map<Seq<char>, Seq<char>>,
) {
    match v {
        Ok(_) => (true, Map::<Seq<char>, Seq<char>>::empty()),
        Err(m) => (false, failure_context("Token validation error: "@ + m)),
    }
}

/// The decision for given headers, once the external validator's outcome
/// is known. The outcome is consulted only when every header check
/// passes.
pub open spec fn decide_spec(h: Map<Seq<char>, Seq<char>>, validation: Result<(), Seq<char>>) -> (
    bool,
    Map<Seq<char>, Seq<char>>,
) {
    match credentials_spec(h) {
        Err(msg) => (false, failure_context(msg)),
        Ok(_) => validated_decision_spec(validation),
    }
}

/// The credentials of a request that passed every header check.
pub struct Credentials {
    pub token: String,
    pub user_id: String,
    pub device_id: String,
}

/// A denial carrying the given diagnostic.
fn deny(msg: &str) -> (r: SimpleAuthorizerResponse)
    ensures
        r.wf(),
        r@ == (false, failure_context(msg@)),
{
    let mut context = Table::<String>::new();
    context.insert(String::from_str("failure"), msg.to_owned());
    SimpleAuthorizerResponse::new(false, context)
}

/// Check the headers in their fixed order and extract the credentials,
/// or return the denial for the first check that fails.
pub fn extract_credentials(headers: &Table<String>) -> (r: Result<
    Credentials,
    SimpleAuthorizerResponse,
>)
    requires
        headers.wf(),
    ensures
        match r {
            Ok(c) => credentials_spec(headers@) == Ok::<_, Seq<char>>(
                (c.token@, c.user_id@, c.device_id@),
            ),
            Err(d) => {
                &&& d.wf()
                &&& credentials_spec(headers@) is Err
                &&& d@ == (false, failure_context(credentials_spec(headers@)->Err_0))
            },
        },
{
    let token: String;
    match headers.get("Authorization") {
        Some(value) => {
            let n = value.as_str().unicode_len();
            if n >= 7 {
                let prefix = value.as_str().substring_char(0, 7);
                if prefix.to_owned() == String::from_str("Bearer ") {
                    token = value.as_str().substring_char(7, n).to_owned();
                } else {
                    return Err(deny("Invalid Authorization header"));
                }
            } else {
                return Err(deny("Invalid Authorization header"));
            }
        },
        None => {
            return Err(deny("Missing Authorization header"));
        },
    }
    let user_id: String = match headers.get("X-UserId") {
        Some(value) => value.clone(),
        None => {
            return Err(deny("Missing UserId header"));
        },
    };
    let device_id: String = match headers.get("X-DeviceId") {
        Some(value) => value.clone(),
        None => {
            return Err(deny("Missing DeviceId header"));
        },
    };
    Ok(Credentials { token, user_id, device_id })
}

/// The decision once the external validator has reported.
pub fn validation_decision(validation: Result<(), String>) -> (r: SimpleAuthorizerResponse)
    ensures
        r.wf(),
        r@ == validated_decision_spec(validation_view(validation)),
{
    match validation {
        Ok(()) => SimpleAuthorizerResponse::new(true, Table::new()),
        Err(m) => {
            let mut msg = String::from_str("Token validation error: ");
            msg.append(m.as_str());
            let mut context = Table::<String>::new();
            context.insert(String::from_str("failure"), msg);
            SimpleAuthorizerResponse::new(false, context)
        },
    }
}

/// The full decision for given headers and validator outcome: deny with
/// the first failed header check's diagnostic, otherwise decide by the
/// validator's outcome.
pub fn decide(headers: &Table<String>, validation: Result<(), String>) -> (r:
    SimpleAuthorizerResponse)
    requires
        headers.wf(),
    ensures
        r.wf(),
        r@ == decide_spec(headers@, validation_view(validation)),
{
    match extract_credentials(headers) {
        Err(d) => d,
        Ok(_credentials) => validation_decision(validation),
    }
}

} // verus!
