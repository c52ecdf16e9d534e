//! The application API: reading and writing keys.
//!
//! - `POST /write` saves a value under a key through Raft and syncs the nodes.
//! - `POST /read` finds the value of a key.
//! - `POST /consistent_read` does the same once the node has confirmed it leads.

use vstd::prelude::*;

use crate::network::err::{
    deserialize_failed_message, is_deserialize_failure, is_failure_caused_by, write_failed_message,
    AppError,
};
use crate::network::payload::{json_error_text, json_string, parse_json_string};
use crate::network::{HttpMethod, Route};
use crate::store::{stored_value, KeyValueStore};

verus! {

/// The handlers of the application API.
#[derive(Debug, Clone, Copy, PartialEq, Eq)]
pub enum ApiEndpoint {
    Write,
    Read,
    ConsistentRead,
}

/// `r` sends `method` requests on `path` to `endpoint`.
pub open spec fn route_is<E>(r: Route<E>, method: HttpMethod, path: Seq<char>, endpoint: E) -> bool {
    r.method == method && r.path@ == path && r.endpoint == endpoint
}

/// The routes of the application API: `POST /write`, `POST /read` and
/// `POST /consistent_read`, in that order.
pub fn rest() -> (routes: Vec<Route<ApiEndpoint>>)
    ensures
        routes@.len() == 3,
        route_is(routes@[0], HttpMethod::Post, "/write"@, ApiEndpoint::Write),
        route_is(routes@[1], HttpMethod::Post, "/read"@, ApiEndpoint::Read),
        route_is(routes@[2], HttpMethod::Post, "/consistent_read"@, ApiEndpoint::ConsistentRead),
{
    let mut routes = Vec::new();
    routes.push(
        Route {
            method: HttpMethod::Post,
            path: String::from_str("/write"),
            endpoint: ApiEndpoint::Write,
        },
    );
    routes.push(
        Route {
            method: HttpMethod::Post,
            path: String::from_str("/read"),
            endpoint: ApiEndpoint::Read,
        },
    );
    routes.push(
        Route {
            method: HttpMethod::Post,
            path: String::from_str("/consistent_read"),
            endpoint: ApiEndpoint::ConsistentRead,
        },
    );
    routes
}

/// The answer to a read, given what reading the request body as a JSON string
/// gave: the key, or the reader's error text.  A key is answered with the
/// value stored under it, or the empty string when none is; a body that was
/// not a JSON string is refused, with the reader's error as the cause.
pub fn answer_read(key: Result<String, String>, kvs: &KeyValueStore) -> (res: Result<String, AppError>)
    ensures
        match key {
            Ok(k) => res matches Ok(v) && v@ == stored_value(kvs@, k@),
            Err(c) => res matches Err(e) && is_failure_caused_by(e, deserialize_failed_message(), c@),
        },
{
    match key {
        Ok(k) => match kvs.get(&k) {
            Some(v) => Ok(v.clone()),
            None => Ok(String::new()),
        },
        Err(c) => Err(AppError::deserialize_failed(c)),
    }
}

/// Reads the key that the JSON request body holds and answers with its value:
/// the value stored under the key, or the empty string when none is; a body
/// that is not a JSON string is refused, with the reader's error as the cause.
pub fn read(payload: &[u8], kvs: &KeyValueStore) -> (res: Result<String, AppError>)
    ensures
        match json_string(payload@) {
            Some(k) => res matches Ok(v) && v@ == stored_value(kvs@, k),
            None => res matches Err(e) && is_deserialize_failure(e),
        },
{
    let key = match parse_json_string(payload) {
        Ok(k) => Ok(k),
        Err(e) => Err(json_error_text(&e)),
    };
    answer_read(key, kvs)
}

/// The answer to a consistent read: when the node has confirmed that it leads,
/// the answer of `read` to the body; otherwise nothing (the node answers with
/// the reason it could not confirm, and does not look at the body).
pub fn consistent_read(leadership_confirmed: bool, payload: &[u8], kvs: &KeyValueStore) -> (res:
    Option<Result<String, AppError>>)
    ensures
        !leadership_confirmed ==> res is None,
        leadership_confirmed ==> match json_string(payload@) {
            Some(k) => res matches Some(Ok(v)) && v@ == stored_value(kvs@, k),
            None => res matches Some(Err(e)) && is_deserialize_failure(e),
        },
{
    if leadership_confirmed {
        Some(read(payload, kvs))
    } else {
        None
    }
}

/// Whether a write is proposed to the Raft log, given what reading its body
/// as a write request gave (nothing, or the reader's error text): only a body
/// that was read is proposed; one that was not is refused before anything is
/// proposed, with the reader's error as the cause.
pub fn accept_write_body(parse: Result<(), String>) -> (res: Result<(), AppError>)
    ensures
        match parse {
            Ok(()) => res is Ok,
            Err(c) => res matches Err(e) && is_failure_caused_by(e, deserialize_failed_message(), c@),
        },
{
    match parse {
        Ok(()) => Ok(()),
        Err(c) => Err(AppError::deserialize_failed(c)),
    }
}

/// The answer to a proposed write, given what the engine answered: its
/// response when the write was committed, or the text of its error when not.
/// An uncommitted write is answered with the "client write failed" error,
/// caused by the engine's error.
pub fn answer_write<R>(outcome: Result<R, String>) -> (res: Result<R, AppError>)
    ensures
        match outcome {
            Ok(r) => res == Ok::<R, AppError>(r),
            Err(c) => res matches Err(e) && is_failure_caused_by(e, write_failed_message(), c@),
        },
{
    match outcome {
        Ok(r) => Ok(r),
        Err(c) => Err(AppError::write_failed(c)),
    }
}

} // verus!
