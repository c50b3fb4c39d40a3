//! Translation of read outcomes into HTTP replies.
//!
//! Each endpoint performs exactly one coordinator operation and maps its
//! outcome to a status code and body; no endpoint keeps state of its own.

use vstd::prelude::*;

verus! {

/// Which read endpoint a request came through. Lookups of a single entity
/// by id or by path report a missing entity as not-found; every other read
/// reports an engine failure as an internal error.
#[derive(Clone, Copy, PartialEq, Eq, Structural, Debug)]
pub enum ReadKind {
    Status,
    Search,
    Symbols,
    SymbolById,
    Files,
    FileByPath,
    Tree,
}

/// Body of an HTTP reply: the payload the engine handed back, or an
/// error message to be sent as `{"error": <message>}`.
pub enum Body<T> {
    Data(T),
    Error(String),
}

/// An HTTP reply: status code plus body.
pub struct Reply<T> {
    pub status: u16,
    pub body: Body<T>,
}

/// Status code for an engine failure on the given endpoint: a missing
/// entity on a by-id or by-path lookup is not-found, anything else is an
/// internal error.
pub open spec fn error_status(kind: ReadKind) -> u16 {
    match kind {
        ReadKind::SymbolById | ReadKind::FileByPath => 404,
        _ => 500,
    }
}

/// Message sent while no index handle exists yet. The status endpoint
/// tells the caller how to recover; the other reads answer tersely.
pub open spec fn not_ready_text(kind: ReadKind) -> Seq<char> {
    if kind is Status {
        "ADI not initialized. POST /index first."@
    } else {
        "ADI not initialized"@
    }
}

/// Service-unavailable reply sent when no index handle exists yet.
pub fn not_ready_reply<T>(kind: ReadKind) -> (r: Reply<T>)
    ensures
        r.status == 503,
        r.body matches Body::Error(m) && m@ == not_ready_text(kind),
{
    let msg: String = if matches!(kind, ReadKind::Status) {
        "ADI not initialized. POST /index first.".to_owned()
    } else {
        "ADI not initialized".to_owned()
    };
    Reply { status: 503, body: Body::Error(msg) }
}

/// Exec form of [`error_status`].
pub fn error_status_code(kind: ReadKind) -> (r: u16)
    ensures
        r == error_status(kind),
{
    match kind {
        ReadKind::SymbolById | ReadKind::FileByPath => 404,
        _ => 500,
    }
}

/// Maps what the engine returned for a read into an HTTP reply: success
/// becomes an OK reply carrying the payload unchanged, and a failure
/// becomes the endpoint's error status with the engine's own message.
pub fn engine_reply<T>(kind: ReadKind, outcome: Result<T, String>) -> (r: Reply<T>)
    ensures
        outcome matches Ok(v) ==> {
            &&& r.status == 200
            &&& r.body matches Body::Data(d)
            &&& d == v
        },
        outcome matches Err(e) ==> {
            &&& r.status == error_status(kind)
            &&& r.body matches Body::Error(m)
            &&& m == e
        },
{
    match outcome {
        Ok(v) => Reply { status: 200, body: Body::Data(v) },
        Err(e) => Reply { status: error_status_code(kind), body: Body::Error(e) },
    }
}

/// Keeps at most `limit` results, preserving the engine's order: the first
/// `limit` of them, or all of them where fewer came back.
pub fn clamp_results<T>(results: Vec<T>, limit: usize) -> (r: Vec<T>)
    ensures
        limit <= results@.len() ==> r@ == results@.subrange(0, limit as int),
        limit > results@.len() ==> r@ == results@,
        limit == 0 ==> r@.len() == 0,
{
    let mut v = results;
    v.truncate(limit);
    v
}

/// Maps what the engine returned for a list-returning read into an HTTP
/// reply, enforcing the result-count limit: success carries at most
/// `limit` results in the engine's order — a limit of zero therefore
/// yields an empty list without error — and a failure becomes the
/// endpoint's error status with the engine's own message.
pub fn search_reply<T>(kind: ReadKind, outcome: Result<Vec<T>, String>, limit: usize) -> (r:
    Reply<Vec<T>>)
    ensures
        outcome matches Ok(v) ==> {
            &&& r.status == 200
            &&& r.body matches Body::Data(w)
            &&& (limit <= v@.len() ==> w@ == v@.subrange(0, limit as int))
            &&& (limit > v@.len() ==> w@ == v@)
            &&& (limit == 0 ==> w@.len() == 0)
        },
        outcome matches Err(e) ==> {
            &&& r.status == error_status(kind)
            &&& r.body matches Body::Error(m)
            &&& m == e
        },
{
    match outcome {
        Ok(v) => engine_reply(kind, Ok(clamp_results(v, limit))),
        Err(e) => engine_reply(kind, Err(e)),
    }
}

/// Result-count limit used when a query omits one.
pub fn default_limit() -> (r: usize)
    ensures
        r == 10,
{
    10
}

/// A parsed search query: the query text and the result-count limit.
pub struct SearchQuery {
    pub q: String,
    pub limit: usize,
}

impl SearchQuery {
    /// Builds a query, substituting the default limit where none was given.
    pub fn new(q: String, limit: Option<usize>) -> (r: SearchQuery)
        ensures
            r.q == q,
            limit matches Some(l) ==> r.limit == l,
            limit is None ==> r.limit == 10,
    {
        let lim: usize = match limit {
            Some(l) => l,
            None => default_limit(),
        };
        SearchQuery { q, limit: lim }
    }
}

/// Health report returned by the liveness endpoints.
pub struct HealthInfo {
    pub status: String,
    pub service: String,
    pub version: String,
}

/// Liveness reply: always OK, naming the service and its version.
pub fn health_reply(version: String) -> (r: Reply<HealthInfo>)
    ensures
        r.status == 200,
        r.body matches Body::Data(h) && h.status@ == "ok"@ && h.service@ == "adi-http"@
            && h.version == version,
{
    Reply {
        status: 200,
        body: Body::Data(
            HealthInfo {
                status: "ok".to_owned(),
                service: "adi-http".to_owned(),
                version,
            },
        ),
    }
}

} // verus!
