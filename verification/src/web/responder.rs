//! How the site answers a request.
use vstd::prelude::*;

verus! {

/// The method of a request, as far as the site tells methods apart.
#[derive(Debug, Clone, Copy, PartialEq, Eq, Structural)]
pub enum RequestMethod {
    Get,
    Other,
}

/// Why reading a request failed.
#[derive(Debug, Clone, Copy, PartialEq, Eq, Structural)]
pub enum RequestFailure {
    /// The connection sent nothing.
    NoBytesRead,
    /// The connection took too long.
    Timeout,
    /// The request was malformed.
    Malformed,
}

/// The statuses the site answers with.
#[derive(Debug, Clone, Copy, PartialEq, Eq, Structural)]
pub enum ResponseStatus {
    /// The file was found and is sent.
    Success,
    NotFound,
    MethodNotAllowed,
    RequestTimeout,
    BadRequest,
}

/// What to do with a request that was read.
#[derive(Debug, Clone, Copy, PartialEq, Eq, Structural)]
pub enum ResponsePlan {
    /// Look up the file of the request's target and answer with it.
    Route,
    /// Answer with this status at once.
    Answer(ResponseStatus),
    /// Send nothing.
    Silence,
}

/// Decides the answers of the site.
pub struct CurdsWebHttpResponder;

impl CurdsWebHttpResponder {
    /// What to do with the outcome of reading a request: a `GET` is routed,
    /// another method is not allowed; a connection that sent nothing gets
    /// no answer, a slow one a timeout, and any other failure a bad request.
    pub fn plan(parsed: Result<RequestMethod, RequestFailure>) -> (r: ResponsePlan)
        ensures
            r == match parsed {
                Ok(RequestMethod::Get) => ResponsePlan::Route,
                Ok(RequestMethod::Other) => ResponsePlan::Answer(ResponseStatus::MethodNotAllowed),
                Err(RequestFailure::NoBytesRead) => ResponsePlan::Silence,
                Err(RequestFailure::Timeout) => ResponsePlan::Answer(ResponseStatus::RequestTimeout),
                Err(RequestFailure::Malformed) => ResponsePlan::Answer(ResponseStatus::BadRequest),
            },
    {
        match parsed {
            Ok(RequestMethod::Get) => ResponsePlan::Route,
            Ok(RequestMethod::Other) => ResponsePlan::Answer(ResponseStatus::MethodNotAllowed),
            Err(RequestFailure::NoBytesRead) => ResponsePlan::Silence,
            Err(RequestFailure::Timeout) => ResponsePlan::Answer(ResponseStatus::RequestTimeout),
            Err(RequestFailure::Malformed) => ResponsePlan::Answer(ResponseStatus::BadRequest),
        }
    }

    /// The status of a routed request: found or not found.
    pub fn routed_status(found: bool) -> (r: ResponseStatus)
        ensures
            r == if found { ResponseStatus::Success } else { ResponseStatus::NotFound },
    {
        if found { ResponseStatus::Success } else { ResponseStatus::NotFound }
    }
}

} // verus!
