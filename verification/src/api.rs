//! The server's HTTP API: the request payloads and how the handlers turn
//! database outcomes into status codes.

use vstd::prelude::*;

verus! {

/// The OpenAPI description of the API.
#[derive(Clone, Copy, Debug)]
pub struct ApiDoc;

/// The body of a request that names a node or a channel.
#[derive(Debug)]
pub struct VerboseNamePayload {
    pub verbose_name: String,
}

/// HTTP 200: the request succeeded.
pub const OK: u16 = 200;

/// HTTP 404: the node or channel does not exist.
pub const NOT_FOUND: u16 = 404;

/// HTTP 500: the database failed.
pub const INTERNAL_SERVER_ERROR: u16 = 500;

/// The row a handler goes on with, or the status it answers: 404 when the
/// database has no such row, 500 when the database failed.
pub fn found<T, E>(lookup: Result<Option<T>, E>) -> (res: Result<T, u16>)
    ensures
        lookup matches Ok(Some(v)) ==> res == Ok::<T, u16>(v),
        lookup matches Ok(None) ==> res == Err::<T, u16>(NOT_FOUND),
        lookup is Err ==> res == Err::<T, u16>(INTERNAL_SERVER_ERROR),
{
    match lookup {
        Ok(Some(v)) => Ok(v),
        Ok(None) => Err(NOT_FOUND),
        Err(_) => Err(INTERNAL_SERVER_ERROR),
    }
}

/// The status a handler answers once its update has been written: 200 on
/// success, 500 when the database failed.
pub fn written<E>(update: Result<(), E>) -> (res: Result<u16, u16>)
    ensures
        update is Ok ==> res == Ok::<u16, u16>(OK),
        update is Err ==> res == Err::<u16, u16>(INTERNAL_SERVER_ERROR),
{
    match update {
        Ok(()) => Ok(OK),
        Err(_) => Err(INTERNAL_SERVER_ERROR),
    }
}

} // verus!
