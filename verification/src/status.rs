//! HTTP statuses the server answers with, and how database failures map to them.

use vstd::prelude::*;

verus! {

/// The statuses the server's handlers answer with.
#[derive(Clone, Copy, Debug, PartialEq, Eq, Structural)]
pub enum ApiStatus {
    /// 200
    Success,
    /// 201
    Created,
    /// 204
    NoContent,
    /// 404
    NotFound,
    /// 500
    InternalError,
}

/// The numeric code of a status.
pub open spec fn status_code(s: ApiStatus) -> u16 {
    match s {
        ApiStatus::Success => 200,
        ApiStatus::Created => 201,
        ApiStatus::NoContent => 204,
        ApiStatus::NotFound => 404,
        ApiStatus::InternalError => 500,
    }
}

impl ApiStatus {
    /// The numeric HTTP status code.
    pub fn code(&self) -> (c: u16)
        ensures
            c == status_code(*self),
    {
        match self {
            ApiStatus::Success => 200,
            ApiStatus::Created => 201,
            ApiStatus::NoContent => 204,
            ApiStatus::NotFound => 404,
            ApiStatus::InternalError => 500,
        }
    }
}

/// Why a query that expects exactly one row failed.
#[derive(Clone, Copy, Debug, PartialEq, Eq, Structural)]
pub enum FetchError {
    /// The query matched no row.
    RowNotFound,
    /// Any other database failure.
    Other,
}

/// A failed database statement or multi-row query.
#[derive(Clone, Copy, Debug, PartialEq, Eq, Structural)]
pub struct DbError;

/// A missing row is answered with 404, any other failure with 500.
pub open spec fn fetch_status(error: FetchError) -> ApiStatus {
    match error {
        FetchError::RowNotFound => ApiStatus::NotFound,
        FetchError::Other => ApiStatus::InternalError,
    }
}

/// Maps the failure of a single-row query to the status the client receives.
pub fn map_fetch_one_error(error: FetchError) -> (status: ApiStatus)
    ensures
        status == fetch_status(error),
{
    match error {
        FetchError::RowNotFound => ApiStatus::NotFound,
        FetchError::Other => ApiStatus::InternalError,
    }
}

} // verus!
