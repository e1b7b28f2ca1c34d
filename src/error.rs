//! Errors of the store and of the request layer, and the HTTP status each
//! one is answered with.

use vstd::prelude::*;

verus! {

/// What the store reported when a query failed.
#[derive(Clone, Copy, Debug, PartialEq, Eq, Structural)]
pub enum StoreFailure {
    /// The record the query needed does not exist.
    RecordNotFound,
    /// A unique column already holds the value written.
    UniqueKeyViolation,
    /// Any other failure.
    Other,
}

/// Errors of the data-access layer.
#[derive(Clone, Copy, Debug, PartialEq, Eq, Structural)]
pub enum DbErr {
    NotFound,
    QueryError(StoreFailure),
    Unauthorized,
}

/// Errors of a request handler.
#[derive(Clone, Copy, Debug, PartialEq, Eq, Structural)]
pub enum AppError {
    StoreError(StoreFailure),
    NotFound,
    Unauthorized,
    HashingError,
}

/// Errors of the browser client when it calls the API.
#[derive(Clone, Copy, Debug, PartialEq, Eq, Structural)]
pub enum ApiError {
    ServerError,
    NotFound,
}

pub open spec fn app_error_of_store(f: StoreFailure) -> AppError {
    match f {
        StoreFailure::RecordNotFound => AppError::NotFound,
        _ => AppError::StoreError(f),
    }
}

pub open spec fn app_error_of_db(e: DbErr) -> AppError {
    match e {
        DbErr::NotFound => AppError::NotFound,
        DbErr::QueryError(f) => app_error_of_store(f),
        DbErr::Unauthorized => AppError::Unauthorized,
    }
}

pub open spec fn status_of(e: AppError) -> u16 {
    match e {
        AppError::StoreError(StoreFailure::UniqueKeyViolation) => 409,
        AppError::StoreError(_) => 400,
        AppError::NotFound => 404,
        AppError::Unauthorized => 401,
        AppError::HashingError => 500,
    }
}

impl AppError {
    /// A missing record is `NotFound`; any other store failure is kept.
    pub fn from_store_failure(f: StoreFailure) -> (r: AppError)
        ensures
            r == app_error_of_store(f),
    {
        match f {
            StoreFailure::RecordNotFound => AppError::NotFound,
            _ => AppError::StoreError(f),
        }
    }

    /// The handler error for an error of the data-access layer.
    pub fn from_db_err(e: DbErr) -> (r: AppError)
        ensures
            r == app_error_of_db(e),
    {
        match e {
            DbErr::NotFound => AppError::NotFound,
            DbErr::QueryError(f) => AppError::from_store_failure(f),
            DbErr::Unauthorized => AppError::Unauthorized,
        }
    }

    /// The HTTP status of the error: 409 for a unique-key violation, 400
    /// for another store failure, 404, 401, and 500 for a hashing failure.
    pub fn status_code(&self) -> (r: u16)
        ensures
            r == status_of(*self),
    {
        match self {
            AppError::StoreError(StoreFailure::UniqueKeyViolation) => 409,
            AppError::StoreError(_) => 400,
            AppError::NotFound => 404,
            AppError::Unauthorized => 401,
            AppError::HashingError => 500,
        }
    }
}

/// The outcome of an API response, from its status: success for 2xx,
/// `NotFound` for 404, `ServerError` for anything else.
pub fn check_response_status(status: u16) -> (r: Result<(), ApiError>)
    ensures
        (200 <= status <= 299) <==> r is Ok,
        !(200 <= status <= 299) && status == 404 ==> r == Err::<(), ApiError>(ApiError::NotFound),
        !(200 <= status <= 299) && status != 404 ==> r == Err::<(), ApiError>(ApiError::ServerError),
{
    if 200 <= status && status <= 299 {
        Ok(())
    } else if status == 404 {
        Err(ApiError::NotFound)
    } else {
        Err(ApiError::ServerError)
    }
}

} // verus!
