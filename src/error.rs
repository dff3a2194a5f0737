use vstd::prelude::*;

verus! {

/// Failures that the hub operations report to their callers.
#[derive(Debug, Clone, Copy, PartialEq, Eq, Structural)]
pub enum AppError {
    /// The hub id is absent from the store, or has been evicted.
    NotFound,
    /// The record's time-to-live had elapsed when a mutation read it.
    Expired,
    /// A record with the same id already exists.
    Conflict,
    /// The record store could not be reached or answered with an error.
    StoreFailure,
    /// Writing bytes to the object store failed.
    WriteFailure,
    /// Reading bytes back from the object store failed.
    ReadFailure,
    /// An uploaded part could not be read from the request.
    UploadFailure,
    /// The archive could not be assembled.
    ArchiveFailure,
    /// The system clock reads an instant outside the supported years.
    ClockFailure,
}

pub const STATUS_OK: u16 = 200;
pub const STATUS_CREATED: u16 = 201;
pub const STATUS_BAD_REQUEST: u16 = 400;
pub const STATUS_NOT_FOUND: u16 = 404;
pub const STATUS_SERVER_ERROR: u16 = 500;

/// The status code under which an error is reported to an HTTP caller.
pub open spec fn status_of(e: AppError) -> u16 {
    match e {
        AppError::NotFound | AppError::Expired => STATUS_NOT_FOUND,
        AppError::UploadFailure => STATUS_BAD_REQUEST,
        _ => STATUS_SERVER_ERROR,
    }
}

impl AppError {
    /// The HTTP status and the message shown to the caller; no internal detail
    /// of a store or object failure is revealed.
    pub fn status_and_message(&self) -> (r: (u16, String))
        ensures
            r.0 == status_of(*self),
            r.0 == STATUS_NOT_FOUND ==> r.1@ == "Hub not found"@,
            r.0 == STATUS_BAD_REQUEST ==> r.1@ == "File upload failed"@,
            r.0 == STATUS_SERVER_ERROR ==> r.1@ == "Internal Server Error"@,
    {
        match self {
            AppError::NotFound | AppError::Expired => (
                STATUS_NOT_FOUND,
                String::from_str("Hub not found"),
            ),
            AppError::UploadFailure => (STATUS_BAD_REQUEST, String::from_str("File upload failed")),
            _ => (STATUS_SERVER_ERROR, String::from_str("Internal Server Error")),
        }
    }
}

} // verus!
