//! The conditions a request can end in, and the HTTP status of each.
use vstd::prelude::*;

verus! {

/// Why a request was not served.
#[derive(Clone, Copy, Debug, PartialEq, Eq, Structural)]
pub enum ServiceError {
    /// The image field is larger than the upload limit.
    PayloadTooLarge,
    /// The image field does not carry an `image/*` content type.
    UnsupportedMediaType,
    /// The form has no image field.
    MissingField,
    /// The request body could not be read as a multipart form.
    BadRequest,
    /// No stored image has the requested name.
    NotFound,
    /// Reading or writing the storage directory failed.
    StorageIo,
}

/// HTTP status code for each condition.
pub open spec fn status_of(e: ServiceError) -> u16 {
    match e {
        ServiceError::PayloadTooLarge => 400,
        ServiceError::UnsupportedMediaType => 400,
        ServiceError::MissingField => 400,
        ServiceError::BadRequest => 400,
        ServiceError::NotFound => 404,
        ServiceError::StorageIo => 500,
    }
}

/// A client error: a status in the 400 range.
pub open spec fn is_client_error(e: ServiceError) -> bool {
    400 <= status_of(e) < 500
}

impl ServiceError {
    /// The HTTP status code the condition is answered with.
    pub fn status(&self) -> (r: u16)
        ensures
            r == status_of(*self),
    {
        match self {
            ServiceError::PayloadTooLarge => 400,
            ServiceError::UnsupportedMediaType => 400,
            ServiceError::MissingField => 400,
            ServiceError::BadRequest => 400,
            ServiceError::NotFound => 404,
            ServiceError::StorageIo => 500,
        }
    }
}

} // verus!
