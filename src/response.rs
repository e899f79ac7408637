//! The mapping of every failure to a status code and a message.
use vstd::prelude::*;
use crate::error::ImageError;
use crate::models::ErrorMessage;

verus! {

/// A failure of a request: one of the pipeline, or one of the transport
/// around it.
#[derive(Clone, Debug)]
pub enum Failure {
    /// The pipeline failed.
    Image(ImageError),
    /// The body exceeds the upload ceiling; carries the transport's diagnostic.
    PayloadTooLarge(String),
    /// A header is missing or invalid; carries the transport's diagnostic.
    InvalidHeader(String),
    /// No route matches the path.
    NotFound,
    /// A route matches the path but not the method.
    MethodNotAllowed,
    /// Anything else.
    Internal,
}

/// The message of internal failures: their diagnostics stay on the server.
pub open spec fn internal_message() -> Seq<char> {
    "Error on server side"@
}

impl Failure {
    /// The status code a failure is answered with.
    pub open spec fn spec_status(&self) -> u16 {
        match self {
            Failure::Image(e) => if e is EncodeError {
                500
            } else {
                400
            },
            Failure::PayloadTooLarge(_) => 400,
            Failure::InvalidHeader(_) => 400,
            Failure::NotFound => 404,
            Failure::MethodNotAllowed => 405,
            Failure::Internal => 500,
        }
    }

    /// The message a failure is answered with.
    pub open spec fn spec_message(&self) -> Seq<char> {
        match self {
            Failure::Image(e) => if e is EncodeError {
                internal_message()
            } else {
                e.spec_label() + ": "@ + e.spec_detail()
            },
            Failure::PayloadTooLarge(d) => "Bad request: "@ + d@,
            Failure::InvalidHeader(d) => "Bad request: "@ + d@,
            Failure::NotFound => "Resource not found"@,
            Failure::MethodNotAllowed => "Method not allowed"@,
            Failure::Internal => internal_message(),
        }
    }

    pub fn status_code(&self) -> (r: u16)
        ensures
            r == self.spec_status(),
    {
        match self {
            Failure::Image(ImageError::EncodeError(_)) => 500,
            Failure::Image(_) => 400,
            Failure::PayloadTooLarge(_) => 400,
            Failure::InvalidHeader(_) => 400,
            Failure::NotFound => 404,
            Failure::MethodNotAllowed => 405,
            Failure::Internal => 500,
        }
    }

    pub fn message(&self) -> (r: String)
        ensures
            r@ == self.spec_message(),
    {
        match self {
            Failure::Image(ImageError::EncodeError(_)) => String::from_str("Error on server side"),
            Failure::Image(e) => e.describe(),
            Failure::PayloadTooLarge(d) => String::from_str("Bad request: ").concat(d.as_str()),
            Failure::InvalidHeader(d) => String::from_str("Bad request: ").concat(d.as_str()),
            Failure::NotFound => String::from_str("Resource not found"),
            Failure::MethodNotAllowed => String::from_str("Method not allowed"),
            Failure::Internal => String::from_str("Error on server side"),
        }
    }

    /// The status code and the body of the reply to a failure.
    pub fn reply(&self) -> (r: (u16, ErrorMessage))
        ensures
            r.0 == self.spec_status(),
            r.1.message@ == self.spec_message(),
    {
        let text = self.message();
        (self.status_code(), ErrorMessage::new(text.as_str()))
    }
}

} // verus!
