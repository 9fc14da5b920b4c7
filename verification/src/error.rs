//! The failures a request can end in, and the response each one is answered
//! with: a status code and a JSON error envelope.

use vstd::prelude::*;

verus! {

/// Status of a response to a malformed request body.
pub const BAD_REQUEST: u16 = 400;

/// Status of a response to a request without a valid API key.
pub const UNAUTHORIZED: u16 = 401;

/// Status of a response to any other failure.
pub const INTERNAL_SERVER_ERROR: u16 = 500;

/// Why a request failed.
#[derive(Clone, Debug, PartialEq, Eq)]
pub enum Error {
    /// The request body was not acceptable JSON. Holds the rejection text of
    /// the body parser.
    RequestBodyInvalid(String),
    /// The bearer token is missing or is not the configured API key.
    InvalidApiKey,
    /// Any other failure. Holds its display text.
    Internal(String),
}

/// The `type` field of an error envelope.
#[derive(Clone, Copy, Debug, PartialEq, Eq, Structural)]
pub enum ErrorType {
    /// The caller sent something wrong.
    InvalidRequestError,
    /// The gateway failed.
    ServerError,
}

/// The JSON body of a failed request.
#[derive(Clone, Debug, PartialEq, Eq)]
pub struct ErrorEnvelope {
    /// Human-readable description of the failure.
    pub message: String,
    /// Which side is at fault.
    pub type_field: ErrorType,
    /// The request parameter at fault, if one is known.
    pub param: Option<String>,
}

/// A failed request as it goes out on the wire.
#[derive(Clone, Debug, PartialEq, Eq)]
pub struct ErrorResponse {
    /// HTTP status code.
    pub status: u16,
    /// JSON body.
    pub body: ErrorEnvelope,
}

/// Display text of a rejected API key.
pub open spec fn invalid_api_key_text() -> Seq<char> {
    "Invalid API key"@
}

impl ErrorType {
    /// The text that stands for this type on the wire.
    pub open spec fn text(self) -> Seq<char> {
        match self {
            ErrorType::InvalidRequestError => "invalid_request_error"@,
            ErrorType::ServerError => "server_error"@,
        }
    }

    /// The text that stands for this type on the wire.
    pub fn as_str(&self) -> (text: &'static str)
        ensures
            text@ == self.text(),
    {
        match self {
            ErrorType::InvalidRequestError => "invalid_request_error",
            ErrorType::ServerError => "server_error",
        }
    }
}

impl Error {
    /// The display text of this error.
    pub open spec fn text(self) -> Seq<char> {
        match self {
            Error::RequestBodyInvalid(rejection) => rejection@,
            Error::InvalidApiKey => invalid_api_key_text(),
            Error::Internal(display) => display@,
        }
    }

    /// The status code this error is answered with.
    pub open spec fn status(self) -> u16 {
        match self {
            Error::RequestBodyInvalid(_) => BAD_REQUEST,
            Error::InvalidApiKey => UNAUTHORIZED,
            Error::Internal(_) => INTERNAL_SERVER_ERROR,
        }
    }

    /// The envelope type this error is answered with.
    pub open spec fn error_type(self) -> ErrorType {
        match self {
            Error::RequestBodyInvalid(_) => ErrorType::InvalidRequestError,
            Error::InvalidApiKey => ErrorType::InvalidRequestError,
            Error::Internal(_) => ErrorType::ServerError,
        }
    }

    /// The display text of this error.
    pub fn message(&self) -> (text: String)
        ensures
            text@ == self.text(),
    {
        match self {
            Error::RequestBodyInvalid(rejection) => rejection.clone(),
            Error::InvalidApiKey => "Invalid API key".to_owned(),
            Error::Internal(display) => display.clone(),
        }
    }

    /// Maps this error to the response that reports it: a malformed body is a
    /// 400 and a rejected key a 401, both of type `invalid_request_error`;
    /// everything else is a 500 of type `server_error`. The message is the
    /// error's text and `param` is always absent.
    pub fn into_response(self) -> (response: ErrorResponse)
        ensures
            response.status == self.status(),
            response.body.message@ == self.text(),
            response.body.type_field == self.error_type(),
            response.body.param is None,
            self is RequestBodyInvalid ==> response.status == 400 && response.body.type_field
                is InvalidRequestError,
            self is InvalidApiKey ==> response.status == 401 && response.body.type_field
                is InvalidRequestError,
            self is Internal ==> response.status == 500 && response.body.type_field
                is ServerError,
    {
        match self {
            Error::RequestBodyInvalid(rejection) => ErrorResponse {
                status: BAD_REQUEST,
                body: ErrorEnvelope {
                    message: rejection,
                    type_field: ErrorType::InvalidRequestError,
                    param: None,
                },
            },
            Error::InvalidApiKey => ErrorResponse {
                status: UNAUTHORIZED,
                body: ErrorEnvelope {
                    message: Error::InvalidApiKey.message(),
                    type_field: ErrorType::InvalidRequestError,
                    param: None,
                },
            },
            Error::Internal(display) => ErrorResponse {
                status: INTERNAL_SERVER_ERROR,
                body: ErrorEnvelope {
                    message: display,
                    type_field: ErrorType::ServerError,
                    param: None,
                },
            },
        }
    }
}

} // verus!
