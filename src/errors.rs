//! The client-facing error envelope, and how upstream statuses map onto the
//! gateway's own.
use crate::fun_translations_client::FunTranslationsClientError;
use crate::poke_api_client::PokeApiClientError;
use vstd::prelude::*;

verus! {

/// The body of every error reply: a stable tag and a diagnostic.
#[derive(Debug, PartialEq)]
pub struct ApiErrorResponseBody {
    pub code: ApiErrorResponseCode,
    pub message: String,
}

/// The stable tag of an error reply.
#[derive(Clone, Copy, Debug, PartialEq, Eq, Structural)]
pub enum ApiErrorResponseCode {
    TranslatableDescriptionNotFound,
    PokeApiError,
    FunTranslationsError,
    TooManyRequests,
}

pub const INTERNAL_SERVER_ERROR: u16 = 500;

pub const NOT_FOUND: u16 = 404;

pub const TOO_MANY_REQUESTS: u16 = 429;

/// Whether `s` is a representable HTTP status code (three digits).
pub open spec fn is_status_code(s: u16) -> bool {
    100 <= s && s <= 999
}

/// The gateway's status for an upstream failure that came with status `s`:
/// `s` itself where it is representable, else 500.
pub open spec fn spec_map_status(s: Option<u16>) -> u16 {
    match s {
        Some(code) => if is_status_code(code) {
            code
        } else {
            INTERNAL_SERVER_ERROR
        },
        None => INTERNAL_SERVER_ERROR,
    }
}

/// Maps the status that came with an upstream failure onto the gateway's
/// reply status.
pub fn map_reqwest_to_actix_status_code(status: Option<u16>) -> (r: u16)
    ensures
        r == spec_map_status(status),
        is_status_code(r),
{
    match status {
        Some(code) => if 100 <= code && code <= 999 {
            code
        } else {
            INTERNAL_SERVER_ERROR
        },
        None => INTERNAL_SERVER_ERROR,
    }
}


impl PokeApiClientError {
    pub open spec fn spec_status_code(&self) -> u16 {
        match self {
            PokeApiClientError::DescriptionNotFound(_) => NOT_FOUND,
            PokeApiClientError::RequestError(e) => spec_map_status(e.spec_status()),
        }
    }

    pub open spec fn spec_code(&self) -> ApiErrorResponseCode {
        match self {
            PokeApiClientError::DescriptionNotFound(_) => {
                ApiErrorResponseCode::TranslatableDescriptionNotFound
            },
            PokeApiClientError::RequestError(_) => ApiErrorResponseCode::PokeApiError,
        }
    }

    /// The status of the gateway's reply to this failure.
    pub fn status_code(&self) -> (r: u16)
        ensures
            r == self.spec_status_code(),
    {
        match self {
            PokeApiClientError::DescriptionNotFound(_) => NOT_FOUND,
            PokeApiClientError::RequestError(e) => map_reqwest_to_actix_status_code(e.status()),
        }
    }

    /// The body of the gateway's reply to this failure.
    pub fn error_response(&self) -> (r: ApiErrorResponseBody)
        ensures
            r.code == self.spec_code(),
            r.message@ == self.spec_message(),
    {
        let code = match self {
            PokeApiClientError::DescriptionNotFound(_) => {
                ApiErrorResponseCode::TranslatableDescriptionNotFound
            },
            PokeApiClientError::RequestError(_) => ApiErrorResponseCode::PokeApiError,
        };
        ApiErrorResponseBody { code, message: self.message() }
    }
}

impl FunTranslationsClientError {
    pub open spec fn spec_status_code(&self) -> u16 {
        spec_map_status(self.0.spec_status())
    }

    /// A 429 from the style upstream means that it is rate-limiting the
    /// gateway, and is told apart.
    pub open spec fn spec_code(&self) -> ApiErrorResponseCode {
        if self.0.spec_status() == Some(TOO_MANY_REQUESTS) {
            ApiErrorResponseCode::TooManyRequests
        } else {
            ApiErrorResponseCode::FunTranslationsError
        }
    }

    /// The status of the gateway's reply to this failure.
    pub fn status_code(&self) -> (r: u16)
        ensures
            r == self.spec_status_code(),
    {
        map_reqwest_to_actix_status_code(self.0.status())
    }

    /// The body of the gateway's reply to this failure.
    pub fn error_response(&self) -> (r: ApiErrorResponseBody)
        ensures
            r.code == self.spec_code(),
            r.message@ == self.spec_message(),
    {
        let code = match self.0.status() {
            Some(TOO_MANY_REQUESTS) => ApiErrorResponseCode::TooManyRequests,
            _ => ApiErrorResponseCode::FunTranslationsError,
        };
        ApiErrorResponseBody { code, message: self.message() }
    }
}

} // verus!
