//! Errors that the control plane reports to its callers.

use crate::text::concat;
use vstd::prelude::*;

verus! {

/// Why a request was not carried out.
#[derive(Debug, Clone)]
pub enum ApiError {
    /// The document could not be turned into text.
    InternalError(String),
    /// The file system refused the configuration file or its directory.
    SystemError(String),
    /// The request does not come from a user that may make it.
    Unauthorized(String),
    /// A password could not be hashed, or a stored text is no hash.
    PasswordHashError,
}

/// An error by its kind and the characters of its message.
pub enum ApiErrorView {
    InternalError(Seq<char>),
    SystemError(Seq<char>),
    Unauthorized(Seq<char>),
    PasswordHashError,
}

impl View for ApiError {
    type V = ApiErrorView;

    open spec fn view(&self) -> ApiErrorView {
        match self {
            ApiError::InternalError(m) => ApiErrorView::InternalError(m@),
            ApiError::SystemError(m) => ApiErrorView::SystemError(m@),
            ApiError::Unauthorized(m) => ApiErrorView::Unauthorized(m@),
            ApiError::PasswordHashError => ApiErrorView::PasswordHashError,
        }
    }
}

impl ApiError {
    /// The message of the error.
    pub open spec fn message_text(&self) -> Seq<char> {
        match self {
            ApiError::InternalError(m) => m@,
            ApiError::SystemError(m) => m@,
            ApiError::Unauthorized(m) => m@,
            ApiError::PasswordHashError => "Password hash error"@,
        }
    }

    /// The message of the error.
    pub fn message(&self) -> (m: String)
        ensures
            m@ == self.message_text(),
    {
        match self {
            ApiError::InternalError(m) => m.clone(),
            ApiError::SystemError(m) => m.clone(),
            ApiError::Unauthorized(m) => m.clone(),
            ApiError::PasswordHashError => "Password hash error".to_owned(),
        }
    }

    /// An internal error that says `what` failed and `why`.
    pub fn internal(what: &str, why: &str) -> (e: ApiError)
        ensures
            e@ == ApiErrorView::InternalError(what@ + why@),
    {
        ApiError::InternalError(concat(what, why))
    }

    /// A system error that says `what` failed and `why`.
    pub fn system(what: &str, why: &str) -> (e: ApiError)
        ensures
            e@ == ApiErrorView::SystemError(what@ + why@),
    {
        ApiError::SystemError(concat(what, why))
    }
}

/// The result of a rendering by its view.
pub open spec fn outcome_view(r: Result<String, ApiError>) -> Result<Seq<char>, ApiErrorView> {
    match r {
        Ok(s) => Ok(s@),
        Err(e) => Err(e@),
    }
}

} // verus!
