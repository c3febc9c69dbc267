//! Types used by a handler implementation.

use vstd::prelude::*;
use vstd::string::StringExecFns;

verus! {

/// A service-level error, returned by a handler or by its interceptor.
#[derive(Debug, PartialEq, Eq)]
pub enum ServiceError {
    /// The request carries no valid credentials.
    Authentication,
    /// The credentials do not allow the request.
    Authorization,
    /// The handler failed; the text is a debug rendering of the cause.
    Internal(String),
}

/// The mathematical value of a `ServiceError`.
pub enum ServiceErrorModel {
    Authentication,
    Authorization,
    Internal(Seq<char>),
}

impl View for ServiceError {
    type V = ServiceErrorModel;

    open spec fn view(&self) -> ServiceErrorModel {
        match self {
            ServiceError::Authentication => ServiceErrorModel::Authentication,
            ServiceError::Authorization => ServiceErrorModel::Authorization,
            ServiceError::Internal(s) => ServiceErrorModel::Internal(s@),
        }
    }
}

/// The message of a service error.
pub open spec fn service_error_message(e: ServiceErrorModel) -> Seq<char> {
    match e {
        ServiceErrorModel::Authentication => "authentication error"@,
        ServiceErrorModel::Authorization => "not authorized"@,
        ServiceErrorModel::Internal(s) => "internal server error: "@ + s,
    }
}

impl ServiceError {
    /// The message of the error, as it is shown to a user.
    pub fn to_string(&self) -> (r: String)
        ensures
            r@ == service_error_message(self@),
    {
        match self {
            ServiceError::Authentication => String::from_str("authentication error"),
            ServiceError::Authorization => String::from_str("not authorized"),
            ServiceError::Internal(e) => {
                let mut s = String::from_str("internal server error: ");
                s.append(e.as_str());
                s
            },
        }
    }
}

} // verus!
