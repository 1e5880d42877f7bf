//! The remote client's error surface, modelled as plain data.
//!
//! The transport itself lives outside the library; what the reconciliation
//! logic needs from an error is only whether it carries a particular HTTP
//! status, so an HTTP failure is represented by its optional status code.

pub mod changes;
pub mod folders;
pub mod hosts;
pub mod rules;

use vstd::prelude::*;

verus! {

/// A failed remote call.
#[derive(Debug)]
pub enum ClientError {
    /// The HTTP request failed; the status is present when the failure came
    /// from a non-success response (as opposed to a transport breakdown).
    HttpRequestError { status: Option<u16> },
    /// A response that must carry a concurrency token did not.
    MissingOrInvalidETagError,
    /// A header value could not be constructed.
    HttpRequestInvalidHeaderValue(String),
}

pub enum ClientErrorV {
    HttpRequestError { status: Option<u16> },
    MissingOrInvalidETagError,
    HttpRequestInvalidHeaderValue(Seq<char>),
}

impl DeepView for ClientError {
    type V = ClientErrorV;

    open spec fn deep_view(&self) -> ClientErrorV {
        match self {
            ClientError::HttpRequestError { status } => ClientErrorV::HttpRequestError {
                status: *status,
            },
            ClientError::MissingOrInvalidETagError => ClientErrorV::MissingOrInvalidETagError,
            ClientError::HttpRequestInvalidHeaderValue(s) => (
            ClientErrorV::HttpRequestInvalidHeaderValue(s@)),
        }
    }
}

/// The deep view of a call result: both payload and error abstracted.
pub open spec fn deep_view_result<T: DeepView, E: DeepView>(r: Result<T, E>) -> Result<
    T::V,
    E::V,
> {
    match r {
        Ok(t) => Ok(t.deep_view()),
        Err(e) => Err(e.deep_view()),
    }
}

/// Whether an error is an HTTP failure with exactly this status code.
pub open spec fn spec_is_status(e: ClientErrorV, status_code: u16) -> bool {
    match e {
        ClientErrorV::HttpRequestError { status } => status == Some(status_code),
        _ => false,
    }
}

impl ClientError {
    /// The not-found and precondition-failed interpretations both hang off
    /// this test.
    pub fn is_status(&self, status_code: u16) -> (r: bool)
        ensures
            r == spec_is_status(self.deep_view(), status_code),
    {
        match self {
            ClientError::HttpRequestError { status: Option::Some(s) } => *s == status_code,
            _ => false,
        }
    }
}

impl Clone for ClientError {
    fn clone(&self) -> (r: Self)
        ensures
            r.deep_view() == self.deep_view(),
    {
        match self {
            ClientError::HttpRequestError { status } => ClientError::HttpRequestError {
                status: match status {
                    Option::None => Option::None,
                    Option::Some(s) => Option::Some(*s),
                },
            },
            ClientError::MissingOrInvalidETagError => ClientError::MissingOrInvalidETagError,
            ClientError::HttpRequestInvalidHeaderValue(s) => (
            ClientError::HttpRequestInvalidHeaderValue(s.clone())),
        }
    }
}

} // verus!
