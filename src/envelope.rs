//! The `{success, message, response?}` envelope that wraps every reply.

use vstd::prelude::*;

verus! {

/// Message of the error returned when a successful envelope carries no payload although one was
/// required.
pub const NO_RESPONSE_MESSAGE: &'static str = "Request was successful but contained no response";

/// A generic response reused for many different requests.
pub struct GenericResponse<T> {
    /// Whether the request succeeded
    pub success: bool,
    /// A message with additional context about the response
    pub message: String,
    /// The response data, if any
    pub response: Option<T>,
}

/// An empty type used when returning a response with no data.
#[derive(Clone, Copy, Debug, PartialEq, Eq, Structural)]
pub struct EmptyResponse;

impl GenericResponse<EmptyResponse> {
    /// Creates a response with no response data.
    pub fn new(success: bool, message: String) -> (r: Self)
        ensures
            r.success == success,
            r.message@ == message@,
            r.response is None,
    {
        GenericResponse { success, message, response: None }
    }

    /// Converts the envelope into a result that carries no value: `Ok` exactly when the
    /// request succeeded, otherwise the envelope's message as the error.
    pub fn into_result_empty(self) -> (r: Result<(), String>)
        ensures
            self.success <==> r is Ok,
            r matches Err(e) ==> e@ == self.message@,
    {
        match self.into_result() {
            Ok(_) => Ok(()),
            Err(e) => Err(e),
        }
    }
}

impl<T> GenericResponse<T> {
    /// Converts the envelope into a result holding its (optional) payload: `Ok` exactly when
    /// the request succeeded, otherwise the envelope's message as the error.
    pub fn into_result(self) -> (r: Result<Option<T>, String>)
        ensures
            self.success ==> r == Ok::<Option<T>, String>(self.response),
            !self.success ==> (r matches Err(e) && e@ == self.message@),
    {
        if self.success {
            Ok(self.response)
        } else {
            Err(self.message)
        }
    }

    /// Like [`Self::into_result`], but a successful envelope without a payload is an error
    /// too, with the message [`NO_RESPONSE_MESSAGE`].
    pub fn into_result_required(self) -> (r: Result<T, String>)
        ensures
            (self.success && self.response is Some) <==> r is Ok,
            r matches Ok(v) ==> self.response == Some(v),
            (self.success && self.response is None) ==> (r matches Err(e)
                && e@ == NO_RESPONSE_MESSAGE@),
            !self.success ==> (r matches Err(e) && e@ == self.message@),
    {
        match (self.success, self.response) {
            (true, Some(response)) => Ok(response),
            (true, None) => Err(NO_RESPONSE_MESSAGE.to_owned()),
            (false, _) => Err(self.message),
        }
    }
}

} // verus!
