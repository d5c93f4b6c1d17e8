//! The response envelope shared by every handler.

use vstd::prelude::*;

verus! {

/// What every handler answers with: a success flag, the payload on success,
/// the message on failure.
#[derive(Debug)]
pub struct ApiResponse<T> {
    pub success: bool,
    pub data: Option<T>,
    pub error: Option<String>,
}

/// What a handler returns: the success envelope, or the error envelope.
pub type ApiResult<T> = Result<ApiResponse<T>, ApiResponse<()>>;

impl<T> ApiResponse<T> {
    /// The envelope carries a payload or a message, not both, and its flag
    /// says which.
    pub open spec fn is_well_formed(&self) -> bool {
        if self.success {
            self.data is Some && self.error is None
        } else {
            self.data is None && self.error is Some
        }
    }

    /// The envelope is the success envelope.
    pub open spec fn is_success(&self) -> bool {
        self.success && self.data is Some && self.error is None
    }

    /// The envelope is the error envelope that carries `msg`.
    pub open spec fn is_failure(&self, msg: Seq<char>) -> bool {
        &&& !self.success
        &&& self.data is None
        &&& self.error matches Some(text)
        &&& text@ == msg
    }

    /// The envelope is an error envelope whose message begins with `prefix`.
    pub open spec fn is_failure_beginning(&self, prefix: Seq<char>) -> bool {
        &&& !self.success
        &&& self.data is None
        &&& self.error matches Some(text)
        &&& prefix.is_prefix_of(text@)
    }

    /// The success envelope around `data`.
    pub fn ok(data: T) -> (r: Self)
        ensures
            r.is_success(),
            r.is_well_formed(),
            r.data == Some(data),
    {
        Self { success: true, data: Some(data), error: None }
    }

    /// The error envelope with the message `msg`.
    pub fn err(msg: &str) -> (r: Self)
        ensures
            r.is_failure(msg@),
            r.is_well_formed(),
    {
        Self { success: false, data: None, error: Some(msg.to_owned()) }
    }
}

/// `res` is the reply that stands for `outcome`: the success envelope around a
/// payload whose view is the outcome's value, or the error envelope with the
/// outcome's message.
pub open spec fn replied<T: View>(res: ApiResult<T>, outcome: Result<T::V, Seq<char>>) -> bool {
    match outcome {
        Ok(value) => {
            &&& res matches Ok(r)
            &&& r.is_success()
            &&& r.data->0@ == value
        },
        Err(msg) => {
            &&& res matches Err(e)
            &&& e.is_failure(msg)
        },
    }
}

} // verus!
