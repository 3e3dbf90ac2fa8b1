//! What the sidecar tells a client whose request has failed.

use vstd::prelude::*;

verus! {

/// A failure as it is answered: an HTTP status, a code and a message.
#[derive(Debug, Clone, PartialEq, Eq)]
pub struct SidecarError {
    status: u16,
    code: &'static str,
    message: String,
}

/// What a [`SidecarError`] holds.
#[verifier::ext_equal]
pub struct SidecarErrorView {
    pub status: u16,
    pub code: Seq<char>,
    pub message: Seq<char>,
}

impl SidecarError {
    /// What the failure holds.
    pub closed spec fn view(self) -> SidecarErrorView {
        SidecarErrorView { status: self.status, code: self.code@, message: self.message@ }
    }

    /// A failure of an adapter.
    pub fn adapter(status: u16, code: &'static str, message: String) -> (error: Self)
        ensures
            error@ == (SidecarErrorView { status, code: code@, message: message@ }),
    {
        SidecarError { status, code, message }
    }

    pub fn status(&self) -> (status: u16)
        ensures
            status == self@.status,
    {
        self.status
    }

    pub fn code(&self) -> (code: &'static str)
        ensures
            code@ == self@.code,
    {
        self.code
    }

    pub fn message(&self) -> (message: &str)
        ensures
            message@ == self@.message,
    {
        self.message.as_str()
    }
}

} // verus!
