//! How a request to the apiserver fails.

use vstd::prelude::*;

verus! {

use crate::text::{debug_quoted, decimal};

/// The apiserver's own words on why it refused a request.
#[derive(Clone, Debug, PartialEq, Eq)]
pub struct ErrorResponse {
    pub status: String,
    pub message: String,
    pub reason: String,
    pub code: u16,
}

/// What an [`ErrorResponse`] holds.
#[verifier::ext_equal]
pub struct ErrorResponseView {
    pub status: Seq<char>,
    pub message: Seq<char>,
    pub reason: Seq<char>,
    pub code: u16,
}

impl DeepView for ErrorResponse {
    type V = ErrorResponseView;

    open spec fn deep_view(&self) -> ErrorResponseView {
        ErrorResponseView {
            status: self.status.deep_view(),
            message: self.message.deep_view(),
            reason: self.reason.deep_view(),
            code: self.code,
        }
    }
}

/// A request that failed: refused by the apiserver, or lost on the way.
#[derive(Clone, Debug, PartialEq, Eq)]
pub enum KubeError {
    /// The apiserver answered with an error.
    Api(ErrorResponse),
    /// Anything else, in the client's words.
    Other(String),
}

/// What a [`KubeError`] holds.
#[verifier::ext_equal]
pub enum KubeErrorView {
    Api(ErrorResponseView),
    Other(Seq<char>),
}

impl DeepView for KubeError {
    type V = KubeErrorView;

    open spec fn deep_view(&self) -> KubeErrorView {
        match self {
            KubeError::Api(e) => KubeErrorView::Api(e.deep_view()),
            KubeError::Other(text) => KubeErrorView::Other(text@),
        }
    }
}

impl ErrorResponseView {
    /// The error in one line: the message and reason, and then every field.
    pub open spec fn line(self) -> Seq<char> {
        "ApiError: "@ + self.message + ": "@ + self.reason + " (ErrorResponse { status: "@
            + debug_quoted(self.status) + ", message: "@ + debug_quoted(self.message)
            + ", reason: "@ + debug_quoted(self.reason) + ", code: "@ + decimal(self.code as nat)
            + " })"@
    }
}

impl KubeErrorView {
    /// The error in one line.
    pub open spec fn line(self) -> Seq<char> {
        match self {
            KubeErrorView::Api(e) => e.line(),
            KubeErrorView::Other(text) => text,
        }
    }
}

/// Calls `Display` of `kube::Error::Api`. Claimed: it writes the message and the
/// reason, and then, in brackets, all fields of the response with the texts
/// quoted as `Debug` quotes them.
#[verifier::external_body]
fn api_error_text(e: &ErrorResponse) -> (r: String)
    ensures
        r@ == e.deep_view().line(),
{
    kube::Error::Api(
        kube::core::ErrorResponse {
            status: e.status.clone(),
            message: e.message.clone(),
            reason: e.reason.clone(),
            code: e.code,
        },
    ).to_string()
}

impl KubeError {
    /// The error in one line.
    pub fn describe(&self) -> (r: String)
        ensures
            r@ == self.deep_view().line(),
    {
        match self {
            KubeError::Api(e) => api_error_text(e),
            KubeError::Other(text) => text.clone(),
        }
    }

    /// Whether the apiserver answered with this code.
    pub fn has_code(&self, code: u16) -> (r: bool)
        ensures
            r == refused_with(self.deep_view(), code),
    {
        match self {
            KubeError::Api(e) => e.code == code,
            KubeError::Other(_) => false,
        }
    }
}

/// The apiserver answered with this code.
pub open spec fn refused_with(e: KubeErrorView, code: u16) -> bool {
    e matches KubeErrorView::Api(response) && response.code == code
}

/// A code is the apiserver's: a request that was lost has none, and a refusal has
/// one.
pub proof fn law_a_refusal_has_one_code(response: ErrorResponseView, lost: Seq<char>, code: u16)
    ensures
        refused_with(KubeErrorView::Api(response), code) <==> response.code == code,
        !refused_with(KubeErrorView::Other(lost), code),
        KubeErrorView::Other(lost).line() == lost,
{
}

} // verus!
