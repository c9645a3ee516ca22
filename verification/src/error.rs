//! Why a command line could not be resolved.

use vstd::prelude::*;
use vstd::string::*;

verus! {

/// Failure of a resolution. None of them is recovered from: no partial plan is ever
/// returned.
#[derive(Clone, Debug, PartialEq, Eq)]
pub enum ResolveError {
    /// More than three host-like tokens were given.
    TooManyArguments,
    /// A positional token is no valid address; the payload is the parser's explanation.
    BadAddress(String),
    /// No entry of the SSH client configuration matches the alias in the payload.
    SshHostNotFound(String),
    /// The SSH client configuration could not be read or parsed; the payload says why.
    SshConfigUnreadable(String),
}

/// Mathematical value of [`ResolveError`].
pub enum ResolveErrorView {
    TooManyArguments,
    BadAddress(Seq<char>),
    SshHostNotFound(Seq<char>),
    SshConfigUnreadable(Seq<char>),
}

impl View for ResolveError {
    type V = ResolveErrorView;

    open spec fn view(&self) -> ResolveErrorView {
        match self {
            ResolveError::TooManyArguments => ResolveErrorView::TooManyArguments,
            ResolveError::BadAddress(detail) => ResolveErrorView::BadAddress(detail@),
            ResolveError::SshHostNotFound(alias) => ResolveErrorView::SshHostNotFound(alias@),
            ResolveError::SshConfigUnreadable(detail) => ResolveErrorView::SshConfigUnreadable(
                detail@,
            ),
        }
    }
}

impl ResolveErrorView {
    /// The text shown to the user.
    pub open spec fn message(self) -> Seq<char> {
        match self {
            ResolveErrorView::TooManyArguments => "Too many arguments"@,
            ResolveErrorView::BadAddress(detail) => "Bad address option: "@ + detail,
            ResolveErrorView::SshHostNotFound(alias) => "SSH host '"@ + alias
                + "' not found in ~/.ssh/config"@,
            ResolveErrorView::SshConfigUnreadable(detail) => "Could not parse SSH config: "@
                + detail,
        }
    }
}

impl ResolveError {
    /// The text shown to the user.
    pub fn message(&self) -> (r: String)
        ensures
            r@ == self@.message(),
    {
        match self {
            ResolveError::TooManyArguments => "Too many arguments".to_string(),
            ResolveError::BadAddress(detail) => {
                "Bad address option: ".to_string().concat(detail.as_str())
            },
            ResolveError::SshHostNotFound(alias) => {
                "SSH host '".to_string().concat(alias.as_str()).concat(
                    "' not found in ~/.ssh/config",
                )
            },
            ResolveError::SshConfigUnreadable(detail) => {
                "Could not parse SSH config: ".to_string().concat(detail.as_str())
            },
        }
    }
}

/// Mathematical value of a result that fails with a [`ResolveError`].
pub open spec fn outcome_view<T: View>(outcome: Result<T, ResolveError>) -> Result<
    T::V,
    ResolveErrorView,
> {
    match outcome {
        Ok(value) => Ok(value@),
        Err(error) => Err(error@),
    }
}

} // verus!
