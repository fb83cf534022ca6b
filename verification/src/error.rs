//! The error taxonomy of the reconciliation core.

use vstd::prelude::*;

verus! {

/// An error surfaced by a reconcile cycle.
#[derive(Clone, Debug, PartialEq, Eq)]
pub enum Error {
    /// The declared spec is semantically invalid; terminal for the current
    /// generation — it will re-fail identically until the spec is edited.
    ValidationError(String),
    /// A cluster API call failed for availability, conflict or rate-limit
    /// reasons; retriable.
    ApiError(String),
    /// Startup-time configuration fault (e.g. the node resource type is not
    /// registered with the cluster); fatal, reconciliation does not run.
    ConfigError(String),
}

/// Spec-level view of an error.
#[verifier::ext_equal]
pub enum ErrorView {
    ValidationError(Seq<char>),
    ApiError(Seq<char>),
    ConfigError(Seq<char>),
}

impl View for Error {
    type V = ErrorView;

    open spec fn view(&self) -> ErrorView {
        match self {
            Error::ValidationError(m) => ErrorView::ValidationError(m@),
            Error::ApiError(m) => ErrorView::ApiError(m@),
            Error::ConfigError(m) => ErrorView::ConfigError(m@),
        }
    }
}

/// Only cluster API failures are transient; validation and configuration
/// faults re-fail identically until the input changes.
pub open spec fn spec_is_retriable(e: ErrorView) -> bool {
    e is ApiError
}

impl Error {
    /// Whether retrying without any other change can succeed.
    pub fn is_retriable(&self) -> (r: bool)
        ensures
            r == spec_is_retriable(self@),
    {
        match self {
            Error::ApiError(_) => true,
            Error::ValidationError(_) => false,
            Error::ConfigError(_) => false,
        }
    }
}

} // verus!
