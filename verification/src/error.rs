//! The errors of a provider.

use std::time::Duration;

use vstd::prelude::*;

verus! {

/// Why a provider could not do what it was asked.
#[derive(Debug, PartialEq)]
pub enum ProviderError {
    /// The credential is missing, malformed or refused.
    Auth(String),
    /// Too many requests; the backend may say how long to wait.
    RateLimited { retry_after: Option<Duration> },
    /// The prompt exceeds the context window. Zeros stand for sizes that the backend left out.
    ContextTooLong { limit: u64, requested: u64 },
    /// The model is overloaded or not available at the moment.
    ModelOverloaded,
    /// The request cannot be served as it stands.
    InvalidRequest(String),
    /// The backend failed, or something in this library's own set-up is wrong.
    Internal(String),
    /// The backend's answer could not be understood.
    Parse(String),
    /// The backend could not be reached.
    Network(String),
}

/// What a [`ProviderError`] says.
#[verifier::ext_equal]
pub enum ErrorView {
    Auth(Seq<char>),
    RateLimited { retry_after: Option<Duration> },
    ContextTooLong { limit: u64, requested: u64 },
    ModelOverloaded,
    InvalidRequest(Seq<char>),
    Internal(Seq<char>),
    Parse(Seq<char>),
    Network(Seq<char>),
}

impl View for ProviderError {
    type V = ErrorView;

    open spec fn view(&self) -> ErrorView {
        match *self {
            ProviderError::Auth(m) => ErrorView::Auth(m@),
            ProviderError::RateLimited { retry_after } => ErrorView::RateLimited { retry_after },
            ProviderError::ContextTooLong { limit, requested } => ErrorView::ContextTooLong {
                limit,
                requested,
            },
            ProviderError::ModelOverloaded => ErrorView::ModelOverloaded,
            ProviderError::InvalidRequest(m) => ErrorView::InvalidRequest(m@),
            ProviderError::Internal(m) => ErrorView::Internal(m@),
            ProviderError::Parse(m) => ErrorView::Parse(m@),
            ProviderError::Network(m) => ErrorView::Network(m@),
        }
    }
}

} // verus!
