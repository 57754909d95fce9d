//! The error taxonomy of the crate.

use vstd::prelude::*;

verus! {

/// Abstract value of a [`FisherError`].
pub ghost enum FisherErrorV {
    ProviderNotFound(Seq<char>),
    ProviderGitHubInvalidEventName(Seq<char>),
    ProviderGitLabInvalidEventName(Seq<char>),
    InvalidConfig,
    IoError(Seq<char>),
    BindFailed(Seq<char>),
}

/// Everything that can go wrong while loading configuration or running
/// the service. Per-request problems are not errors: they classify the
/// request as invalid instead.
#[derive(Debug)]
pub enum FisherError {
    /// A hook declared a provider name the registry does not know.
    ProviderNotFound(String),
    /// A GitHub configuration listed an event name outside the fixed set.
    ProviderGitHubInvalidEventName(String),
    /// A GitLab configuration listed an event name outside the fixed set.
    ProviderGitLabInvalidEventName(String),
    /// A provider configuration was not valid JSON of the expected shape.
    InvalidConfig,
    /// A script could not be read or written.
    IoError(String),
    /// The HTTP listener could not bind.
    BindFailed(String),
}

impl View for FisherError {
    type V = FisherErrorV;

    open spec fn view(&self) -> FisherErrorV {
        match self {
            FisherError::ProviderNotFound(n) => FisherErrorV::ProviderNotFound(n@),
            FisherError::ProviderGitHubInvalidEventName(n) => {
                FisherErrorV::ProviderGitHubInvalidEventName(n@)
            },
            FisherError::ProviderGitLabInvalidEventName(n) => {
                FisherErrorV::ProviderGitLabInvalidEventName(n@)
            },
            FisherError::InvalidConfig => FisherErrorV::InvalidConfig,
            FisherError::IoError(m) => FisherErrorV::IoError(m@),
            FisherError::BindFailed(m) => FisherErrorV::BindFailed(m@),
        }
    }
}

} // verus!
