//! Failures of the response adapter.

use vstd::prelude::*;

verus! {

/// Why a provider response could not be adapted.
#[derive(Debug)]
pub enum ProviderError {
    /// The response held no choice; carries the provider's name.
    EmptyResponse(String),
    /// The arguments of a tool call of a complete message are no JSON
    /// document; carries the parser's diagnostic.
    ArgumentsParse(serde_json::Error),
}

/// A `ProviderError` as contracts speak of it.
pub enum ProviderErrorModel {
    EmptyResponse(Seq<char>),
    ArgumentsParse(serde_json::Error),
}

impl View for ProviderError {
    type V = ProviderErrorModel;

    open spec fn view(&self) -> ProviderErrorModel {
        match *self {
            ProviderError::EmptyResponse(provider) => ProviderErrorModel::EmptyResponse(provider@),
            ProviderError::ArgumentsParse(diagnostic) => ProviderErrorModel::ArgumentsParse(diagnostic),
        }
    }
}

impl ProviderError {
    /// The failure for a response without choices from the named provider.
    pub fn empty_response(provider: &str) -> (error: ProviderError)
        ensures
            error@ == ProviderErrorModel::EmptyResponse(provider@),
    {
        ProviderError::EmptyResponse(provider.to_owned())
    }
}

} // verus!
