//! The adapter families: which wire format a provider speaks.

use crate::error::{DispatchError, DispatchErrorView};
use crate::model::ProviderTag;
use vstd::prelude::*;

verus! {

/// A family of providers that share a wire format and a way to authenticate.
#[derive(Clone, Copy, Debug, PartialEq, Eq, Structural)]
pub enum Adapter {
    /// OpenAI, Mistral and Groq: bearer token, reply in `choices`.
    OpenAiCompatible,
    /// Ollama: no credential, reply in `message`.
    Ollama,
    /// Anthropic: key and version headers, reply in content blocks.
    Anthropic,
}

/// How a request proves who sends it.
#[derive(Clone, Copy, Debug, PartialEq, Eq, Structural)]
pub enum AuthScheme {
    /// `Authorization: Bearer <key>`
    Bearer,
    /// `x-api-key: <key>`
    KeyHeader,
    /// No credential at all.
    Anonymous,
}

/// The adapter of a provider; none for the tag that only tests use.
pub open spec fn adapter_of(provider: ProviderTag) -> Option<Adapter> {
    match provider {
        ProviderTag::OpenAI | ProviderTag::Mistral | ProviderTag::Groq => Some(
            Adapter::OpenAiCompatible,
        ),
        ProviderTag::Ollama => Some(Adapter::Ollama),
        ProviderTag::Anthropic => Some(Adapter::Anthropic),
        ProviderTag::TestOnly => None,
    }
}

impl Adapter {
    /// The one way in which requests of this family authenticate.
    pub open spec fn auth_scheme(self) -> AuthScheme {
        match self {
            Adapter::OpenAiCompatible => AuthScheme::Bearer,
            Adapter::Ollama => AuthScheme::Anonymous,
            Adapter::Anthropic => AuthScheme::KeyHeader,
        }
    }

    /// Selects the adapter of a provider.
    pub fn select(provider: ProviderTag) -> (selected: Result<Adapter, DispatchError>)
        ensures
            match selected {
                Ok(adapter) => adapter_of(provider) == Some(adapter),
                Err(e) => adapter_of(provider) is None && e@
                    == DispatchErrorView::UnsupportedProvider,
            },
    {
        match provider {
            ProviderTag::OpenAI | ProviderTag::Mistral | ProviderTag::Groq => Ok(
                Adapter::OpenAiCompatible,
            ),
            ProviderTag::Ollama => Ok(Adapter::Ollama),
            ProviderTag::Anthropic => Ok(Adapter::Anthropic),
            ProviderTag::TestOnly => Err(DispatchError::UnsupportedProvider),
        }
    }

    /// The way in which requests of this family authenticate.
    pub fn scheme(&self) -> (scheme: AuthScheme)
        ensures
            scheme == self.auth_scheme(),
    {
        match self {
            Adapter::OpenAiCompatible => AuthScheme::Bearer,
            Adapter::Ollama => AuthScheme::Anonymous,
            Adapter::Anthropic => AuthScheme::KeyHeader,
        }
    }
}

} // verus!
