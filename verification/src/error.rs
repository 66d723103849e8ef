//! What can end a dispatch without a completion.

use crate::model::ProviderTag;
use crate::text::{decimal, decimal_text};
use vstd::prelude::*;
use vstd::string::StringExecFns;

verus! {

/// A setting that a provider needs and the configuration lacks.
#[derive(Clone, Copy, Debug, PartialEq, Eq, Structural)]
pub enum ConfigField {
    ApiKey,
    Version,
    Model,
}

/// A place in a provider's response, named by its path from the root.
#[derive(Clone, Copy, Debug, PartialEq, Eq, Structural)]
pub enum ResponseField {
    /// The body as a whole: it is not a JSON document.
    Document,
    /// `choices`
    Choices,
    /// `choices[0]`
    FirstChoice,
    /// `choices[0].message`
    ChoiceMessage,
    /// `choices[0].message.content`
    ChoiceContent,
    /// `message`
    Message,
    /// `message.content`
    MessageContent,
    /// `content`
    Content,
    /// `content[i].text`
    BlockText(usize),
}

impl ResponseField {
    /// The path as it is written: keys joined by dots, indices in brackets.
    pub open spec fn path_text(self) -> Seq<char> {
        match self {
            ResponseField::Document => "(body)"@,
            ResponseField::Choices => "choices"@,
            ResponseField::FirstChoice => "choices[0]"@,
            ResponseField::ChoiceMessage => "choices[0].message"@,
            ResponseField::ChoiceContent => "choices[0].message.content"@,
            ResponseField::Message => "message"@,
            ResponseField::MessageContent => "message.content"@,
            ResponseField::Content => "content"@,
            ResponseField::BlockText(index) => "content["@ + decimal_text(index as nat)
                + "].text"@,
        }
    }

    /// Writes the path out.
    pub fn path(&self) -> (text: String)
        ensures
            text@ == self.path_text(),
    {
        match self {
            ResponseField::Document => "(body)".to_owned(),
            ResponseField::Choices => "choices".to_owned(),
            ResponseField::FirstChoice => "choices[0]".to_owned(),
            ResponseField::ChoiceMessage => "choices[0].message".to_owned(),
            ResponseField::ChoiceContent => "choices[0].message.content".to_owned(),
            ResponseField::Message => "message".to_owned(),
            ResponseField::MessageContent => "message.content".to_owned(),
            ResponseField::Content => "content".to_owned(),
            ResponseField::BlockText(index) => {
                let mut text = "content[".to_owned();
                text.append(decimal(*index).as_str());
                text.append("].text");
                text
            },
        }
    }
}

/// A request that brought no usable reply.
#[derive(Debug, PartialEq, Eq)]
pub enum TransportError {
    /// The server answered with a status outside 200..=299.
    Status { code: u16, body: String },
    /// No HTTP answer came back at all.
    Connection { cause: String },
}

/// The mathematical value of a [`TransportError`].
pub enum TransportErrorView {
    Status { code: u16, body: Seq<char> },
    Connection { cause: Seq<char> },
}

impl View for TransportError {
    type V = TransportErrorView;

    open spec fn view(&self) -> TransportErrorView {
        match self {
            TransportError::Status { code, body } => TransportErrorView::Status {
                code: *code,
                body: body@,
            },
            TransportError::Connection { cause } => TransportErrorView::Connection {
                cause: cause@,
            },
        }
    }
}

impl Clone for TransportError {
    fn clone(&self) -> (copy: TransportError)
        ensures
            copy@ == self@,
    {
        match self {
            TransportError::Status { code, body } => TransportError::Status {
                code: *code,
                body: body.clone(),
            },
            TransportError::Connection { cause } => TransportError::Connection {
                cause: cause.clone(),
            },
        }
    }
}

/// Why a dispatch returned no message.
#[derive(Debug, PartialEq, Eq)]
pub enum DispatchError {
    /// The content is longer than the limit and nobody can be asked.
    SizeLimitExceeded { total: u128, limit: u32 },
    /// The user was asked and declined. A choice, not a failure.
    UserAborted,
    MissingRequiredConfig(ConfigField),
    UnsupportedProvider,
    Transport(TransportError),
    /// The response lacks `field`, or holds something else there.
    Deserialization { provider: ProviderTag, field: ResponseField },
}

/// The mathematical value of a [`DispatchError`].
pub enum DispatchErrorView {
    SizeLimitExceeded { total: nat, limit: nat },
    UserAborted,
    MissingRequiredConfig(ConfigField),
    UnsupportedProvider,
    Transport(TransportErrorView),
    Deserialization { provider: ProviderTag, field: ResponseField },
}

impl View for DispatchError {
    type V = DispatchErrorView;

    open spec fn view(&self) -> DispatchErrorView {
        match self {
            DispatchError::SizeLimitExceeded { total, limit } => DispatchErrorView::SizeLimitExceeded {
                total: *total as nat,
                limit: *limit as nat,
            },
            DispatchError::UserAborted => DispatchErrorView::UserAborted,
            DispatchError::MissingRequiredConfig(field) => DispatchErrorView::MissingRequiredConfig(
                *field,
            ),
            DispatchError::UnsupportedProvider => DispatchErrorView::UnsupportedProvider,
            DispatchError::Transport(e) => DispatchErrorView::Transport(e@),
            DispatchError::Deserialization { provider, field } => DispatchErrorView::Deserialization {
                provider: *provider,
                field: *field,
            },
        }
    }
}

impl Clone for DispatchError {
    fn clone(&self) -> (copy: DispatchError)
        ensures
            copy@ == self@,
    {
        match self {
            DispatchError::SizeLimitExceeded { total, limit } => DispatchError::SizeLimitExceeded {
                total: *total,
                limit: *limit,
            },
            DispatchError::UserAborted => DispatchError::UserAborted,
            DispatchError::MissingRequiredConfig(field) => DispatchError::MissingRequiredConfig(
                *field,
            ),
            DispatchError::UnsupportedProvider => DispatchError::UnsupportedProvider,
            DispatchError::Transport(error) => DispatchError::Transport(error.clone()),
            DispatchError::Deserialization { provider, field } => DispatchError::Deserialization {
                provider: *provider,
                field: *field,
            },
        }
    }
}

impl DispatchError {
    /// Whether the program should end with a failure status: true of every
    /// error but the user's own decision to stop.
    pub fn is_failure(&self) -> (failure: bool)
        ensures
            failure == !(self@ is UserAborted),
    {
        match self {
            DispatchError::UserAborted => false,
            _ => true,
        }
    }
}

} // verus!
