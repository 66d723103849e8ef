//! The dispatcher: guard, request, reply, message.
//!
//! Asking the user and sending the request are the caller's part. The
//! dispatcher says what to do next ([`Step`]) and takes the outcome back:
//! [`begin`], then [`resume`] where the user was asked, then [`complete`]
//! with the reply to the request that was sent. [`replay`] runs the same
//! sequence against an answer and a reply that are already at hand.

use crate::adapter::{adapter_of, Adapter};
use crate::error::{DispatchError, DispatchErrorView, ResponseField};
use crate::guard::{
    check, confirm, decision, verdict, Decision, ExecutionMode, Verdict, VerdictView,
};
use crate::json::{parse, parsed_json, Json, JsonValue};
use crate::model::{
    clone_optional_text, ApiConfig, ApiConfigView, Message, MessageView, Prompt, PromptView,
    ProviderTag, Role,
};
use crate::request::{request_of, ProviderRequest, RequestView};
use crate::transport::{classified, classify, HttpReply, HttpReplyView};
use vstd::prelude::*;

verus! {

/// What the caller is to do next.
#[derive(Debug, PartialEq, Eq)]
pub enum Step {
    /// Show the total and the limit, read one line, and call [`resume`].
    Confirm { total: u128, limit: u32 },
    /// Send this request, once, and call [`complete`] with what came back.
    Send(ProviderRequest),
    /// Send nothing: the dispatch has ended.
    Stop(DispatchError),
}

/// The mathematical value of a [`Step`].
pub enum StepView {
    Confirm { total: nat, limit: nat },
    Send(RequestView),
    Stop(DispatchErrorView),
}

impl View for Step {
    type V = StepView;

    open spec fn view(&self) -> StepView {
        match self {
            Step::Confirm { total, limit } => StepView::Confirm {
                total: *total as nat,
                limit: *limit as nat,
            },
            Step::Send(request) => StepView::Send(request@),
            Step::Stop(error) => StepView::Stop(error@),
        }
    }
}

/// The prompt as it is sent: the model filled in from the configuration where
/// the prompt names none, and streaming switched off.
pub open spec fn prepared(config: ApiConfigView, prompt: PromptView) -> PromptView {
    PromptView {
        provider: prompt.provider,
        model: if prompt.model is Some {
            prompt.model
        } else {
            config.default_model
        },
        messages: prompt.messages,
        stream: Some(false),
        char_limit: prompt.char_limit,
    }
}

/// The step that follows once the guard is passed: the request is sent, or a
/// provider that cannot be dispatched to or a missing setting ends the
/// dispatch.
pub open spec fn request_step(config: ApiConfigView, prompt: PromptView) -> StepView {
    match adapter_of(prompt.provider) {
        None => StepView::Stop(DispatchErrorView::UnsupportedProvider),
        Some(adapter) => match request_of(adapter, config, prepared(config, prompt)) {
            Ok(request) => StepView::Send(request),
            Err(field) => StepView::Stop(DispatchErrorView::MissingRequiredConfig(field)),
        },
    }
}

/// The first step of a dispatch: the guard comes before everything else.
pub open spec fn first_step(
    config: ApiConfigView,
    prompt: PromptView,
    mode: ExecutionMode,
) -> StepView {
    match verdict(prompt, mode) {
        VerdictView::Proceed => request_step(config, prompt),
        VerdictView::Ask { total, limit } => StepView::Confirm { total, limit },
        VerdictView::Reject { total, limit } => StepView::Stop(
            DispatchErrorView::SizeLimitExceeded { total, limit },
        ),
    }
}

/// The step that follows the user's answer.
pub open spec fn step_after_answer(
    config: ApiConfigView,
    prompt: PromptView,
    answer: Seq<char>,
) -> StepView {
    match decision(answer) {
        Decision::Proceed => request_step(config, prompt),
        Decision::Abort => StepView::Stop(DispatchErrorView::UserAborted),
    }
}

/// The message in a response body once it is read as JSON: the text that the
/// provider's adapter finds, spoken by the assistant.
pub open spec fn message_in(provider: ProviderTag, document: Option<JsonValue>) -> Result<
    MessageView,
    DispatchErrorView,
> {
    match adapter_of(provider) {
        None => Err(DispatchErrorView::UnsupportedProvider),
        Some(adapter) => match document {
            None => Err(
                DispatchErrorView::Deserialization { provider, field: ResponseField::Document },
            ),
            Some(document) => match adapter.completion(document) {
                Ok(text) => Ok(MessageView { role: Role::Assistant, content: text }),
                Err(field) => Err(DispatchErrorView::Deserialization { provider, field }),
            },
        },
    }
}

/// The end of a dispatch, given what came back and what JSON makes of a body.
pub open spec fn completion(provider: ProviderTag, reply: HttpReplyView) -> Result<
    MessageView,
    DispatchErrorView,
> {
    match classified(reply) {
        Err(error) => Err(DispatchErrorView::Transport(error)),
        Ok(body) => message_in(provider, parsed_json(body)),
    }
}

/// The step on which a dispatch settles once the user, where asked, has
/// answered: a request to send, or the end.
pub open spec fn settled_step(
    config: ApiConfigView,
    prompt: PromptView,
    mode: ExecutionMode,
    answer: Seq<char>,
) -> StepView {
    match first_step(config, prompt, mode) {
        StepView::Confirm { .. } => step_after_answer(config, prompt, answer),
        step => step,
    }
}

/// A whole dispatch, seen from outside: how it ended and how many requests
/// went out.
#[derive(Debug, PartialEq, Eq)]
pub struct Trace {
    pub outcome: Result<Message, DispatchError>,
    pub requests: usize,
}

/// The mathematical value of a [`Trace`].
pub struct TraceView {
    pub outcome: Result<MessageView, DispatchErrorView>,
    pub requests: nat,
}

impl View for Trace {
    type V = TraceView;

    open spec fn view(&self) -> TraceView {
        TraceView { outcome: message_outcome(self.outcome), requests: self.requests as nat }
    }
}

/// The course of a dispatch for a user who would answer `answer` and a server
/// that would reply `reply`: one request where the dispatch settles on
/// sending, none where it ends before.
pub open spec fn replayed(
    config: ApiConfigView,
    prompt: PromptView,
    mode: ExecutionMode,
    answer: Seq<char>,
    reply: HttpReplyView,
) -> TraceView {
    match settled_step(config, prompt, mode, answer) {
        StepView::Send(_) => TraceView { outcome: completion(prompt.provider, reply), requests: 1 },
        StepView::Stop(error) => TraceView { outcome: Err(error), requests: 0 },
        StepView::Confirm { .. } => TraceView {
            outcome: Err(DispatchErrorView::UserAborted),
            requests: 0,
        },
    }
}

/// The value of a dispatch's end.
pub open spec fn message_outcome(outcome: Result<Message, DispatchError>) -> Result<
    MessageView,
    DispatchErrorView,
> {
    match outcome {
        Ok(message) => Ok(message@),
        Err(error) => Err(error@),
    }
}

/// A copy of the prompt, made ready to send; the caller's prompt stays as it
/// is.
pub fn prepare(config: &ApiConfig, prompt: &Prompt) -> (ready: Prompt)
    ensures
        ready@ == prepared(config@, prompt@),
{
    let mut ready = prompt.clone();
    if ready.model.is_none() {
        ready.model = clone_optional_text(&config.default_model);
    }
    ready.stream = Some(false);
    ready
}

/// Builds the request of a prompt that has passed the guard.
pub fn request(config: &ApiConfig, prompt: &Prompt) -> (step: Step)
    ensures
        step@ == request_step(config@, prompt@),
        !(step is Confirm),
{
    let ready = prepare(config, prompt);
    let adapter = match Adapter::select(ready.provider) {
        Ok(adapter) => adapter,
        Err(error) => return Step::Stop(error),
    };
    match adapter.build_request(config, &ready) {
        Ok(request) => Step::Send(request),
        Err(field) => Step::Stop(DispatchError::MissingRequiredConfig(field)),
    }
}

/// Starts a dispatch: checks the size of the prompt and, where nothing stands
/// against it, builds the request.
pub fn begin(config: &ApiConfig, prompt: &Prompt, mode: ExecutionMode) -> (step: Step)
    ensures
        step@ == first_step(config@, prompt@, mode),
{
    match check(prompt, mode) {
        Verdict::Proceed => request(config, prompt),
        Verdict::Ask { total, limit } => Step::Confirm { total, limit },
        Verdict::Reject { total, limit } => Step::Stop(
            DispatchError::SizeLimitExceeded { total, limit },
        ),
    }
}

/// Goes on after the user was asked: with the request on `Y`, to the end on
/// any other answer.
pub fn resume(config: &ApiConfig, prompt: &Prompt, answer: &str) -> (step: Step)
    ensures
        step@ == step_after_answer(config@, prompt@, answer@),
        !(step is Confirm),
{
    match confirm(answer) {
        Decision::Proceed => request(config, prompt),
        Decision::Abort => Step::Stop(DispatchError::UserAborted),
    }
}

/// Turns a response body that was read as JSON, or could not be, into the
/// assistant's message.
pub fn interpret(provider: ProviderTag, document: Option<&Json>) -> (outcome: Result<
    Message,
    DispatchError,
>)
    ensures
        message_outcome(outcome) == message_in(
            provider,
            match document {
                Some(d) => Some(d@),
                None => None,
            },
        ),
{
    let adapter = match Adapter::select(provider) {
        Ok(adapter) => adapter,
        Err(error) => return Err(error),
    };
    let document = match document {
        Some(document) => document,
        None => return Err(
            DispatchError::Deserialization { provider, field: ResponseField::Document },
        ),
    };
    match adapter.extract_text(document) {
        Ok(text) => Ok(Message { role: Role::Assistant, content: text }),
        Err(field) => Err(DispatchError::Deserialization { provider, field }),
    }
}

/// Ends a dispatch with the reply to the request that was sent.
pub fn complete(provider: ProviderTag, reply: HttpReply) -> (outcome: Result<
    Message,
    DispatchError,
>)
    ensures
        message_outcome(outcome) == completion(provider, reply@),
{
    let body = match classify(reply) {
        Ok(body) => body,
        Err(error) => return Err(DispatchError::Transport(error)),
    };
    let document = parse(body.as_str());
    interpret(provider, document.as_ref())
}

/// Runs a whole dispatch against an answer and a reply that are already at
/// hand, and counts the requests that it would have sent. The answer is read
/// only where the user would be asked, the reply only where a request would
/// go out.
pub fn replay(
    config: &ApiConfig,
    prompt: &Prompt,
    mode: ExecutionMode,
    answer: &str,
    reply: HttpReply,
) -> (trace: Trace)
    ensures
        trace@ == replayed(config@, prompt@, mode, answer@, reply@),
{
    let first = begin(config, prompt, mode);
    let settled = match first {
        Step::Confirm { .. } => resume(config, prompt, answer),
        step => step,
    };
    match settled {
        Step::Send(_) => Trace { outcome: complete(prompt.provider, reply), requests: 1 },
        Step::Stop(error) => Trace { outcome: Err(error), requests: 0 },
        Step::Confirm { .. } => Trace { outcome: Err(DispatchError::UserAborted), requests: 0 },
    }
}

} // verus!
