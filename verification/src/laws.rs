//! What holds of every dispatch, proved from the definitions of its steps.

use crate::adapter::{adapter_of, Adapter, AuthScheme};
use crate::dispatch::{
    completion, first_step, replayed, request_step, settled_step, StepView, TraceView,
};
use crate::error::{ConfigField, DispatchErrorView, ResponseField};
use crate::guard::{
    is_affirmative, limit_in_force, over_limit, total_content_length, verdict, ExecutionMode,
};
use crate::json::{parsed_json, JsonValue};
use crate::model::{ApiConfigView, MessageView, PromptView, ProviderTag, Role};
use crate::request::{headers_of, HeaderView};
use crate::response::{joined_block_texts, string_member};
use crate::transport::{is_success, HttpReplyView};
use vstd::prelude::*;

verus! {

/// Whether the guard lets the prompt through: the content is within the
/// limit, or the user is there and says `Y`.
pub open spec fn guard_passed(prompt: PromptView, mode: ExecutionMode, answer: Seq<char>) -> bool {
    !over_limit(prompt) || (mode == ExecutionMode::Interactive && is_affirmative(answer))
}

/// Once the guard is passed a dispatch settles on what the request builder
/// says; where it is not passed nothing is sent.
pub proof fn lemma_guard_comes_first(
    config: ApiConfigView,
    prompt: PromptView,
    mode: ExecutionMode,
    answer: Seq<char>,
)
    ensures
        guard_passed(prompt, mode, answer) ==> settled_step(config, prompt, mode, answer)
            == request_step(config, prompt),
        !guard_passed(prompt, mode, answer) ==> settled_step(config, prompt, mode, answer) is Stop,
        !(settled_step(config, prompt, mode, answer) is Confirm),
{
}

/// For every provider: where a request goes out and the reply is a success
/// whose body is a JSON document in which the provider's path leads to a
/// text, the dispatch returns that text, spoken by the assistant, after
/// exactly one request.
pub proof fn lemma_completion_is_extracted_text(
    config: ApiConfigView,
    prompt: PromptView,
    mode: ExecutionMode,
    answer: Seq<char>,
    adapter: Adapter,
    status: u16,
    body: Seq<char>,
    document: JsonValue,
    text: Seq<char>,
)
    requires
        adapter_of(prompt.provider) == Some(adapter),
        settled_step(config, prompt, mode, answer) is Send,
        is_success(status),
        parsed_json(body) == Some(document),
        adapter.completion(document) == Ok::<Seq<char>, ResponseField>(text),
    ensures
        completion(prompt.provider, HttpReplyView::Response { status, body: Some(body) }) == Ok::<
            MessageView,
            DispatchErrorView,
        >(MessageView { role: Role::Assistant, content: text }),
        replayed(
            config,
            prompt,
            mode,
            answer,
            HttpReplyView::Response { status, body: Some(body) },
        ) == (TraceView {
            outcome: Ok(MessageView { role: Role::Assistant, content: text }),
            requests: 1,
        }),
{
}

/// Content blocks that all carry a text yield their texts joined in order.
pub proof fn lemma_blocks_join_in_order(blocks: Seq<JsonValue>, texts: Seq<Seq<char>>)
    requires
        texts.len() == blocks.len(),
        forall|i: int|
            0 <= i < blocks.len() ==> string_member(#[trigger] blocks[i], "text"@) == Some(
                texts[i],
            ),
    ensures
        joined_block_texts(blocks, 0) == Ok::<Seq<char>, ResponseField>(texts.flatten()),
{
    lemma_blocks_join_from(blocks, texts, 0);
    assert(texts.skip(0) =~= texts);
}

proof fn lemma_blocks_join_from(blocks: Seq<JsonValue>, texts: Seq<Seq<char>>, from: int)
    requires
        texts.len() == blocks.len(),
        0 <= from <= blocks.len(),
        forall|i: int|
            0 <= i < blocks.len() ==> string_member(#[trigger] blocks[i], "text"@) == Some(
                texts[i],
            ),
    ensures
        joined_block_texts(blocks, from) == Ok::<Seq<char>, ResponseField>(
            texts.skip(from).flatten(),
        ),
    decreases blocks.len() - from,
{
    let rest = texts.skip(from);
    if from < blocks.len() {
        lemma_blocks_join_from(blocks, texts, from + 1);
        assert(rest.first() == texts[from]);
        assert(rest.drop_first() =~= texts.skip(from + 1));
    } else {
        assert(rest =~= Seq::<Seq<char>>::empty());
    }
}

/// A limit that is absent or zero never stops a dispatch and never has the
/// user asked, however long the content is.
pub proof fn lemma_disabled_limit_never_triggers(
    config: ApiConfigView,
    prompt: PromptView,
    mode: ExecutionMode,
    answer: Seq<char>,
    reply: HttpReplyView,
)
    requires
        prompt.char_limit is None || prompt.char_limit == Some(0u32),
    ensures
        !over_limit(prompt),
        verdict(prompt, mode) is Proceed,
        first_step(config, prompt, mode) == request_step(config, prompt),
        !(first_step(config, prompt, mode) is Confirm),
        !(replayed(config, prompt, mode, answer, reply).outcome matches Err(
            DispatchErrorView::SizeLimitExceeded { .. },
        )),
        !(replayed(config, prompt, mode, answer, reply).outcome matches Err(
            DispatchErrorView::UserAborted,
        )),
{
}

/// Content over the limit, with nobody to ask, fails the dispatch with
/// `SizeLimitExceeded`, and no request goes out.
pub proof fn lemma_over_limit_unattended_fails(
    config: ApiConfigView,
    prompt: PromptView,
    answer: Seq<char>,
    reply: HttpReplyView,
)
    requires
        over_limit(prompt),
    ensures
        replayed(config, prompt, ExecutionMode::NonInteractive, answer, reply) == (TraceView {
            outcome: Err(
                DispatchErrorView::SizeLimitExceeded {
                    total: total_content_length(prompt.messages),
                    limit: limit_in_force(prompt),
                },
            ),
            requests: 0,
        }),
{
}

/// Content over the limit, with somebody to ask, has the user asked, and any
/// answer but `Y` ends the dispatch with `UserAborted`, and no request goes
/// out.
pub proof fn lemma_declined_confirmation_aborts(
    config: ApiConfigView,
    prompt: PromptView,
    answer: Seq<char>,
    reply: HttpReplyView,
)
    requires
        over_limit(prompt),
        !is_affirmative(answer),
    ensures
        first_step(config, prompt, ExecutionMode::Interactive) == (StepView::Confirm {
            total: total_content_length(prompt.messages),
            limit: limit_in_force(prompt),
        }),
        replayed(config, prompt, ExecutionMode::Interactive, answer, reply) == (TraceView {
            outcome: Err(DispatchErrorView::UserAborted),
            requests: 0,
        }),
{
}

/// The provider tag that only tests use is never sent to. A dispatch that
/// passes the guard fails with `UnsupportedProvider` before a request is
/// built; one that does not pass it ends there. Either way no request goes
/// out.
pub proof fn lemma_test_provider_is_unsupported(
    config: ApiConfigView,
    prompt: PromptView,
    mode: ExecutionMode,
    answer: Seq<char>,
    reply: HttpReplyView,
)
    requires
        prompt.provider == ProviderTag::TestOnly,
    ensures
        request_step(config, prompt) == StepView::Stop(DispatchErrorView::UnsupportedProvider),
        guard_passed(prompt, mode, answer) ==> replayed(config, prompt, mode, answer, reply).outcome
            == Err::<MessageView, DispatchErrorView>(DispatchErrorView::UnsupportedProvider),
        replayed(config, prompt, mode, answer, reply).requests == 0,
{
}

/// Without a version in the configuration nothing is sent to Anthropic. A
/// dispatch that passes the guard fails with `MissingRequiredConfig`, which
/// names the version where the key is there; one that does not pass the guard
/// ends there. Either way no request goes out.
pub proof fn lemma_anthropic_requires_version(
    config: ApiConfigView,
    prompt: PromptView,
    mode: ExecutionMode,
    answer: Seq<char>,
    reply: HttpReplyView,
)
    requires
        prompt.provider == ProviderTag::Anthropic,
        config.version is None,
    ensures
        request_step(config, prompt) matches StepView::Stop(
            DispatchErrorView::MissingRequiredConfig(_),
        ),
        guard_passed(prompt, mode, answer) ==> replayed(
            config,
            prompt,
            mode,
            answer,
            reply,
        ).outcome matches Err(DispatchErrorView::MissingRequiredConfig(_)),
        guard_passed(prompt, mode, answer) && config.api_key is Some ==> replayed(
            config,
            prompt,
            mode,
            answer,
            reply,
        ).outcome == Err::<MessageView, DispatchErrorView>(
            DispatchErrorView::MissingRequiredConfig(ConfigField::Version),
        ),
        replayed(config, prompt, mode, answer, reply).requests == 0,
{
}

/// A dispatch sends at most one request, and returns a message only after it
/// has sent one.
pub proof fn lemma_at_most_one_request(
    config: ApiConfigView,
    prompt: PromptView,
    mode: ExecutionMode,
    answer: Seq<char>,
    reply: HttpReplyView,
)
    ensures
        replayed(config, prompt, mode, answer, reply).requests <= 1,
        replayed(config, prompt, mode, answer, reply).outcome is Ok ==> replayed(
            config,
            prompt,
            mode,
            answer,
            reply,
        ).requests == 1,
        replayed(config, prompt, mode, answer, reply).outcome is Ok ==> replayed(
            config,
            prompt,
            mode,
            answer,
            reply,
        ).outcome->Ok_0.role == Role::Assistant,
{
}

/// A request carries the messages of the prompt as they are and in their
/// order, goes to the configured address, names a model, and never asks for
/// a streamed reply.
pub proof fn lemma_request_keeps_conversation(config: ApiConfigView, prompt: PromptView)
    requires
        request_step(config, prompt) is Send,
    ensures
        request_step(config, prompt)->Send_0.payload.messages == prompt.messages,
        request_step(config, prompt)->Send_0.payload.stream == false,
        request_step(config, prompt)->Send_0.url == config.url,
        Some(request_step(config, prompt)->Send_0.payload.model) == (if prompt.model is Some {
            prompt.model
        } else {
            config.default_model
        }),
{
}

/// Whether a header of the given name is among the headers.
pub open spec fn carries(headers: Seq<HeaderView>, name: Seq<char>) -> bool {
    exists|i: int| 0 <= i < headers.len() && (#[trigger] headers[i]).name == name
}

/// Every request authenticates in exactly the one way of its family: a bearer
/// token, a key header, or nothing, never two of them.
pub proof fn lemma_one_auth_scheme(adapter: Adapter, config: ApiConfigView)
    requires
        headers_of(adapter, config) is Ok,
    ensures
        carries(headers_of(adapter, config)->Ok_0, "Content-Type"@),
        carries(headers_of(adapter, config)->Ok_0, "Authorization"@) <==> adapter.auth_scheme()
            == AuthScheme::Bearer,
        carries(headers_of(adapter, config)->Ok_0, "x-api-key"@) <==> adapter.auth_scheme()
            == AuthScheme::KeyHeader,
{
    reveal_strlit("Content-Type");
    reveal_strlit("Authorization");
    reveal_strlit("x-api-key");
    reveal_strlit("anthropic-version");
    let headers = headers_of(adapter, config)->Ok_0;
    assert("Content-Type"@.len() == 12 && "Authorization"@.len() == 13 && "x-api-key"@.len() == 9
        && "anthropic-version"@.len() == 17);
    assert(headers[0].name == "Content-Type"@);
    match adapter {
        Adapter::OpenAiCompatible => {
            assert(headers.len() == 2);
            assert(headers[1].name == "Authorization"@);
        },
        Adapter::Ollama => {
            assert(headers.len() == 1);
        },
        Adapter::Anthropic => {
            assert(headers.len() == 3);
            assert(headers[1].name == "x-api-key"@);
            assert(headers[2].name == "anthropic-version"@);
        },
    }
}

} // verus!
