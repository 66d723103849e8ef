//! The size guard: a limit on the total content length of a prompt, checked
//! before anything is sent.

use crate::model::{message_views, Message, MessageView, Prompt, PromptView};
use crate::text::{trim, trimmed};
use vstd::prelude::*;
use vstd::utf8::encode_utf8;

verus! {

/// Whether somebody is there to be asked.
#[derive(Clone, Copy, Debug, PartialEq, Eq, Structural)]
pub enum ExecutionMode {
    Interactive,
    NonInteractive,
}

/// What the guard found.
#[derive(Clone, Copy, Debug, PartialEq, Eq, Structural)]
pub enum Verdict {
    /// No limit is set, or the content is within it.
    Proceed,
    /// The content is over the limit; the user decides.
    Ask { total: u128, limit: u32 },
    /// The content is over the limit and nobody can be asked.
    Reject { total: u128, limit: u32 },
}

/// The mathematical value of a [`Verdict`].
pub enum VerdictView {
    Proceed,
    Ask { total: nat, limit: nat },
    Reject { total: nat, limit: nat },
}

impl View for Verdict {
    type V = VerdictView;

    open spec fn view(&self) -> VerdictView {
        match self {
            Verdict::Proceed => VerdictView::Proceed,
            Verdict::Ask { total, limit } => VerdictView::Ask {
                total: *total as nat,
                limit: *limit as nat,
            },
            Verdict::Reject { total, limit } => VerdictView::Reject {
                total: *total as nat,
                limit: *limit as nat,
            },
        }
    }
}

/// The length of a text in bytes of UTF-8.
pub open spec fn byte_length(text: Seq<char>) -> nat {
    encode_utf8(text).len()
}

/// The sum of the byte lengths of the contents of all messages.
pub open spec fn total_content_length(messages: Seq<MessageView>) -> nat
    decreases messages.len(),
{
    if messages.len() == 0 {
        0
    } else {
        total_content_length(messages.drop_last()) + byte_length(messages.last().content)
    }
}

/// The limit in force: zero where none is set.
pub open spec fn limit_in_force(prompt: PromptView) -> nat {
    match prompt.char_limit {
        Some(limit) => limit as nat,
        None => 0,
    }
}

/// Whether the limit is switched on and the content is longer than it allows.
pub open spec fn over_limit(prompt: PromptView) -> bool {
    limit_in_force(prompt) > 0 && total_content_length(prompt.messages) > limit_in_force(prompt)
}

/// What the guard finds for a prompt in a mode.
pub open spec fn verdict(prompt: PromptView, mode: ExecutionMode) -> VerdictView {
    if !over_limit(prompt) {
        VerdictView::Proceed
    } else if mode == ExecutionMode::Interactive {
        VerdictView::Ask {
            total: total_content_length(prompt.messages),
            limit: limit_in_force(prompt),
        }
    } else {
        VerdictView::Reject {
            total: total_content_length(prompt.messages),
            limit: limit_in_force(prompt),
        }
    }
}

proof fn lemma_product_bound(count: nat, each: nat, bound: nat)
    requires
        count < bound,
        each <= bound,
    ensures
        count * bound + each <= bound * bound,
{
    assert(count * bound + bound == (count + 1) * bound) by (nonlinear_arith);
    assert((count + 1) * bound <= bound * bound) by (nonlinear_arith)
        requires
            count + 1 <= bound,
    ;
}

/// Adds up the byte lengths of the contents of all messages.
pub fn content_length(messages: &Vec<Message>) -> (total: u128)
    ensures
        total as nat == total_content_length(message_views(messages@)),
{
    let ghost views = message_views(messages@);
    let mut total: u128 = 0;
    let mut i: usize = 0;
    while i < messages.len()
        invariant
            i <= messages.len(),
            views == message_views(messages@),
            total as nat == total_content_length(views.take(i as int)),
            total <= i * 0xFFFF_FFFF_FFFF_FFFF,
        decreases messages.len() - i,
    {
        let length = messages[i].content.as_str().as_bytes().len();
        proof {
            let next = views.take(i + 1);
            assert(next.drop_last() =~= views.take(i as int));
            assert(next.last() == messages[i as int]@);
            lemma_product_bound(i as nat, length as nat, 0xFFFF_FFFF_FFFF_FFFF);
            assert(0xFFFF_FFFF_FFFF_FFFF * 0xFFFF_FFFF_FFFF_FFFF <= u128::MAX);
            assert((i + 1) * 0xFFFF_FFFF_FFFF_FFFF == i * 0xFFFF_FFFF_FFFF_FFFF
                + 0xFFFF_FFFF_FFFF_FFFF) by (nonlinear_arith);
        }
        total = total + length as u128;
        i += 1;
    }
    assert(views.take(messages.len() as int) =~= views);
    total
}

/// Checks a prompt against its limit. With the limit switched off no length
/// is computed.
pub fn check(prompt: &Prompt, mode: ExecutionMode) -> (found: Verdict)
    ensures
        found@ == verdict(prompt@, mode),
{
    let limit: u32 = match prompt.char_limit {
        Some(limit) => limit,
        None => 0,
    };
    if limit == 0 {
        return Verdict::Proceed;
    }
    let total = content_length(&prompt.messages);
    if total <= limit as u128 {
        Verdict::Proceed
    } else {
        match mode {
            ExecutionMode::Interactive => Verdict::Ask { total, limit },
            ExecutionMode::NonInteractive => Verdict::Reject { total, limit },
        }
    }
}

/// What follows from the user's answer.
#[derive(Clone, Copy, Debug, PartialEq, Eq, Structural)]
pub enum Decision {
    Proceed,
    Abort,
}

/// Whether an answer, without the whitespace around it, is exactly `Y`.
pub open spec fn is_affirmative(answer: Seq<char>) -> bool {
    trimmed(answer) == "Y"@
}

/// What follows from an answer: to proceed on `Y`, to abort on anything else.
pub open spec fn decision(answer: Seq<char>) -> Decision {
    if is_affirmative(answer) {
        Decision::Proceed
    } else {
        Decision::Abort
    }
}

/// Reads the user's answer to the question whether to go on over the limit.
pub fn confirm(answer: &str) -> (decided: Decision)
    ensures
        decided == decision(answer@),
{
    let given = trim(answer).to_owned();
    let affirmative = "Y".to_owned();
    if given == affirmative {
        Decision::Proceed
    } else {
        Decision::Abort
    }
}

} // verus!
