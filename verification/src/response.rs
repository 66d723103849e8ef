//! Response adapters: from a provider's JSON reply to the completion text.

use crate::adapter::Adapter;
use crate::error::ResponseField;
use crate::json::{json_views, Json, JsonValue};
use vstd::prelude::*;
use vstd::string::StringExecFns;

verus! {

/// The string under `key` in an object; `None` where the key is missing or
/// holds something else.
pub open spec fn string_member(value: JsonValue, key: Seq<char>) -> Option<Seq<char>> {
    match value.member(key) {
        Some(v) => v.text(),
        None => None,
    }
}

/// The text of a chat-completion reply, `choices[0].message.content`, or the
/// first place on that path where the document has nothing to offer.
pub open spec fn choice_text(document: JsonValue) -> Result<Seq<char>, ResponseField> {
    match document.member("choices"@) {
        None => Err(ResponseField::Choices),
        Some(choices) => match choices.items() {
            None => Err(ResponseField::Choices),
            Some(items) => if items.len() == 0 {
                Err(ResponseField::FirstChoice)
            } else {
                match items[0].member("message"@) {
                    None => Err(ResponseField::ChoiceMessage),
                    Some(message) => match string_member(message, "content"@) {
                        None => Err(ResponseField::ChoiceContent),
                        Some(text) => Ok(text),
                    },
                }
            },
        },
    }
}

/// The text of a single-message reply, `message.content`.
pub open spec fn message_text(document: JsonValue) -> Result<Seq<char>, ResponseField> {
    match document.member("message"@) {
        None => Err(ResponseField::Message),
        Some(message) => match string_member(message, "content"@) {
            None => Err(ResponseField::MessageContent),
            Some(text) => Ok(text),
        },
    }
}

/// The `text` of the blocks from `from` on, one after the other, or the first
/// block among them that has none.
pub open spec fn joined_block_texts(blocks: Seq<JsonValue>, from: int) -> Result<
    Seq<char>,
    ResponseField,
>
    decreases blocks.len() - from,
{
    if from < 0 || from >= blocks.len() {
        Ok(Seq::empty())
    } else {
        match string_member(blocks[from], "text"@) {
            None => Err(ResponseField::BlockText(from as usize)),
            Some(text) => match joined_block_texts(blocks, from + 1) {
                Ok(rest) => Ok(text + rest),
                Err(field) => Err(field),
            },
        }
    }
}

/// The text of a reply made of content blocks: `content[i].text` for every
/// `i`, in order.
pub open spec fn blocks_text(document: JsonValue) -> Result<Seq<char>, ResponseField> {
    match document.member("content"@) {
        None => Err(ResponseField::Content),
        Some(content) => match content.items() {
            None => Err(ResponseField::Content),
            Some(blocks) => joined_block_texts(blocks, 0),
        },
    }
}

/// The value of an extraction's outcome.
pub open spec fn text_outcome(outcome: Result<String, ResponseField>) -> Result<
    Seq<char>,
    ResponseField,
> {
    match outcome {
        Ok(text) => Ok(text@),
        Err(field) => Err(field),
    }
}

fn read_string_member(value: &Json, key: &str) -> (found: Option<String>)
    ensures
        match found {
            Some(text) => string_member(value@, key@) == Some(text@),
            None => string_member(value@, key@) is None,
        },
{
    match value.member(key) {
        Some(v) => match v.text() {
            Some(text) => Some(text.clone()),
            None => None,
        },
        None => None,
    }
}

/// Extracts `choices[0].message.content`.
pub fn read_choice_text(document: &Json) -> (outcome: Result<String, ResponseField>)
    ensures
        text_outcome(outcome) == choice_text(document@),
{
    let choices = match document.member("choices") {
        Some(choices) => choices,
        None => return Err(ResponseField::Choices),
    };
    let items = match choices.items() {
        Some(items) => items,
        None => return Err(ResponseField::Choices),
    };
    if items.len() == 0 {
        return Err(ResponseField::FirstChoice);
    }
    let message = match items[0].member("message") {
        Some(message) => message,
        None => return Err(ResponseField::ChoiceMessage),
    };
    match read_string_member(message, "content") {
        Some(text) => Ok(text),
        None => Err(ResponseField::ChoiceContent),
    }
}

/// Extracts `message.content`.
pub fn read_message_text(document: &Json) -> (outcome: Result<String, ResponseField>)
    ensures
        text_outcome(outcome) == message_text(document@),
{
    let message = match document.member("message") {
        Some(message) => message,
        None => return Err(ResponseField::Message),
    };
    match read_string_member(message, "content") {
        Some(text) => Ok(text),
        None => Err(ResponseField::MessageContent),
    }
}

/// Extracts and joins `content[*].text`.
pub fn read_blocks_text(document: &Json) -> (outcome: Result<String, ResponseField>)
    ensures
        text_outcome(outcome) == blocks_text(document@),
{
    let content = match document.member("content") {
        Some(content) => content,
        None => return Err(ResponseField::Content),
    };
    let blocks = match content.items() {
        Some(blocks) => blocks,
        None => return Err(ResponseField::Content),
    };
    let ghost all = json_views(blocks@);
    let mut joined = String::new();
    let mut i: usize = 0;
    while i < blocks.len()
        invariant
            i <= blocks.len(),
            all == json_views(blocks@),
            blocks_text(document@) == joined_block_texts(all, 0),
            joined_block_texts(all, 0) == match joined_block_texts(all, i as int) {
                Ok(rest) => Ok::<Seq<char>, ResponseField>(joined@ + rest),
                Err(field) => Err(field),
            },
        decreases blocks.len() - i,
    {
        match read_string_member(&blocks[i], "text") {
            Some(text) => {
                proof {
                    let rest = joined_block_texts(all, i + 1);
                    if let Ok(r) = rest {
                        assert(joined@ + (text@ + r) =~= (joined@ + text@) + r);
                    }
                }
                joined.append(text.as_str());
            },
            None => {
                return Err(ResponseField::BlockText(i));
            },
        }
        i += 1;
    }
    proof {
        assert(joined@ + Seq::<char>::empty() =~= joined@);
    }
    Ok(joined)
}

impl Adapter {
    /// The completion text in a reply of this family, by the family's rule:
    /// `choices[0].message.content`, `message.content`, or all of
    /// `content[*].text` joined.
    pub open spec fn completion(self, document: JsonValue) -> Result<Seq<char>, ResponseField> {
        match self {
            Adapter::OpenAiCompatible => choice_text(document),
            Adapter::Ollama => message_text(document),
            Adapter::Anthropic => blocks_text(document),
        }
    }

    /// Extracts the completion text from a reply of this family.
    pub fn extract_text(&self, document: &Json) -> (outcome: Result<String, ResponseField>)
        ensures
            text_outcome(outcome) == self.completion(document@),
    {
        match self {
            Adapter::OpenAiCompatible => read_choice_text(document),
            Adapter::Ollama => read_message_text(document),
            Adapter::Anthropic => read_blocks_text(document),
        }
    }
}

} // verus!
