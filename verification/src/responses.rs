//! Assembly of whole (non-streaming) responses and the model catalogue.
//!
//! The non-streaming paths use the same token sampling and whole-text
//! slicing rules as the streaming path: a sampled total clamped to at least
//! one token and capped by the request's maximum sets the slice budget, and
//! the reported usage is recomputed from the text actually produced.

use vstd::prelude::*;
use vstd::string::*;

use crate::convert::chars_to_tokens;
use crate::convert::spec_chars_to_tokens;
use crate::session::spec_total_tokens;
use crate::session::total_tokens;
use crate::slicer::slice_text_by_tokens;
use crate::slicer::spec_whole_slice;
use crate::types::ChatChoice;
use crate::types::ChatCompletionResponse;
use crate::types::ChatMessage;
use crate::types::CompletionChoice;
use crate::types::CompletionsResponse;
use crate::types::Message;
use crate::types::ModelInfo;
use crate::types::ModelsListResponse;
use crate::types::Usage;

verus! {

/// Relies on uuid::Uuid::new_v4 and its display form: a fresh random UUID
/// formats as 36 hyphenated characters, whatever was drawn.
#[verifier::external_body]
fn fresh_uuid_string() -> (r: String)
    ensures
        r@.len() == 36,
{
    uuid::Uuid::new_v4().to_string()
}

/// A fresh identifier for a completions response: `cmpl-` then a UUID.
pub fn completion_id() -> (r: String)
    ensures
        r@.len() == 41,
        r@.subrange(0, 5) == "cmpl-"@,
{
    let mut r = String::from_str("cmpl-");
    let u = fresh_uuid_string();
    r.append(u.as_str());
    proof {
        reveal_strlit("cmpl-");
        assert(r@.subrange(0, 5) =~= "cmpl-"@);
    }
    r
}

/// A fresh identifier for a chat completion response: `chatcmpl-` then a
/// UUID.
pub fn chat_completion_id() -> (r: String)
    ensures
        r@.len() == 45,
        r@.subrange(0, 9) == "chatcmpl-"@,
{
    let mut r = String::from_str("chatcmpl-");
    let u = fresh_uuid_string();
    r.append(u.as_str());
    proof {
        reveal_strlit("chatcmpl-");
        assert(r@.subrange(0, 9) =~= "chatcmpl-"@);
    }
    r
}

/// Whether a request's model identifier is acceptable: it must be
/// non-empty. An empty identifier is rejected before any sampling or
/// slicing work begins.
pub fn model_is_valid(model: &String) -> (ok: bool)
    ensures
        ok == (model@.len() > 0),
{
    !model.as_str().is_empty()
}

/// Token accounting from prompt and completion token counts.
pub fn make_usage(prompt_tokens: usize, completion_tokens: usize) -> (u: Usage)
    requires
        prompt_tokens + completion_tokens <= usize::MAX,
    ensures
        u.prompt_tokens == prompt_tokens,
        u.completion_tokens == completion_tokens,
        u.total_tokens == prompt_tokens + completion_tokens,
{
    Usage {
        prompt_tokens,
        completion_tokens,
        total_tokens: prompt_tokens + completion_tokens,
    }
}

/// The summed character length of the contents of a message list.
pub open spec fn spec_total_content_chars(ms: Seq<Message>) -> nat
    decreases ms.len(),
{
    if ms.len() == 0 {
        0
    } else {
        spec_total_content_chars(ms.drop_last()) + ms.last().content@.len()
    }
}

/// A prefix never holds more content characters than the whole list.
proof fn lemma_content_chars_prefix(ms: Seq<Message>, i: int)
    requires
        0 <= i <= ms.len(),
    ensures
        spec_total_content_chars(ms.take(i)) <= spec_total_content_chars(ms),
    decreases ms.len() - i,
{
    if i == ms.len() {
        assert(ms.take(i) =~= ms);
    } else {
        lemma_content_chars_prefix(ms, i + 1);
        assert(ms.take(i + 1).drop_last() =~= ms.take(i));
        assert(ms.take(i + 1).last() == ms[i]);
    }
}

/// The prompt tokens reported for a chat request: the summed content length
/// of its messages, converted to tokens.
pub fn prompt_tokens_of_messages(messages: &Vec<Message>) -> (t: usize)
    requires
        spec_total_content_chars(messages@) <= usize::MAX,
    ensures
        t as nat == spec_chars_to_tokens(spec_total_content_chars(messages@)),
{
    let mut chars: usize = 0;
    let mut i: usize = 0;
    while i < messages.len()
        invariant
            i <= messages@.len(),
            chars as nat == spec_total_content_chars(messages@.take(i as int)),
            spec_total_content_chars(messages@) <= usize::MAX,
        decreases messages@.len() - i,
    {
        proof {
            lemma_content_chars_prefix(messages@, i + 1);
            assert(messages@.take(i + 1).drop_last() =~= messages@.take(i as int));
            assert(messages@.take(i + 1).last() == messages@[i as int]);
        }
        let len = messages[i].content.as_str().unicode_len();
        chars = chars + len;
        i = i + 1;
    }
    proof {
        assert(messages@.take(messages@.len() as int) =~= messages@);
    }
    chars_to_tokens(chars)
}

/// Build a whole completions response around the sliced article text.
///
/// The slice budget is the sampled total clamped to at least one token and
/// capped by the request's maximum; the reported completion tokens are
/// recomputed from the text actually produced, and the prompt tokens from
/// the request's prompt, or 0 when none was given.
pub fn build_completions_response(
    model: String,
    prompt: &Option<String>,
    max_tokens: Option<usize>,
    sampled: isize,
    article: &str,
    id: String,
    created: i64,
) -> (r: CompletionsResponse)
    ensures
        r.id == id,
        r.object@ == "text.completion"@,
        r.created == created,
        r.model == model,
        r.choices@.len() == 1,
        r.choices@[0].index == 0,
        r.choices@[0].text@ == spec_whole_slice(
            article@,
            spec_total_tokens(sampled as int, max_tokens),
        ),
        r.choices@[0].finish_reason@ == "stop"@,
        r.usage.completion_tokens as nat == spec_chars_to_tokens(r.choices@[0].text@.len()),
        r.usage.prompt_tokens as nat == match prompt {
            Some(p) => spec_chars_to_tokens(p@.len()),
            None => 0nat,
        },
        r.usage.total_tokens == r.usage.prompt_tokens + r.usage.completion_tokens,
{
    let budget = total_tokens(sampled, max_tokens);
    let content = slice_text_by_tokens(article, budget);
    let completion_tokens = chars_to_tokens(content.unicode_len());
    let prompt_tokens = match prompt {
        Some(p) => chars_to_tokens(p.as_str().unicode_len()),
        None => 0,
    };
    let usage = make_usage(prompt_tokens, completion_tokens);
    let choice = CompletionChoice {
        index: 0,
        text: content.to_owned(),
        finish_reason: String::from_str("stop"),
    };
    let mut choices: Vec<CompletionChoice> = Vec::new();
    choices.push(choice);
    CompletionsResponse {
        id,
        object: String::from_str("text.completion"),
        created,
        model,
        usage,
        choices,
    }
}

/// Build a whole chat completion response around the sliced article text.
///
/// Same sampling and slicing rules as the completions path; the prompt
/// tokens come from the summed content of the request's messages, or 0 when
/// none were given, and the one choice carries the assistant role.
pub fn build_chat_response(
    model: String,
    messages: &Option<Vec<Message>>,
    max_tokens: Option<usize>,
    sampled: isize,
    article: &str,
    id: String,
    created: i64,
) -> (r: ChatCompletionResponse)
    requires
        match messages {
            Some(ms) => spec_total_content_chars(ms@) <= usize::MAX,
            None => true,
        },
    ensures
        r.id == id,
        r.object@ == "chat.completion"@,
        r.created == created,
        r.model == model,
        r.choices@.len() == 1,
        r.choices@[0].index == 0,
        r.choices@[0].message.role@ == "assistant"@,
        r.choices@[0].message.content@ == spec_whole_slice(
            article@,
            spec_total_tokens(sampled as int, max_tokens),
        ),
        r.choices@[0].finish_reason@ == "stop"@,
        r.usage.completion_tokens as nat == spec_chars_to_tokens(
            r.choices@[0].message.content@.len(),
        ),
        r.usage.prompt_tokens as nat == match messages {
            Some(ms) => spec_chars_to_tokens(spec_total_content_chars(ms@)),
            None => 0nat,
        },
        r.usage.total_tokens == r.usage.prompt_tokens + r.usage.completion_tokens,
{
    let budget = total_tokens(sampled, max_tokens);
    let content = slice_text_by_tokens(article, budget);
    let completion_tokens = chars_to_tokens(content.unicode_len());
    let prompt_tokens = match messages {
        Some(ms) => prompt_tokens_of_messages(ms),
        None => 0,
    };
    let usage = make_usage(prompt_tokens, completion_tokens);
    let choice = ChatChoice {
        index: 0,
        message: ChatMessage {
            role: String::from_str("assistant"),
            content: content.to_owned(),
        },
        finish_reason: String::from_str("stop"),
    };
    let mut choices: Vec<ChatChoice> = Vec::new();
    choices.push(choice);
    ChatCompletionResponse {
        id,
        object: String::from_str("chat.completion"),
        created,
        model,
        usage,
        choices,
    }
}

/// The model catalogue: the one model this engine serves.
pub fn list_models() -> (r: ModelsListResponse)
    ensures
        r.data@.len() == 1,
        r.data@[0].id@ == "gpt-4-mock"@,
        r.data@[0].object@ == "model"@,
        r.data@[0].owned_by@ == "mock-openai"@,
{
    let mut data: Vec<ModelInfo> = Vec::new();
    data.push(
        ModelInfo {
            id: String::from_str("gpt-4-mock"),
            object: String::from_str("model"),
            owned_by: String::from_str("mock-openai"),
        },
    );
    ModelsListResponse { data }
}

/// Look a model up by identifier: `Some` exactly for the known model.
pub fn lookup_model(id: String) -> (r: Option<ModelInfo>)
    ensures
        id@ == "gpt-4-mock"@ ==> (r matches Some(m) && m.id == id && m.object@ == "model"@
            && m.owned_by@ == "mock-openai"@),
        id@ != "gpt-4-mock"@ ==> r is None,
{
    let known = String::from_str("gpt-4-mock");
    if id == known {
        Some(
            ModelInfo {
                id,
                object: String::from_str("model"),
                owned_by: String::from_str("mock-openai"),
            },
        )
    } else {
        None
    }
}

} // verus!
