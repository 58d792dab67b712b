use std::sync::Arc;

use mock_openai::pool::build_article;
use mock_openai::pool::choose_article;
use mock_openai::pool::fallback_article;
use mock_openai::pool::words_for_chars;
use mock_openai::responses::build_chat_response;
use mock_openai::responses::build_completions_response;
use mock_openai::responses::chat_completion_id;
use mock_openai::responses::completion_id;
use mock_openai::responses::list_models;
use mock_openai::responses::lookup_model;
use mock_openai::responses::make_usage;
use mock_openai::responses::model_is_valid;
use mock_openai::responses::prompt_tokens_of_messages;
use mock_openai::session::StreamEvent;
use mock_openai::types::Message;
use mock_openai::wire::done_event;
use mock_openai::wire::frame_event;
use mock_openai::wire::sse_event_from_content;

#[test]
fn empty_pool_falls_back_to_fixed_text() {
    let pool: Vec<Arc<String>> = Vec::new();
    let a = choose_article(&pool);
    assert_eq!(a.as_str(), "Lorem ipsum dolor sit amet");
    assert_eq!(fallback_article(), "Lorem ipsum dolor sit amet");
}

#[test]
fn selection_returns_a_pool_member() {
    let pool = vec![Arc::new(String::from("only article"))];
    let a = choose_article(&pool);
    assert_eq!(a.as_str(), "only article");
}

#[test]
fn built_article_is_never_empty() {
    assert!(!build_article(100).is_empty());
    assert!(!build_article(0).is_empty());
    assert!(!build_article(-25).is_empty());
}

#[test]
fn word_estimate_rounds_and_floors_at_one() {
    assert_eq!(words_for_chars(0), 1);
    assert_eq!(words_for_chars(2), 1);
    assert_eq!(words_for_chars(3), 1);
    assert_eq!(words_for_chars(8), 1);
    assert_eq!(words_for_chars(9), 2);
    assert_eq!(words_for_chars(12), 2);
    assert_eq!(words_for_chars(60), 10);
}

#[test]
fn sse_event_wraps_content_in_delta_object() {
    assert_eq!(
        sse_event_from_content("hi"),
        "data: {\"choices\":[{\"delta\":{\"content\":\"hi\"}}]}\n\n"
    );
}

#[test]
fn sse_event_escapes_content() {
    assert_eq!(
        sse_event_from_content("a\"b\n"),
        "data: {\"choices\":[{\"delta\":{\"content\":\"a\\\"b\\n\"}}]}\n\n"
    );
}

#[test]
fn terminal_marker_line() {
    assert_eq!(done_event(), "data: [DONE]\n\n");
    assert_eq!(frame_event(&StreamEvent::Done), "data: [DONE]\n\n");
    assert_eq!(
        frame_event(&StreamEvent::Chunk(String::from("x"))),
        "data: {\"choices\":[{\"delta\":{\"content\":\"x\"}}]}\n\n"
    );
}

#[test]
fn response_ids_carry_prefix_and_uuid() {
    let c = completion_id();
    assert_eq!(c.len(), 41);
    assert!(c.starts_with("cmpl-"));
    let ch = chat_completion_id();
    assert_eq!(ch.len(), 45);
    assert!(ch.starts_with("chatcmpl-"));
    assert_ne!(completion_id(), completion_id());
}

#[test]
fn empty_model_identifier_is_rejected() {
    assert!(!model_is_valid(&String::new()));
    assert!(model_is_valid(&String::from("gpt-4")));
}

#[test]
fn usage_totals_add_up() {
    let u = make_usage(3, 9);
    assert_eq!(u.prompt_tokens, 3);
    assert_eq!(u.completion_tokens, 9);
    assert_eq!(u.total_tokens, 12);
}

#[test]
fn prompt_tokens_sum_message_contents() {
    let messages = vec![
        Message {
            role: String::from("user"),
            content: String::from("hello"),
        },
        Message {
            role: String::from("assistant"),
            content: String::from("ab"),
        },
    ];
    // 5 + 2 = 7 characters, ceil(7 / 4) = 2 tokens
    assert_eq!(prompt_tokens_of_messages(&messages), 2);
    assert_eq!(prompt_tokens_of_messages(&Vec::new()), 0);
}

#[test]
fn completions_response_is_capped_by_max_tokens() {
    let article = "hello world this is a test";
    let r = build_completions_response(
        String::from("text-davinci-003"),
        &Some(String::from("hello")),
        Some(1),
        100,
        article,
        String::from("cmpl-test"),
        1234,
    );
    assert_eq!(r.object, "text.completion");
    assert_eq!(r.model, "text-davinci-003");
    assert_eq!(r.id, "cmpl-test");
    assert_eq!(r.created, 1234);
    assert_eq!(r.choices.len(), 1);
    assert_eq!(r.choices[0].index, 0);
    assert_eq!(r.choices[0].finish_reason, "stop");
    // budget 1 token = 4 characters, no space in range: "hell"
    assert_eq!(r.choices[0].text, "hell");
    assert_eq!(r.usage.completion_tokens, 1);
    // prompt "hello": ceil(5 / 4) = 2
    assert_eq!(r.usage.prompt_tokens, 2);
    assert_eq!(r.usage.total_tokens, 3);
}

#[test]
fn chat_response_reports_assistant_message() {
    let article = "hello world this is a test";
    let messages = vec![Message {
        role: String::from("user"),
        content: String::from("hello"),
    }];
    let r = build_chat_response(
        String::from("gpt-4"),
        &Some(messages),
        Some(2),
        7,
        article,
        String::from("chatcmpl-test"),
        99,
    );
    assert_eq!(r.object, "chat.completion");
    assert_eq!(r.model, "gpt-4");
    assert_eq!(r.choices.len(), 1);
    assert_eq!(r.choices[0].message.role, "assistant");
    // budget 2 tokens = 8 characters, cut at the space: "hello"
    assert_eq!(r.choices[0].message.content, "hello");
    assert_eq!(r.choices[0].finish_reason, "stop");
    assert_eq!(r.usage.completion_tokens, 2);
    assert_eq!(r.usage.prompt_tokens, 2);
    assert_eq!(r.usage.total_tokens, 4);
}

#[test]
fn model_catalogue_serves_one_model() {
    let list = list_models();
    assert_eq!(list.data.len(), 1);
    assert_eq!(list.data[0].id, "gpt-4-mock");
    assert_eq!(list.data[0].object, "model");
    assert_eq!(list.data[0].owned_by, "mock-openai");

    let found = lookup_model(String::from("gpt-4-mock"));
    assert!(found.is_some());
    let info = found.unwrap();
    assert_eq!(info.id, "gpt-4-mock");
    assert_eq!(info.owned_by, "mock-openai");

    assert!(lookup_model(String::from("gpt-5")).is_none());
}

#[test]
fn built_article_depends_on_sample_alone() {
    // the filler generator is deterministically seeded, so equal samples
    // give equal articles; the clamp maps all of these to one token
    assert_eq!(build_article(100), build_article(100));
    assert_eq!(build_article(-3), build_article(0));
    assert_eq!(build_article(0), build_article(1));
}
