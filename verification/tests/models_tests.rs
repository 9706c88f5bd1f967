//! Tests for the neutral data model, the text helpers, and the shell.

use ergon::chat::{build_completion_request, ChatMessage, Sender};
use ergon::models::{Clients, Content, Message, Role};
use ergon::shell::{init, update, Message as ShellMessage, PageId, ShellEffect};
use ergon::text::{contains_str, endpoint_join, find_first, parse_args, str_eq, trim_blank};

#[test]
fn content_constructors_set_their_fields() {
    match Content::text("Hello, GPT!") {
        Content::Text { text } => assert_eq!(text, "Hello, GPT!"),
        _ => panic!("Expected Text variant"),
    }
    match Content::image_url("https://example.com/image.jpg") {
        Content::ImageUrl { image_url } => {
            assert_eq!(image_url.url, "https://example.com/image.jpg");
            assert!(image_url.detail.is_none());
        }
        _ => panic!("Expected ImageUrl variant"),
    }
    match Content::image_url_with_detail("https://example.com/image.jpg", "high") {
        Content::ImageUrl { image_url } => {
            assert_eq!(image_url.detail, Some("high".to_string()));
        }
        _ => panic!("Expected ImageUrl variant"),
    }
    match Content::tool_use("id-1", "calc__add", "{}".to_string()) {
        Content::ToolUse { id, name, input } => {
            assert_eq!(id, "id-1");
            assert_eq!(name, "calc__add");
            assert_eq!(input, "{}");
        }
        _ => panic!("Expected ToolUse variant"),
    }
    match Content::tool_result_error("id-1", "boom") {
        Content::ToolResult {
            tool_use_id,
            content,
            is_error,
        } => {
            assert_eq!(tool_use_id, "id-1");
            assert_eq!(content, "boom");
            assert_eq!(is_error, Some(true));
        }
        _ => panic!("Expected ToolResult variant"),
    }
}

#[test]
fn as_text_reads_only_text_blocks() {
    assert_eq!(Content::text("hi").as_text(), Some("hi"));
    assert_eq!(Content::image_url("u").as_text(), None);
}

#[test]
fn every_block_has_a_textual_projection() {
    assert_eq!(Content::text("hi").projected_text(), "hi");
    assert_eq!(Content::image_url("u").projected_text(), "u");
    assert_eq!(
        Content::tool_use("i", "calc__add", "{}".to_string()).projected_text(),
        "calc__add"
    );
    assert_eq!(Content::tool_result("i", "4").projected_text(), "4");
}

#[test]
fn message_constructors_set_roles() {
    assert!(matches!(Message::system("s").role, Role::System));
    assert!(matches!(Message::user("u").role, Role::User));
    assert!(matches!(Message::assistant("a").role, Role::Assistant));
}

#[test]
fn find_first_returns_the_first_occurrence() {
    assert_eq!(find_first("a___b", "__"), Some(1));
    assert_eq!(find_first("calc__add", "__"), Some(4));
    assert_eq!(find_first("plain", "__"), None);
    assert!(contains_str("gpt-4o-mini", "gpt"));
    assert!(!contains_str("dall-e-3", "gpt"));
}

#[test]
fn endpoint_join_strips_every_trailing_slash() {
    assert_eq!(
        endpoint_join("https://api.openai.com/v1///", "/models"),
        "https://api.openai.com/v1/models"
    );
    assert_eq!(endpoint_join("https://host", "/x"), "https://host/x");
}

#[test]
fn trim_and_split_arguments() {
    assert_eq!(trim_blank("  a b \t"), "a b");
    assert_eq!(trim_blank(""), "");
    assert_eq!(
        parse_args(" -u , mcp_stdio.py ,,  "),
        vec!["-u", "mcp_stdio.py"]
    );
    assert_eq!(parse_args(""), Vec::<String>::new());
}

#[test]
fn str_eq_compares_characters() {
    assert!(str_eq("abc", "abc"));
    assert!(!str_eq("abc", "abd"));
    assert!(!str_eq("abc", "ab"));
}

#[test]
fn chat_lines_become_transcript_messages() {
    let lines = vec![
        ChatMessage {
            sender: Sender::User,
            content: "hi".to_string(),
        },
        ChatMessage {
            sender: Sender::Bot,
            content: "hello".to_string(),
        },
    ];
    let request = build_completion_request(&lines, "gpt-4o-mini".to_string(), vec![]);
    assert_eq!(request.model, "gpt-4o-mini");
    assert_eq!(request.messages.len(), 2);
    assert!(matches!(request.messages[0].role, Role::User));
    assert!(matches!(request.messages[1].role, Role::Assistant));
    assert!(request.tools.is_some());
}

#[test]
fn shell_starts_on_the_chat_page_and_navigates() {
    let (mut app, effect) = init();
    assert_eq!(app.current_page, PageId::Chat);
    assert!(matches!(effect, ShellEffect::Chat(_)));

    let effect = update(&mut app, ShellMessage::Navigate(PageId::Settings));
    assert_eq!(app.current_page, PageId::Settings);
    assert!(matches!(effect, ShellEffect::Nothing));

    let effect = update(
        &mut app,
        ShellMessage::Settings(ergon::settings::Action::SaveSettings),
    );
    assert!(matches!(effect, ShellEffect::PersistSettings));
}

#[test]
fn clients_enumeration_is_stable() {
    let all = Clients::all();
    assert_eq!(all.len(), 3);
    assert!(matches!(all[0], Clients::OpenAI));
    assert!(matches!(all[1], Clients::Anthropic));
    assert!(matches!(all[2], Clients::Vllm));
}
