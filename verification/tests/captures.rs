//! Capturing messages.

use insights_bot::reply::Reply;
use insights_bot::services::message_capture::{
    build_markdown_link_step, capture_edited_message_step, capture_message_step, contains_cjk_char,
    decode_utf16_lossy, extract_text_from_message, extract_text_guarded_step,
    extract_text_with_summarization_step, full_name_from_first_and_last_name, go_string_from_bytes,
    query_unescape, telegram_date_to_unix_millis, CaptureStep, CapturedChat, CapturedEntity,
    CapturedEntityKind, CapturedMessage, CapturedUser, EditedStep, LinkStep, MessagePreprocessor,
    PreviewMeta, QueryUnescapeError, TextProgress, TextStep, UnavailableLinkPreviewer,
};
use insights_bot::utf16::encode;

fn message(text: &str, entities: Vec<CapturedEntity>) -> CapturedMessage {
    CapturedMessage {
        message_id: 5,
        date: 1_700_000_000,
        chat: CapturedChat { id: -100, kind: "supergroup".to_string(), title: "群".to_string() },
        from: CapturedUser {
            id: 7,
            username: "ann".to_string(),
            first_name: "Ann".to_string(),
            last_name: "Lee".to_string(),
        },
        text: text.to_string(),
        caption: String::new(),
        entities,
        caption_entities: Vec::new(),
        forward_from: None,
        forward_from_chat: None,
        reply_to_message: None,
    }
}

fn url(offset: usize, length: usize) -> CapturedEntity {
    CapturedEntity { kind: CapturedEntityKind::Url, offset, length }
}

fn meta(title: &str) -> Reply<PreviewMeta> {
    Reply::Got(PreviewMeta { title: title.to_string(), open_graph_title: String::new() })
}

#[test]
fn a_link_takes_the_title_of_its_page() {
    let text = "群 https://a.b/c!";
    let units = encode(text);
    let entity = url(2, 13);
    match build_markdown_link_step(&entity, &units, &Reply::Pending, &Reply::Pending) {
        LinkStep::Preview { href } => assert_eq!(href, "https://a.b/c"),
        step => panic!("{step:?}"),
    }
    let step = build_markdown_link_step(&entity, &units, &meta("Title"), &Reply::Pending);
    match step {
        LinkStep::Rewrite(link) => {
            assert_eq!(decode_utf16_lossy(&link.markdown), "[Title](https://a.b/c)");
            let rewritten =
                extract_text_from_message(&message(text, vec![entity]), &vec![Some(link)]);
            assert_eq!(rewritten, "群 [Title](https://a.b/c)!");
        }
        step => panic!("{step:?}"),
    }
    let entity = url(2, 13);
    let long = "t".repeat(201);
    match build_markdown_link_step(&entity, &units, &meta(&long), &Reply::Pending) {
        LinkStep::SummarizeTitle { title } => assert_eq!(title, long),
        step => panic!("{step:?}"),
    }
    assert_eq!(
        build_markdown_link_step(
            &CapturedEntity { kind: CapturedEntityKind::Other, offset: 0, length: 1 },
            &units,
            &Reply::Pending,
            &Reply::Pending,
        ),
        LinkStep::Skip
    );
}

#[test]
fn short_texts_are_taken_as_they_are() {
    let plain = message("hello", Vec::new());
    let unresolved = TextProgress { links: None, choices: Reply::Pending };
    let resolved = TextProgress { links: Some(Vec::new()), choices: Reply::Pending };
    assert_eq!(
        extract_text_with_summarization_step(&plain, &unresolved),
        TextStep::ResolveLinks
    );
    assert_eq!(
        extract_text_with_summarization_step(&plain, &resolved),
        TextStep::Text("hello".to_string())
    );
    assert_eq!(
        extract_text_guarded_step(None, &resolved),
        TextStep::Text(String::new())
    );
    let long = message(&"x".repeat(301), Vec::new());
    assert!(matches!(
        extract_text_with_summarization_step(&long, &resolved),
        TextStep::Summarize { .. }
    ));
    let refused = TextProgress { links: Some(Vec::new()), choices: Reply::Failed };
    assert_eq!(extract_text_with_summarization_step(&long, &refused), TextStep::Failed);
}

#[test]
fn a_row_is_captured_with_its_reply() {
    let resolved = || TextProgress { links: Some(Vec::new()), choices: Reply::Pending };
    let empty = message("", Vec::new());
    assert_eq!(capture_message_step(&empty, &resolved(), &resolved()), CaptureStep::Skip);
    let mut answer = message("yes", Vec::new());
    answer.reply_to_message = Some(Box::new(message("really?", Vec::new())));
    match capture_message_step(&answer, &resolved(), &resolved()) {
        CaptureStep::Row(row) => {
            assert_eq!(row.text, "yes");
            assert_eq!(row.chatted_at, 1_700_000_000_000);
            assert_eq!(row.full_name, "Ann Lee");
            assert_eq!(row.replied_to_text, "really?");
            assert_eq!(row.replied_to_message_id, 5);
        }
        step => panic!("{step:?}"),
    }
    match capture_edited_message_step(Some(&message("new", Vec::new())), &resolved()) {
        EditedStep::Edited(edited) => {
            assert_eq!((edited.chat_id, edited.message_id), (-100, 5));
            assert_eq!(edited.text, "new");
        }
        step => panic!("{step:?}"),
    }
    assert_eq!(capture_edited_message_step(None, &resolved()), EditedStep::Skip);
}

#[test]
fn queries_are_unescaped() {
    assert_eq!(query_unescape(b"a%20b+c"), Ok(b"a b c".to_vec()));
    assert_eq!(query_unescape(b"%zz"), Err(QueryUnescapeError));
    assert_eq!(query_unescape(b"%2"), Err(QueryUnescapeError));
    assert_eq!(go_string_from_bytes(&[0x61, 0xFF]), "a\u{FFFD}");
}

#[test]
fn names_and_scripts() {
    assert_eq!(full_name_from_first_and_last_name("Ann", "Lee"), "Ann Lee");
    assert_eq!(full_name_from_first_and_last_name("李", "四"), "四 李");
    assert_eq!(full_name_from_first_and_last_name("Ann", ""), "Ann");
    assert!(contains_cjk_char("a群"));
    assert!(contains_cjk_char("カナ"));
    assert!(contains_cjk_char("한글"));
    assert!(!contains_cjk_char("latin é"));
    assert_eq!(telegram_date_to_unix_millis(5), 5_000);
    assert!(!UnavailableLinkPreviewer.failure().is_empty());
    let pair = MessagePreprocessor::new(1u8, 2u8);
    assert_eq!((pair.previewer, pair.summarizer), (1, 2));
}
