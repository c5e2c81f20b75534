//! Making recaps: prompts, models, shapes, messages.

use std::collections::HashMap;

use insights_bot::config::{CondensedPromptConfig, Locale, RecapOpenAiConfig};
use insights_bot::db::models::{ChatHistory, TelegramChatHistory, TokenUsage};
use insights_bot::services::completion::{
    ask_summarize_any, ask_summarize_one_chat_history, finish_single, render_error, Ask,
    CompletionReply, Outcome, RecapModels, ReportedUsage, SUMMARIZE_ANY_FAILED,
    SUMMARIZE_ANY_OPERATION, SUMMARIZE_ONE_CHAT_HISTORY_FAILED,
};
use insights_bot::services::condensed::{
    is_malformed, judge_condensed_output, needs_condensed_repair,
    normalize_structured_condensed_output, observe, sarcastic_condense_step, CondensedFault,
    CondensedStep,
};
use insights_bot::services::detailed::{
    summarize_chat_histories_step, DetailedGenerationError, DetailedSliceResult, DetailedStep,
};
use insights_bot::services::dual::{
    ask_sarcastic_condense, ask_structured, check_text, dual_transcript, generate_dual_recap_step,
    read_line, sarcastic_text, structured_text, summary_language, DualProgress, DualStep,
    NoMessages,
};
use insights_bot::services::openai::{
    extract_json_from_response, format_messages, format_topics_to_markdown,
    format_topics_to_telegram_html, format_user_name, CheckModelTrace, RecapTrace, SummaryLabels,
};
use insights_bot::services::prompts::{DiscussionPoint, PromptConfig, TopicSummary};
use insights_bot::services::recap_generation::{
    build_condensed_history, build_private_forwarded_recap_prompt, build_rich_recap_prompt,
    generate_condensed_from_text_step, generate_condensed_step, group_log_output,
    merge_recap_execution_trace, private_log_output, resolve_private_summaries, resolve_summaries,
    resolved_group_model_name, summarize_slices_step, token_budget, BudgetError,
    PrivateForwardedReplayChatHistory, SliceAttempt, SlicesStep, DETAILED_SLICE_ATTEMPTS,
};
use insights_bot::services::rich_recap::{
    build_rich_recap_model_info, build_rich_recap_summary, escape_rich_markdown_text,
    resolve_rich_recap_references, rich_markdown_to_plain_text, sanitize_condensed_recap_markdown,
    sanitize_detailed_recap_markdown, style_recap_lines, unescape_rich_markdown_text, RecapStyle,
    RichRecapSummaryConfig, RICH_MESSAGE_UTF16_UNIT_LIMIT,
};
use insights_bot::services::rich_split::{
    compose_rich_recap_messages, cut_around_spans, fallback_condensed_summary, split_plain_text,
};
use insights_bot::services::tokens::{
    cut_length, is_tokenizable, split_content_by_token_limit, ZeroTokenLimit,
};
use insights_bot::services::traces::{CondensedExecutionTrace, RecapExecutionTrace};
use insights_bot::template::RenderFault;
use insights_bot::utf16::count_units;

fn recap_config() -> RecapOpenAiConfig {
    RecapOpenAiConfig {
        primary_model: "main".to_string(),
        primary_backups: vec!["spare".to_string()],
        condensed_model: "short".to_string(),
        condensed_backups: vec!["short-spare".to_string()],
        check_model: Some("check".to_string()),
        check_backups: Vec::new(),
        token_limit: 4096,
        recap_reserve: 2000,
        summary_language: "English".to_string(),
        force_check_failure: false,
        force_condensed_primary_failure: false,
        verbose_payload_logs: false,
    }
}

fn prompts() -> CondensedPromptConfig {
    CondensedPromptConfig {
        system_prompt: Some("system".to_string()),
        user_prompt: Some("roast: {{ .ChatHistory }}".to_string()),
    }
}

fn models() -> RecapModels {
    RecapModels::from_config(&recap_config(), &prompts())
}

fn reply(model: &str, content: &str) -> Outcome {
    Outcome::Reply(CompletionReply {
        model: model.to_string(),
        choices: vec![Some(content.to_string())],
        usage: Some(ReportedUsage { prompt_tokens: 3, completion_tokens: 4, total_tokens: 7 }),
    })
}

fn failure(reason: &str) -> Outcome {
    Outcome::Failed(reason.to_string())
}

fn texts(parts: &[&str]) -> Vec<String> {
    parts.iter().map(|part| part.to_string()).collect()
}

fn model_of(ask: &Ask) -> &str {
    &ask.model
}

// Single completions

#[test]
fn single_completions_ask_the_primary_model() {
    let ask = ask_summarize_any(&models(), "long");
    assert_eq!(ask.model, "main");
    assert_eq!(ask.user, "內容：\nlong");
    let one = ask_summarize_one_chat_history(&models(), "long");
    assert_eq!(one.user, "消息：\nlong\n请你帮我总结一下。");
    let done = finish_single(&models(), SUMMARIZE_ANY_OPERATION, "context", &reply("x", "short"));
    match done {
        Ok((contents, record)) => {
            assert_eq!(contents, texts(&["short"]));
            assert_eq!(record.model, "main");
            assert_eq!(record.usage.total_tokens, 7);
        }
        Err(error) => panic!("{error}"),
    }
    assert!(matches!(
        finish_single(&models(), SUMMARIZE_ANY_OPERATION, SUMMARIZE_ANY_FAILED, &failure("down")),
        Err(message) if message == "summarize any failed"
    ));
    assert_eq!(SUMMARIZE_ONE_CHAT_HISTORY_FAILED, "summarize one chat history failed");
    assert_eq!(
        render_error(RenderFault::UnclosedAction),
        "prompt template contains an unclosed action"
    );
}

// Detailed recaps

#[test]
fn a_detailed_slice_comes_from_the_first_model_that_answers() {
    let asked = summarize_chat_histories_step(&models(), "history", "", &Vec::new());
    match &asked {
        DetailedStep::Ask(ask) => {
            assert_eq!(model_of(ask), "main");
            assert!(ask.user.contains("history"));
            assert!(ask.user.contains("English"));
        }
        step => panic!("{step:?}"),
    }
    let finished =
        summarize_chat_histories_step(&models(), "history", "", &vec![reply("main-1", "recap")]);
    match finished {
        DetailedStep::Finished(result, record) => {
            assert_eq!(result.content, "recap");
            assert_eq!(result.trace.generation.primary_used_model, "main-1");
            assert_eq!(record.model, "main-1");
        }
        step => panic!("{step:?}"),
    }
    let second = summarize_chat_histories_step(&models(), "history", "", &vec![reply("m", "  ")]);
    assert!(matches!(&second, DetailedStep::Ask(ask) if ask.model == "spare"));
    let rescued = summarize_chat_histories_step(
        &models(),
        "history",
        "",
        &vec![failure("down"), reply("", "recap")],
    );
    match rescued {
        DetailedStep::Finished(result, _) => {
            assert!(result.trace.generation.backup_succeeded);
            assert_eq!(result.trace.generation.backup_used_model, "spare");
            assert_eq!(result.trace.generation.primary_failure_reason, "down");
        }
        step => panic!("{step:?}"),
    }
    let lost = summarize_chat_histories_step(
        &models(),
        "history",
        "",
        &vec![failure("down"), reply("s", "")],
    );
    match lost {
        DetailedStep::Failed(error) => {
            assert_eq!(error.source, "backup model returned empty recap content")
        }
        step => panic!("{step:?}"),
    }
}

// Condensed recaps

#[test]
fn a_condensed_output_is_one_plain_line() {
    assert_eq!(judge_condensed_output(" one line \n\n", None), Ok("one line".to_string()));
    assert_eq!(judge_condensed_output("  ", None), Err(CondensedFault::NoContent));
    assert_eq!(judge_condensed_output("```x```", None), Err(CondensedFault::CodeFence));
    assert_eq!(judge_condensed_output("x", Some(true)), Err(CondensedFault::JsonLike));
    assert_eq!(judge_condensed_output("a\nb", None), Err(CondensedFault::NotSingleLine));
    assert_eq!(judge_condensed_output("# a", None), Err(CondensedFault::Heading));
    assert_eq!(judge_condensed_output("- a", None), Err(CondensedFault::ListItem));
    assert_eq!(CondensedFault::ListItem.message(), "condensed output contains an unordered-list item");
    assert_eq!(normalize_structured_condensed_output("fine"), Ok("fine".to_string()));
    assert_eq!(
        normalize_structured_condensed_output("{\"a\": 1}"),
        Err(CondensedFault::JsonLike)
    );
    assert!(is_malformed("", None));
    assert!(needs_condensed_repair("[1, 2]"));
    assert!(!needs_condensed_repair("fine"));
}

#[test]
fn a_condensed_recap_falls_back_and_is_repaired() {
    let asked = sarcastic_condense_step(&models(), "history", &Vec::new());
    match &asked {
        CondensedStep::Ask(ask) => {
            assert_eq!(model_of(ask), "short");
            assert_eq!(ask.system, "system");
            assert_eq!(ask.user, "roast: history");
            assert_eq!(ask.temperature_percent, Some(70));
        }
        step => panic!("{step:?}"),
    }
    let finished =
        sarcastic_condense_step(&models(), "history", &vec![observe(reply("short-1", " line "))]);
    match finished {
        CondensedStep::Finished(result, Some(record)) => {
            assert_eq!(result.content, "line");
            assert_eq!(record.model, "short-1");
            assert!(!result.trace.check.attempted);
        }
        step => panic!("{step:?}"),
    }
    let backup = sarcastic_condense_step(&models(), "history", &vec![observe(failure("down"))]);
    assert!(matches!(&backup, CondensedStep::Ask(ask) if ask.model == "short-spare"));
    let misshapen = vec![observe(reply("s", "a\nb")), observe(failure("down"))];
    let repair = sarcastic_condense_step(&models(), "history", &misshapen);
    match &repair {
        CondensedStep::Ask(ask) => {
            assert_eq!(model_of(ask), "check");
            assert!(ask.user.ends_with("a\nb"));
        }
        step => panic!("{step:?}"),
    }
    let repaired = vec![
        observe(reply("s", "a\nb")),
        observe(failure("down")),
        observe(reply("check-1", "ab")),
    ];
    match sarcastic_condense_step(&models(), "history", &repaired) {
        CondensedStep::Finished(result, _) => {
            assert_eq!(result.content, "ab");
            assert!(result.trace.check.succeeded);
            assert_eq!(result.trace.check.generation.primary_used_model, "check-1");
        }
        step => panic!("{step:?}"),
    }
    let lost = vec![observe(failure("down")), observe(failure("down too"))];
    match sarcastic_condense_step(&models(), "history", &lost) {
        CondensedStep::Failed(error) => {
            assert!(error.trace.generation.primary_failed);
            assert_eq!(error.trace.generation.primary_failure_reason, "down");
        }
        step => panic!("{step:?}"),
    }
}

// Tokens and slices

#[test]
fn slices_keep_the_text_within_the_limit() {
    let content = "The quick brown fox jumps over the lazy dog. 群裡的聊天。";
    assert!(is_tokenizable(content));
    let slices = split_content_by_token_limit(content, 5).expect("a limit");
    assert!(slices.len() > 1);
    assert_eq!(slices.concat(), content);
    assert_eq!(split_content_by_token_limit("", 5), Ok(vec![String::new()]));
    assert_eq!(split_content_by_token_limit(content, 0), Err(ZeroTokenLimit));
    assert_eq!(
        split_content_by_token_limit(content, 1_000).expect("a limit"),
        vec![content.to_string()]
    );
    assert!(!ZeroTokenLimit.message().is_empty());
    assert_eq!(cut_length("群聊", 4), 1);
    assert_eq!(cut_length("群聊", 1), 1);
}

#[test]
fn only_a_word_that_fills_the_stack_is_refused() {
    assert!(is_tokenizable(&"x".repeat(998_999)));
    assert!(!is_tokenizable(&"x".repeat(999_000)));
    assert!(!is_tokenizable(&" ".repeat(999_000)));
    assert!(is_tokenizable(&"ж ".repeat(1_000_000)));
    assert!(is_tokenizable(&"群聊。".repeat(1_000_000)));
    assert!(is_tokenizable(&"群😀".repeat(1_000_000)));
    assert!(is_tokenizable(&"καλημέρα!".repeat(200_000)));
    assert!(is_tokenizable(&"7".repeat(1_500_000)));
    assert!(is_tokenizable(&"\u{5d0}\u{5d1} ".repeat(500_000)));
}

#[test]
fn a_long_text_of_short_words_is_cut() {
    let content = "слово ".repeat(2_000);
    assert!(is_tokenizable(&content));
    let slices = split_content_by_token_limit(&content, 1_500).expect("a limit");
    assert!(slices.len() > 1);
    assert_eq!(slices.concat(), content);
}

fn slice(content: &str) -> SliceAttempt {
    SliceAttempt::Generated(DetailedSliceResult {
        content: content.to_string(),
        usage: TokenUsage { prompt_tokens: 1, completion_tokens: 2, total_tokens: 3 },
        trace: RecapExecutionTrace::default(),
    })
}

fn lost_slice(reason: &str) -> SliceAttempt {
    SliceAttempt::Failed(DetailedGenerationError {
        source: reason.to_string(),
        trace: RecapExecutionTrace::default(),
    })
}

#[test]
fn every_slice_is_summarized_within_its_attempts() {
    let slices = texts(&["a", "b"]);
    assert_eq!(
        summarize_slices_step(&slices, &Vec::new()),
        SlicesStep::Summarize { slice: 0, delayed: false }
    );
    assert_eq!(
        summarize_slices_step(&slices, &vec![lost_slice("down")]),
        SlicesStep::Summarize { slice: 0, delayed: true }
    );
    assert_eq!(
        summarize_slices_step(&slices, &vec![slice("one")]),
        SlicesStep::Summarize { slice: 1, delayed: false }
    );
    match summarize_slices_step(&slices, &vec![slice("one"), slice("two")]) {
        SlicesStep::Finished(summaries, usage, _) => {
            assert_eq!(summaries, texts(&["one", "two"]));
            assert_eq!(usage.total_tokens, 6);
        }
        step => panic!("{step:?}"),
    }
    let exhausted: Vec<SliceAttempt> =
        (0..DETAILED_SLICE_ATTEMPTS).map(|_| lost_slice("down")).collect();
    assert!(matches!(summarize_slices_step(&slices, &exhausted), SlicesStep::Failed(_)));
    assert_eq!(token_budget(&recap_config()), Ok(2096));
    assert_eq!(
        token_budget(&RecapOpenAiConfig { token_limit: 2000, ..recap_config() }),
        Err(BudgetError::NotPositive)
    );
    assert!(!BudgetError::NotPositive.message().is_empty());
    assert!(!BudgetError::TooLarge.message().is_empty());
}

// Prompts

fn history(message_id: i64, name: &str, text: &str, replied_to: i64) -> TelegramChatHistory {
    TelegramChatHistory {
        id: message_id,
        chat_id: -100,
        chat_type: "supergroup".to_string(),
        chat_title: "群".to_string(),
        message_id,
        user_id: 7,
        username: "user".to_string(),
        full_name: name.to_string(),
        text: text.to_string(),
        replied_to_message_id: replied_to,
        replied_to_user_id: 0,
        replied_to_full_name: String::new(),
        replied_to_username: String::new(),
        replied_to_text: String::new(),
        replied_to_chat_type: String::new(),
        chatted_at: 0,
        embedded: false,
        from_platform: 0,
        created_at: 0,
        updated_at: 0,
    }
}

#[test]
fn prompts_number_the_messages() {
    let histories = vec![history(501, "Ann", "hello", 0), history(502, "Bob", "hi", 501)];
    let (prompt, numbers) = build_rich_recap_prompt(&histories);
    assert_eq!(
        prompt,
        "msgId:1: Ann sent: hello\nmsgId:2: Bob replying to [ sent msgId:3]: hi"
    );
    assert_eq!(numbers.get(&1), Some(&501));
    assert_eq!(numbers.get(&2), Some(&502));
    assert_eq!(numbers.get(&3), Some(&501));
    assert_eq!(numbers.len(), 3);
    let long = vec![history(1, "A name of ten#", "x", 0), history(2, "#short", "y", 0)];
    assert_eq!(
        build_rich_recap_prompt(&long).0,
        "msgId:1: user sent: x\nmsgId:2: short sent: y"
    );
    assert_eq!(build_condensed_history(&histories), "[1] Ann: hello\n[2] Bob: hi\n");
    let forwarded = vec![PrivateForwardedReplayChatHistory {
        message_id: 9,
        actor_display_name: "Ann".to_string(),
        actor_username: "ann".to_string(),
        text: "hello".to_string(),
    }];
    assert_eq!(build_private_forwarded_recap_prompt(&forwarded), "msgId:9: Ann sent: hello");
}

#[test]
fn nothing_is_condensed_without_text() {
    match generate_condensed_step(&models(), &Vec::new(), &Vec::new()) {
        CondensedStep::Failed(error) => {
            assert_eq!(error.source, "no chat histories");
            assert_eq!(error.trace, CondensedExecutionTrace::default());
        }
        step => panic!("{step:?}"),
    }
    match generate_condensed_from_text_step(&models(), " \n", &Vec::new()) {
        CondensedStep::Failed(error) => assert_eq!(error.source, "no chat history text"),
        step => panic!("{step:?}"),
    }
    let histories = vec![history(501, "Ann", "hello", 0)];
    match generate_condensed_step(&models(), &histories, &Vec::new()) {
        CondensedStep::Ask(ask) => assert!(ask.user.contains("[1] Ann: hello")),
        step => panic!("{step:?}"),
    }
}

#[test]
fn references_become_links_in_supergroups() {
    let mut numbers: HashMap<i64, i64> = HashMap::new();
    numbers.insert(1, 501);
    numbers.insert(2, 502);
    assert_eq!(
        resolve_rich_recap_references("群 {{tg-ref:1, 2,1,9}}.", -1_001_234, "supergroup", &numbers),
        "群 [1](https://t.me/c/1234/501) [2](https://t.me/c/1234/502)."
    );
    assert_eq!(
        resolve_rich_recap_references("a {{tg-ref:1}}", -1_001_234, "group", &numbers),
        "a "
    );
    let resolved =
        resolve_summaries(&texts(&["x {{tg-ref:1}}"]), -1_001_234, "supergroup", &numbers);
    assert_eq!(resolved, texts(&["x [1](https://t.me/c/1234/501)"]));
    assert_eq!(resolve_private_summaries(&texts(&["x {{tg-ref:1}}"])).len(), 1);
    assert_eq!(group_log_output(&texts(&["a", "b"])), "a\n\nb");
    assert_eq!(private_log_output(&texts(&["a", "b"])), "a\nb");
}

#[test]
fn traces_are_merged_and_named() {
    let mut first = RecapExecutionTrace::default();
    let mut second = RecapExecutionTrace::default();
    second.generation.primary_used_model = "main-1".to_string();
    merge_recap_execution_trace(&mut first, &second);
    assert_eq!(first.generation.primary_used_model, "main-1");
    merge_recap_execution_trace(&mut first, &second);
    assert_eq!(first.generation.primary_used_model, "main-1");
    let mut joined = RecapExecutionTrace::default();
    joined.generation.primary_used_model = "a,".to_string();
    let mut other = RecapExecutionTrace::default();
    other.generation.primary_used_model = " b ".to_string();
    other.generation.primary_failed = true;
    merge_recap_execution_trace(&mut joined, &other);
    merge_recap_execution_trace(&mut joined, &other);
    assert_eq!(joined.generation.primary_used_model, "a,, b");
    assert!(joined.generation.primary_failed);
    assert_eq!(resolved_group_model_name("main", &first), "main-1");
    assert_eq!(resolved_group_model_name("main", &RecapExecutionTrace::default()), "main");
    let info = build_rich_recap_model_info(None, Some(&first));
    assert_eq!(
        info,
        "> **模型資訊**\n>\n> - 濃縮總結：資訊不可用\n> - 詳細總結：main\\-1\n> - Check：資訊不可用"
    );
}

// Rich Markdown

#[test]
fn escaped_text_reads_back() {
    assert_eq!(escape_rich_markdown_text(" a*b\r\n[c] "), "a\\*b \\[c\\]");
    assert_eq!(unescape_rich_markdown_text("a\\*b \\[c\\]"), "a*b [c]");
    assert_eq!(unescape_rich_markdown_text("a\\n"), "a\\n");
}

#[test]
fn markdown_of_models_is_sanitized() {
    assert_eq!(
        sanitize_detailed_recap_markdown("* one\n> two | three\n```\nfour @bob <b>x</b>"),
        "- one\ntwo \\| three\nfour bob x"
    );
    assert_eq!(
        sanitize_detailed_recap_markdown("[text](https://a.b/c) https://d.e f"),
        "text  f"
    );
    assert_eq!(sanitize_condensed_recap_markdown("# Title\n* a"), "### Title\n- a");
    assert_eq!(style_recap_lines("~~~\na", RecapStyle::Condensed), "a");
}

#[test]
fn a_summary_is_laid_out_in_blocks() {
    let trace = CondensedExecutionTrace::default();
    let detailed = RecapExecutionTrace::default();
    let summary = build_rich_recap_summary(&RichRecapSummaryConfig {
        title: "群",
        hours: 6,
        automatic: true,
        condensed_summary: "濃縮總結：line",
        general_group_notice: true,
        subscription_chat_title: "群*",
        condensed_trace: Some(&trace),
        recap_trace: Some(&detailed),
        ..Default::default()
    });
    assert!(summary.starts_with(
        "# 【群】聊天回顧\n\n_自動產生 **6 小時**總結_\n\n> 📬 這是您訂閱的 **群\\*** 群組定時聊天回顧。\n\n## 濃縮總結\n\nline\n\n> 💡"
    ));
    assert!(summary.contains("\n\n---\n\n> **模型資訊**"));
}

#[test]
fn plain_text_drops_the_markup() {
    assert_eq!(
        rich_markdown_to_plain_text("# Title\n> **bold** [a](https://b.c) `x` _y_"),
        "Title\nbold a (https://b.c) x y"
    );
}

#[test]
fn messages_stay_within_the_limit() {
    let one = compose_rich_recap_messages("summary", &texts(&["detail"]));
    assert_eq!(
        one,
        texts(&["summary\n\n<details><summary>詳細總結</summary>\n\ndetail\n\n</details>"])
    );
    let long = "字 ".repeat(40_000);
    let many = compose_rich_recap_messages("summary", &vec![long]);
    assert!(many.len() > 1);
    assert!(many
        .iter()
        .all(|message| count_units(message) <= RICH_MESSAGE_UTF16_UNIT_LIMIT as u128));
    let parts = split_plain_text(&"word ".repeat(100), 40);
    assert!(parts.iter().all(|part| count_units(part) <= 40));
    assert_eq!(split_plain_text("", 40), Vec::<String>::new());
    let (head, tail) = cut_around_spans("abcdef", 4, &vec![(2, 6)]);
    assert_eq!((head.as_str(), tail.as_str()), ("ab", "cdef"));
    assert_eq!(fallback_condensed_summary(&Vec::new(), "default"), "default");
    assert_eq!(
        fallback_condensed_summary(&texts(&[" one ", "two"]), "default"),
        "one  two"
    );
}

// Recaps in two halves

fn labels() -> SummaryLabels {
    SummaryLabels {
        participants: "People".to_string(),
        discussion: "Discussion".to_string(),
        conclusion: "Conclusion".to_string(),
        colon: ": ".to_string(),
        comma: ", ".to_string(),
    }
}

fn topic() -> TopicSummary {
    TopicSummary {
        topic_name: "Topic <1>".to_string(),
        since_id: 501,
        participants: texts(&["Ann", "Bob"]),
        discussion: vec![DiscussionPoint { point: "point".to_string(), key_ids: vec![502] }],
        conclusion: Some("end".to_string()),
    }
}

#[test]
fn topics_are_formatted_twice() {
    let html = format_topics_to_telegram_html(&vec![topic()], &labels(), -1_001_234_567_890);
    assert_eq!(
        html,
        "<b><a href=\"https://t.me/c/1234567890/501\">Topic &lt;1&gt;</a></b>\nPeople: Ann, Bob\nDiscussion: \n \u{2022} point <a href=\"https://t.me/c/1234567890/502\">[1]</a>\nConclusion: end\n"
    );
    let loose = TopicSummary {
        since_id: 0,
        discussion: vec![DiscussionPoint { point: "a < b".to_string(), key_ids: Vec::new() }],
        conclusion: Some(String::new()),
        ..topic()
    };
    let markdown = format_topics_to_markdown(&vec![topic(), loose], &labels(), 1234);
    assert_eq!(
        markdown,
        "## <a href=\"https://t.me/c/1234/501\">Topic <1></a>\nPeople: Ann, Bob\nDiscussion: \n - point <a href=\"https://t.me/c/1234/502\">[1]</a>\nConclusion: end\n\n## Topic <1>\nPeople: Ann, Bob\nDiscussion: \n - a < b\n"
    );
    assert_eq!(
        format_topics_to_markdown(&Vec::new(), &labels(), 1234),
        "No discussion topics identified."
    );
    assert_eq!(extract_json_from_response("```json\n[1]\n```"), "[1]");
    assert_eq!(extract_json_from_response(" ```json "), "```json");
    assert_eq!(format_user_name("A#nn", "ann"), "Ann");
    assert_eq!(format_user_name("Annabel Lee", "ann"), "ann");
    assert_eq!(format_user_name("Annabel Lee", ""), "Annabel Lee");
    assert_eq!(format_user_name("", "ann"), "ann");
    assert_eq!(format_user_name("", ""), "unknown");
}

fn line(id: i64, text: &str) -> ChatHistory {
    ChatHistory {
        id,
        chat_id: -100,
        message_id: id,
        from_id: 7,
        from_full_name: "Ann".to_string(),
        from_username: "ann".to_string(),
        kind: "text".to_string(),
        text: text.to_string(),
        media_url: String::new(),
        created_at: 0,
    }
}

#[test]
fn a_dual_recap_repairs_its_halves() {
    assert_eq!(dual_transcript(&Vec::new()), Err(NoMessages));
    assert_eq!(dual_transcript(&vec![line(1, "")]), Err(NoMessages));
    assert_eq!(NoMessages.message(), "no messages to summarize");
    assert_eq!(
        dual_transcript(&vec![line(1, "hello")]),
        Ok("msgId:1: Ann sent: hello".to_string())
    );
    assert_eq!(
        format_messages(&vec![line(1, "hello"), line(2, ""), line(3, "bye")]),
        "msgId:1: Ann sent: hello\nmsgId:3: Ann sent: bye"
    );
    assert_eq!(summary_language(Locale::En), "English");
    assert_eq!(ask_sarcastic_condense(&models(), "x").map(|ask| ask.user), Ok("roast: x".to_string()));
    let structured = ask_structured(&models(), "x", Locale::ZhHans).expect("a request");
    assert_eq!(structured.model, "main");
    assert!(structured.user.starts_with(
        "Please analyze the following chat history and provide a summary in Simplified Chinese:\n\nChat histories:\"\"\"\nx\n\"\"\"\n"
    ));
    assert_eq!(sarcastic_text(&reply("m", "a")), Some("a".to_string()));
    assert_eq!(structured_text(&failure("down")), None);
    assert_eq!(check_text(&failure("down")), None);
    let complete = DualProgress {
        condensed: read_line(Some("line".to_string())),
        segmented: Some((vec![topic()], "raw".to_string())),
        line_repairs: Vec::new(),
        topic_repairs: Vec::new(),
    };
    match generate_dual_recap_step(&models(), &complete, &labels(), -1_001_234, 9) {
        DualStep::Finished(output) => {
            assert_eq!(output.condensed_summary, "line");
            assert_eq!(
                output.segmented_summary_html,
                format_topics_to_telegram_html(&vec![topic()], &labels(), -1_001_234)
            );
            assert_eq!(output.created_at, 9);
            assert!(!output.trace.check.attempted);
        }
        step => panic!("{step:?}"),
    }
    let broken = DualProgress { condensed: read_line(Some("17".to_string())), ..complete };
    match generate_dual_recap_step(&models(), &broken, &labels(), -1_001_234, 9) {
        DualStep::RepairLine(ask) => assert_eq!(ask.model, "check"),
        step => panic!("{step:?}"),
    }
    let repaired = DualProgress {
        line_repairs: vec![read_line(Some("fixed".to_string()))],
        ..broken
    };
    match generate_dual_recap_step(&models(), &repaired, &labels(), -1_001_234, 9) {
        DualStep::Finished(output) => {
            assert_eq!(output.condensed_summary, "fixed");
            assert!(output.trace.check.succeeded);
        }
        step => panic!("{step:?}"),
    }
    let trace = RecapTrace {
        condensed_model: "a".to_string(),
        segmented_model: "b".to_string(),
        check: CheckModelTrace::default(),
    };
    assert_eq!(
        trace.build_status_lines(|line| format!("{}={}", line.key, line.model)),
        "footer.condensed=a\nfooter.segmented=b\nfooter.check_not_configured="
    );
}

#[test]
fn default_prompts_ask_for_the_history() {
    let prompts = PromptConfig::default();
    let rendered = prompts.render_sarcastic_user_prompt("the history").expect("a prompt");
    assert!(rendered.contains("the history"));
    assert!(!rendered.contains("{{"));
}
