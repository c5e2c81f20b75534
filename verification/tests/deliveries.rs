//! Delivering recaps, automatic ones included.

use insights_bot::address::has_room;
use insights_bot::bot::keyboards::{build_subscriber_vote_keyboard, build_vote_keyboard};
use insights_bot::config::TelegramConfig;
use insights_bot::db::models::{
    ReactionCounts, TelegramChatAutoRecapsSubscriber, TelegramChatHistory,
    TelegramChatRecapsOptions, TokenUsage,
};
use insights_bot::reply::Reply;
use insights_bot::redis::recap_state::InMemoryRecapStateStore;
use insights_bot::services::autorecap::{
    auto_recap_step_with, build_auto_recap_targets, default_condensed_summary,
    generate_and_deliver_auto_recap_step, has_enough_auto_recap_histories, next_queue_score,
    prepare_auto_recap, read_again, read_auto_recap_state, seed_enabled_auto_recaps,
    settle_condensed, telegram_chat_type, test_chat, AutoRecapPreparation, AutoRecapRun,
    AutoRecapStep, AutoRecapStop, AutoRecapTarget, ChatKind, CondensedOutcome, PreparationError,
};
use insights_bot::services::autorecap_delivery::{
    message_to_pin, pinned_flags, replace_pinned_message, target_report, AutoRecapDeliveryTarget,
    PinReplacement,
};
use insights_bot::services::autorecap_queue::{
    auto_recap_window_hours, decode_auto_recap_member, effective_auto_recap_rate,
    encode_auto_recap_member, enqueue_auto_recap, next_auto_recap_at_ms, open_capsule,
    pop_due_auto_recap, stored_rate, AutoRecapCapsule, MemberError,
};
use insights_bot::services::condensed::{CondensedGenerationError, CondensedResult};
use insights_bot::services::envelope::read_nested_number;
use insights_bot::services::recap_delivery::{
    delivery_parts, is_message_too_long_error, is_rich_message_formatting_error, DeliveryAction,
    DeliverySettings, DeliveryState, RecapDeliveryError,
};
use insights_bot::services::recap_generation::GroupDetailedRecap;
use insights_bot::services::telegram_rich_message::{
    encode_reply, judge_envelope, rich_message_endpoint, rich_message_form, ResponseEnvelope,
    RichMessageReplyParameters, TelegramResponseParameters, TelegramRichMessageError,
};
use insights_bot::services::traces::{CondensedExecutionTrace, RecapExecutionTrace};

fn api_error(code: i32, description: &str) -> TelegramRichMessageError {
    TelegramRichMessageError::Api {
        code,
        description: description.to_string(),
        parameters: TelegramResponseParameters::default(),
    }
}

fn settings() -> DeliverySettings {
    DeliverySettings {
        chat_id: -100,
        reply_to_message_id: 9,
        disable_notification: false,
        allow_sending_without_reply: true,
    }
}

fn strings(parts: &[&str]) -> Vec<String> {
    parts.iter().map(|part| part.to_string()).collect()
}

#[test]
fn parts_are_sent_in_order_and_the_first_has_the_buttons() {
    let parts = delivery_parts(&strings(&["one", "two"]));
    let mut state = DeliveryState::new();
    match state.action(settings(), &parts) {
        DeliveryAction::SendRich { markdown, reply, with_markup } => {
            assert_eq!(markdown, "one");
            assert_eq!(reply.map(|reply| reply.message_id), Some(9));
            assert!(with_markup);
        }
        action => panic!("{action:?}"),
    }
    state.record(&parts, Ok(51));
    match state.action(settings(), &parts) {
        DeliveryAction::SendRich { markdown, with_markup, .. } => {
            assert_eq!(markdown, "two");
            assert!(!with_markup);
        }
        action => panic!("{action:?}"),
    }
    state.record(&parts, Ok(52));
    assert_eq!(state.action(settings(), &parts), DeliveryAction::Finished);
    assert_eq!(state.sent, vec![51, 52]);
}

#[test]
fn a_part_that_cannot_be_formatted_is_sent_plainly() {
    let refusal = api_error(400, "Bad Request: can't parse entities");
    assert!(is_rich_message_formatting_error(&refusal));
    assert!(!is_rich_message_formatting_error(&api_error(403, "Forbidden")));
    assert!(is_message_too_long_error(&api_error(400, "Bad Request: message is too long")));
    let parts = delivery_parts(&strings(&["**one**"]));
    let mut state = DeliveryState::new();
    state.record(&parts, Err(refusal));
    match state.action(settings(), &parts) {
        DeliveryAction::SendPlain { text, with_markup, .. } => {
            assert_eq!(text, "one");
            assert!(with_markup);
        }
        action => panic!("{action:?}"),
    }
    state.record(&parts, Ok(61));
    assert_eq!(state.action(settings(), &parts), DeliveryAction::Finished);
}

#[test]
fn another_failure_ends_the_delivery() {
    let parts = delivery_parts(&strings(&["one", "two"]));
    let mut state = DeliveryState::new();
    state.record(&parts, Ok(51));
    state.record(&parts, Err(TelegramRichMessageError::Transport));
    assert_eq!(state.action(settings(), &parts), DeliveryAction::Failed);
    assert_eq!(state.sent, vec![51]);
    match &state.error {
        Some(RecapDeliveryError::RichPart { part_number, .. }) => assert_eq!(*part_number, 2),
        error => panic!("{error:?}"),
    }
    assert!(state.error.map(|error| error.message()).is_some_and(|text| text.contains('2')));
}

#[test]
fn a_rich_message_is_a_form() {
    let form = rich_message_form(-100, "a \"b\"", None, Some("{}".to_string()), true);
    assert_eq!(form[0], ("chat_id", "-100".to_string()));
    assert_eq!(form[1], ("rich_message", "{\"markdown\":\"a \\\"b\\\"\"}".to_string()));
    assert_eq!(form[2], ("reply_markup", "{}".to_string()));
    let escaped = rich_message_form(1, "\u{1f}\u{8}\u{c}\n\r\t\\/\u{7f}é", None, None, false);
    assert_eq!(
        escaped[1].1,
        "{\"markdown\":\"\\u001f\\b\\f\\n\\r\\t\\\\/\u{7f}é\"}"
    );
    assert_eq!(form[3], ("disable_notification", "true".to_string()));
    assert_eq!(form.len(), 4);
    let reply = RichMessageReplyParameters {
        message_id: 9,
        chat_id: 0,
        allow_sending_without_reply: true,
    };
    assert_eq!(
        encode_reply(reply),
        "{\"message_id\":9,\"allow_sending_without_reply\":true}"
    );
    let config = TelegramConfig {
        bot_token: "12:t".to_string(),
        api_endpoint: "https://api.telegram.org".to_string(),
        webhook_url: None,
        webhook_port: None,
    };
    assert!(rich_message_endpoint(&config)
        .is_some_and(|url| url.starts_with("https://api.telegram.org/bot12:t/")));
    let long = TelegramConfig { bot_token: "1".repeat(20_000_000), ..config };
    assert!(rich_message_endpoint(&long).is_some_and(|url| url.len() > 20_000_000));
    assert!(has_room(&Some("https://api.telegram.org/".to_string()), "bot1", "x"));
    assert!(has_room(&None, "bot1", "x"));
}

#[test]
fn a_response_is_judged_by_its_envelope() {
    let ok = ResponseEnvelope {
        ok: true,
        has_result: true,
        error_code: None,
        description: None,
        parameters: None,
    };
    assert_eq!(judge_envelope(ok, 200), None);
    let empty = ResponseEnvelope {
        ok: true,
        has_result: false,
        error_code: None,
        description: None,
        parameters: None,
    };
    assert_eq!(judge_envelope(empty, 200), Some(TelegramRichMessageError::InvalidResponse));
    let refused = ResponseEnvelope {
        ok: false,
        has_result: false,
        error_code: Some(429),
        description: Some("slow".to_string()),
        parameters: Some(TelegramResponseParameters { migrate_to_chat_id: 0, retry_after: 3 }),
    };
    match judge_envelope(refused, 200) {
        Some(TelegramRichMessageError::Api { code, description, parameters }) => {
            assert_eq!((code, description.as_str()), (429, "slow"));
            assert_eq!(parameters.retry_after, 3);
        }
        other => panic!("{other:?}"),
    }
    for error in [
        TelegramRichMessageError::RequestEncoding,
        TelegramRichMessageError::Transport,
        TelegramRichMessageError::InvalidResponse,
        api_error(400, "bad"),
    ] {
        assert!(!error.message().is_empty());
    }
}

#[test]
fn queue_members_are_read_back() {
    let member = encode_auto_recap_member(-1_001_234);
    assert_eq!(
        decode_auto_recap_member(&member),
        Ok(AutoRecapCapsule { chat_id: -1_001_234 })
    );
    assert_eq!(decode_auto_recap_member("!!"), Err(MemberError::Base64));
    assert_eq!(decode_auto_recap_member("e30="), Err(MemberError::Json));
    assert_eq!(open_capsule(Some(5)), Ok(AutoRecapCapsule { chat_id: 5 }));
    assert_eq!(open_capsule(None), Err(MemberError::Json));
    assert!(!MemberError::Base64.message().is_empty());
}

fn member(json: &str) -> String {
    base64::Engine::encode(&base64::engine::general_purpose::STANDARD, json)
}

#[test]
fn only_the_chat_of_the_payload_counts() {
    let chat = |json: &str| decode_auto_recap_member(&member(json));
    for (json, chat_id) in [
        (" { \"payload\" : { \"more\": 1, \"chat_id\": 5 } } ", 5),
        ("{\"payload\":{\"chat_id\":-9223372036854775808}}", i64::MIN),
        ("{\"x\":[1,{\"payload\":2}],\"x\":\"}\\\"\",\"payload\":{\"chat_id\":5}}", 5),
        ("{\"\\u0070ayload\":{\"chat_id\":5},\"big\":1e999}", 5),
        ("[[5]]", 5),
        ("[{\"chat_id\":5}]", 5),
        ("{\"payload\":[ 5 ]}", 5),
    ] {
        assert_eq!(chat(json), Ok(AutoRecapCapsule { chat_id }), "{json}");
    }
    for refused in [
        "",
        "5",
        "{}",
        "[]",
        "[[]]",
        "[[5,6]]",
        "[[5],[6]]",
        "{\"chat_id\":5}",
        "{\"chat_id\":{\"payload\":5}}",
        "{\"payload\":5}",
        "{\"payload\":{\"chat_id\":\"5\"}}",
        "{\"payload\":{\"chat_id\":5.0}}",
        "{\"payload\":{\"chat_id\":9223372036854775808}}",
        "{\"payload\":{\"chat_id\":5,\"chat_id\":5}}",
        "{\"payload\":{\"chat_id\":5},\"payload\":{\"chat_id\":5}}",
        "{\"payload\":{\"chat_id\":5},\"\\u0070ayload\":0}",
        "{\"payload\":{\"chat_id\":5},\"\\ud800\":0}",
        "{\"payload\":{\"chat_id\":5}",
        "{\"payload\":{\"chat_id\":5}} x",
        "{\"payload\":{\"chat_id\":5},}",
    ] {
        assert_eq!(chat(refused), Err(MemberError::Json), "{refused}");
    }
    let ignored = [b"{\"payload\":{\"chat_id\":5},\"x\":\"\xff\"}".as_slice(), b"{\"\xff\":0}"];
    let read = |json: &[u8]| read_nested_number(&json.to_vec(), "payload", "chat_id");
    assert_eq!(read(ignored[0]), Some(5));
    assert_eq!(read(ignored[1]), None);
    assert_eq!(read(b"{\"payload\":{\"chat_id\":5},\"\xff\":0}"), None);
}

#[test]
fn members_are_canonical_base64() {
    assert_eq!(
        encode_auto_recap_member(5),
        "eyJwYXlsb2FkIjp7ImNoYXRfaWQiOjV9fQ=="
    );
    for refused in [
        "eyJwYXlsb2FkIjp7ImNoYXRfaWQiOjV9fQ",
        "eyJwYXlsb2FkIjp7ImNoYXRfaWQiOjV9fQ=",
        "eyJwYXlsb2FkIjp7ImNoYXRfaWQiOjV9fR==",
        "eyJwYXlsb2FkIjp7ImNoYXRfaWQiOjV9fQ==\n",
    ] {
        assert_eq!(decode_auto_recap_member(refused), Err(MemberError::Base64), "{refused}");
    }
}

#[test]
fn a_queued_chat_comes_out_once() {
    let mut store = InMemoryRecapStateStore::new();
    let clock = 1_000;
    assert_eq!(
        enqueue_auto_recap(&mut store, clock, -100, 5_000),
        Ok(encode_auto_recap_member(-100))
    );
    assert!(enqueue_auto_recap(&mut store, clock, 7, 9_000).is_ok());
    assert!(enqueue_auto_recap(&mut store, clock, -100, 6_000).is_ok());
    assert_eq!(pop_due_auto_recap(&mut store, clock, 5_999), Ok(None));
    assert_eq!(
        pop_due_auto_recap(&mut store, clock, 9_000),
        Ok(Some(AutoRecapCapsule { chat_id: -100 }))
    );
    assert_eq!(
        pop_due_auto_recap(&mut store, clock, 9_000),
        Ok(Some(AutoRecapCapsule { chat_id: 7 }))
    );
    assert_eq!(pop_due_auto_recap(&mut store, clock, 9_000), Ok(None));
    assert_eq!(store.auto_recap_zadd(clock, "%", 1), Ok(()));
    assert_eq!(pop_due_auto_recap(&mut store, clock, 2), Err(MemberError::Base64));
    assert_eq!(pop_due_auto_recap(&mut store, clock, 2), Ok(None));
}

#[test]
fn recaps_are_due_at_even_slots() {
    assert_eq!(effective_auto_recap_rate(3), 3);
    assert_eq!(effective_auto_recap_rate(7), 4);
    assert_eq!(auto_recap_window_hours(2), 12);
    assert_eq!(auto_recap_window_hours(3), 8);
    assert_eq!(auto_recap_window_hours(4), 6);
    assert_eq!(stored_rate(i64::MAX), 4);
    assert_eq!(stored_rate(2), 2);
    let midnight = 1_699_920_000_000;
    let hour = 3_600_000;
    let due = next_auto_recap_at_ms(midnight, 0, 4);
    assert_eq!(due, midnight + 2 * hour);
    assert_eq!(next_auto_recap_at_ms(midnight + 20 * hour, 0, 4), midnight + 26 * hour);
    assert_eq!(next_auto_recap_at_ms(midnight + 8 * hour, 0, 2), midnight + 20 * hour);
    assert_eq!(next_auto_recap_at_ms(midnight + 16 * hour + 1, 0, 3), midnight + 24 * hour);
    assert_eq!(next_auto_recap_at_ms(-1, 0, 4), 2 * hour);
    assert_eq!(next_queue_score(4, 0, midnight), due);
    let next = next_auto_recap_at_ms(due, 0, 4);
    assert_eq!(next - due, 6 * hour);
    assert_eq!(
        next_auto_recap_at_ms(midnight, 3_600, 4),
        next_auto_recap_at_ms(midnight + hour, 0, 4) - hour
    );
}

fn options(mode: i64) -> TelegramChatRecapsOptions {
    TelegramChatRecapsOptions {
        id: "1".to_string(),
        chat_id: -100,
        auto_recap_send_mode: mode,
        manual_recap_rate_per_seconds: 0,
        auto_recap_rates_per_day: 4,
        pin_auto_recap_message: true,
        created_at: 0,
        updated_at: 0,
    }
}

fn subscriber(user_id: i64) -> TelegramChatAutoRecapsSubscriber {
    TelegramChatAutoRecapsSubscriber {
        id: "1".to_string(),
        chat_id: -100,
        user_id,
        created_at: 0,
        updated_at: 0,
    }
}

#[test]
fn a_capsule_is_queued_again_before_it_is_generated() {
    let disabled = read_auto_recap_state(Some(false), Some(None), Some(Vec::new()));
    let (queued, result) = prepare_auto_recap(disabled);
    assert!(queued.is_empty());
    assert_eq!(result, Ok(AutoRecapPreparation::Disabled));
    let lonely = read_auto_recap_state(Some(true), Some(Some(options(1))), Some(Vec::new()));
    let (queued, result) = prepare_auto_recap(lonely);
    assert_eq!(queued, vec![4]);
    assert!(matches!(result, Ok(AutoRecapPreparation::PrivateWithoutSubscribers { .. })));
    let public = read_auto_recap_state(Some(true), Some(Some(options(0))), Some(Vec::new()));
    let (queued, result) = prepare_auto_recap(public);
    assert_eq!(queued, vec![4]);
    assert!(matches!(result, Ok(AutoRecapPreparation::Generate { .. })));
    let unread = read_auto_recap_state(None, None, None);
    assert_eq!(unread.read_error_count, 3);
    let (_, result) = prepare_auto_recap(unread);
    assert!(matches!(
        result,
        Err(PreparationError::ReadsExhausted) | Err(PreparationError::OptionsUnavailable)
    ));
    assert!(!PreparationError::ReadsExhausted.message().is_empty());
    assert!(read_again(0));
    assert!(!read_again(10));
    assert_eq!(seed_enabled_auto_recaps(&vec![-1, -2], &vec![Some(4), None]), vec![(-1, 4)]);
    assert_eq!(test_chat(true, -5), Some(-5));
    assert_eq!(test_chat(true, 0), None);
    assert_eq!(test_chat(false, -5), None);
}

const LOG: &str = "936da01f-9abd-4d9d-80c7-02af85c822a8";

fn no_counts() -> ReactionCounts {
    ReactionCounts { up_votes: 0, down_votes: 0, lmao: 0 }
}

fn history(chat_type: &str, chat_title: &str) -> TelegramChatHistory {
    TelegramChatHistory {
        id: 1,
        chat_id: -100,
        chat_type: chat_type.to_string(),
        chat_title: chat_title.to_string(),
        message_id: 501,
        user_id: 7,
        username: "user".to_string(),
        full_name: "Ann".to_string(),
        text: "hello".to_string(),
        replied_to_message_id: 0,
        replied_to_user_id: 0,
        replied_to_full_name: String::new(),
        replied_to_username: String::new(),
        replied_to_text: String::new(),
        replied_to_chat_type: String::new(),
        chatted_at: 0,
        embedded: false,
        from_platform: 0,
        created_at: 0,
        updated_at: 0,
    }
}

/// So many messages; the last one has the title of the chat.
fn histories(count: usize) -> Vec<TelegramChatHistory> {
    (1..=count)
        .map(|at| history("supergroup", if at == count { "群" } else { "old" }))
        .collect()
}

fn run() -> AutoRecapRun {
    let mut options = options(0);
    options.pin_auto_recap_message = true;
    AutoRecapRun {
        chat_id: -100,
        options,
        subscribers: vec![subscriber(7), subscriber(8)],
        chat_kind: Reply::Got(ChatKind::Supergroup),
        histories: Reply::Got(histories(6)),
        generation_ready: true,
        detailed: Reply::Got(GroupDetailedRecap {
            log_id: LOG.to_string(),
            recap_inputs: String::new(),
            summaries: strings(&["one"]),
            usage: TokenUsage { prompt_tokens: 1, completion_tokens: 1, total_tokens: 2 },
            trace: RecapExecutionTrace::default(),
        }),
        counts: Reply::Got(no_counts()),
        keyboard: Reply::Got(()),
        condensed: Some(CondensedOutcome::Generated(CondensedResult {
            content: " line ".to_string(),
            trace: CondensedExecutionTrace::default(),
        })),
        subscriber_keyboards: vec![false, true],
    }
}

fn delivered(run: &AutoRecapRun) -> Vec<AutoRecapDeliveryTarget> {
    match generate_and_deliver_auto_recap_step(run) {
        AutoRecapStep::Deliver(plan) => plan,
        step => panic!("{step:?}"),
    }
}

#[test]
fn only_the_group_is_pinned() {
    let targets = build_auto_recap_targets(-100, 0, &vec![7, 8]);
    assert_eq!(targets.len(), 3);
    assert_eq!(
        targets[0],
        AutoRecapTarget { chat_id: -100, is_private_subscriber: false }
    );
    let private = build_auto_recap_targets(-100, 1, &vec![7]);
    assert_eq!(private, vec![AutoRecapTarget { chat_id: 7, is_private_subscriber: true }]);
    let plan = delivered(&run());
    assert_eq!(plan.iter().map(|target| target.chat_id).collect::<Vec<_>>(), vec![-100, 8]);
    assert!(plan[0].pin_first);
    assert!(!plan[1].pin_first);
    assert!(!plan[0].parts[0].contains("這是您訂閱的"));
    assert!(plan[1].parts[0].contains("這是您訂閱的 **群**"));
    assert_eq!(plan[0].keyboard, build_vote_keyboard(-100, LOG, no_counts()));
    assert_eq!(
        plan[1].keyboard,
        build_subscriber_vote_keyboard(-100, "群", 8, LOG, no_counts())
    );
    let mut unpinned = run();
    unpinned.options.pin_auto_recap_message = false;
    assert!(!delivered(&unpinned)[0].pin_first);
    let mut secret = run();
    secret.options.auto_recap_send_mode = 1;
    assert_eq!(delivered(&secret).len(), 1);
    assert_eq!(message_to_pin(true, &vec![5, 6], true), Some(5));
    assert_eq!(message_to_pin(true, &vec![5, 6], false), None);
    assert_eq!(message_to_pin(false, &vec![5], true), None);
    assert_eq!(
        replace_pinned_message(None, 5),
        PinReplacement { unpin: None, forget: None, pin: 5 }
    );
    assert_eq!(replace_pinned_message(Some((-100, 3)), 5).unpin, Some(3));
    assert_eq!(pinned_flags(3, true), vec![true, false, false]);
    assert_eq!(pinned_flags(2, false), vec![false, false]);
    let report = target_report(-100, vec![5], None, true);
    assert!(report.pin_succeeded);
    assert_eq!(subscriber(7).user_id, 7);
}

#[test]
fn an_automatic_recap_goes_step_by_step() {
    let unknown = AutoRecapRun { chat_kind: Reply::Pending, ..run() };
    assert_eq!(generate_and_deliver_auto_recap_step(&unknown), AutoRecapStep::LoadChat);
    let unread = AutoRecapRun { histories: Reply::Pending, ..run() };
    assert_eq!(
        generate_and_deliver_auto_recap_step(&unread),
        AutoRecapStep::LoadHistories { hours: 6 }
    );
    let few = AutoRecapRun { histories: Reply::Got(histories(5)), ..run() };
    assert_eq!(
        generate_and_deliver_auto_recap_step(&few),
        AutoRecapStep::Stop(AutoRecapStop::NotEnoughHistories)
    );
    assert!(!has_enough_auto_recap_histories(5));
    assert!(has_enough_auto_recap_histories(6));
    let raw = AutoRecapRun { detailed: Reply::Pending, ..run() };
    assert_eq!(
        generate_and_deliver_auto_recap_step(&raw),
        AutoRecapStep::Summarize { chat_type: "supergroup" }
    );
    let uncounted = AutoRecapRun { counts: Reply::Pending, ..run() };
    assert_eq!(
        generate_and_deliver_auto_recap_step(&uncounted),
        AutoRecapStep::CountReactions { log_id: LOG.to_string() }
    );
    assert_eq!(
        auto_recap_step_with(&uncounted, None),
        AutoRecapStep::Stop(AutoRecapStop::LogUnreadable)
    );
    let unstored = AutoRecapRun { keyboard: Reply::Pending, ..run() };
    assert_eq!(
        generate_and_deliver_auto_recap_step(&unstored),
        AutoRecapStep::StoreKeyboard(build_vote_keyboard(-100, LOG, no_counts()))
    );
    let uncondensed = AutoRecapRun { condensed: None, ..run() };
    assert_eq!(generate_and_deliver_auto_recap_step(&uncondensed), AutoRecapStep::Condense);
    let next = AutoRecapRun { subscriber_keyboards: vec![true], ..run() };
    assert_eq!(
        generate_and_deliver_auto_recap_step(&next),
        AutoRecapStep::StoreSubscriberKeyboard(build_subscriber_vote_keyboard(
            -100,
            "群",
            8,
            LOG,
            no_counts()
        ))
    );
    let mut silent = run();
    if let Reply::Got(detailed) = &mut silent.detailed {
        detailed.summaries.clear();
    }
    assert_eq!(
        generate_and_deliver_auto_recap_step(&silent),
        AutoRecapStep::Stop(AutoRecapStop::NoSummaries)
    );
    assert_eq!(telegram_chat_type(ChatKind::Supergroup), "supergroup");
}

#[test]
fn a_condensed_line_is_always_there() {
    let failed = CondensedOutcome::Failed(CondensedGenerationError {
        source: "down".to_string(),
        trace: CondensedExecutionTrace::default(),
    });
    assert_eq!(settle_condensed(&failed, &Vec::new(), "default").0, "default");
    let made = CondensedOutcome::Generated(CondensedResult {
        content: " line ".to_string(),
        trace: CondensedExecutionTrace::default(),
    });
    assert_eq!(settle_condensed(&made, &Vec::new(), "default").0, "line");
    assert_eq!(default_condensed_summary(6), "過去 6 小時的群組聊天回顧");
    let plan = delivered(&run());
    assert!(plan[0].parts[0].contains("_自動產生 **6 小時**總結_"));
    assert!(plan[0].parts[0].contains("\n\nline\n\n"));
    let mut blank = run();
    blank.condensed = Some(CondensedOutcome::Generated(CondensedResult {
        content: "  ".to_string(),
        trace: CondensedExecutionTrace::default(),
    }));
    assert!(!delivered(&blank)[0].parts[0].contains("\n\nline\n\n"));
    let mut plain = run();
    plain.chat_kind = Reply::Got(ChatKind::Group);
    assert!(delivered(&plain)[0].parts[0].contains("一般群組來源暫時不顯示原訊息引用"));
    assert!(!plan[0].parts[0].contains("一般群組來源暫時不顯示原訊息引用"));
}
