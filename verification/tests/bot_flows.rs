//! Commands, buttons, keyboards and what they lead to.

use insights_bot::bot::commands::{menu_commands, parse_go_command, Command};
use insights_bot::bot::handlers::chat_member::{handle_my_chat_member_plan, OwnStatus};
use insights_bot::bot::handlers::migration::{handle_chat_migration_plan, notification_locale};
use insights_bot::bot::handlers::recap::{
    handle_callback_query_step, handler_for, CallbackHandler, CallbackStep,
};
use insights_bot::bot::handlers::recap_configure::{
    build_configure_keyboard, handle_configure_button_step, ConfigureChange, ConfigureRecapView,
    PressState, PressStep, PressedButton, ROUTE_NOP,
};
use insights_bot::bot::handlers::recap_forwarded::{
    handle_recap_forwarded_start_step, handle_recap_forwarded_step, source_history, BeginStep,
    ForwardedRecap, ForwardedStep, COMPLETION_MESSAGE, DELIVERY_FAILURE_MESSAGE,
    GENERATION_FAILURE_MESSAGE, INSUFFICIENT_MESSAGE, PRIVATE_ONLY_MESSAGE, SESSION_ERROR,
    START_MESSAGE,
};
use insights_bot::bot::handlers::recap_manual::{
    escape_html, execute_select_hour_step, filled_summaries, group_display_name,
    handle_feedback_reaction_step, handle_public_recap_command_step, in_progress_text,
    insufficient_histories_message, rate_limit_message, reaction_for, reaction_with,
    select_hour_step_with, ManualRecap, ManualStep, ReactionState, ReactionStep, RecapCommand,
    RecapStep, DELIVERY_FAILED, GENERATION_FAILED, GROUPS_ONLY, NOT_ENABLED,
};
use insights_bot::bot::handlers::recap_subscription::{
    departed_subscriber, handle_private_recap_step, handle_start_continuation_step,
    handle_subscribe_recap_step, handle_unsubscribe_callback_step, handle_unsubscribe_recap_step,
    is_blocked, is_cannot_initiate, remaining_rows, Continuation, ContinuationStep,
    DirectMessage, FlowStep, PrivateRecap, Subscription, UnsubscribeButtonStep, Unsubscription,
    ANONYMOUS_SUBSCRIBE, SUBSCRIBE_GROUPS_ONLY, SUBSCRIBE_NOT_ENABLED,
};
use insights_bot::bot::handlers::system::{
    build_help_commands, cancel_spellings, command_with_at, group_command_suppressed,
    handle_cancel_step, handle_help_step, handle_start_step, help_spellings, locale_for_message,
    start_spellings, CancelStep, Cancellation, FirstEntity, HelpTexts, StartStep, CANCELLED,
    CANCEL_ERROR,
};
use insights_bot::bot::keyboards::{
    build_select_hour_keyboard, build_subscriber_vote_keyboard, build_vote_keyboard, KeyboardPlan,
};
use insights_bot::bot::middleware::{
    append_private_message, encode_replay_entry, private_forwarded_replay_entry,
    record_captured_message_step, RecordStep, Recording,
};
use insights_bot::bot::payloads::{
    encode_start_context, to_go_json, FeedbackRecapReactionActionData, InvalidHour,
    PrivateSubscriptionStartContext, SelectHourCallbackData, UnsubscribeRecapActionData,
};
use insights_bot::bot::users::{
    actor_display_name, is_group_anonymous_bot, telegram_user_id, TelegramUser,
    GROUP_ANONYMOUS_BOT_ID,
};
use insights_bot::config::Locale;
use insights_bot::db::models::{
    AutoRecapSendMode, ReactionCounts, ReactionType, TelegramChatHistory,
    TelegramChatRecapsOptions, TokenUsage,
};
use insights_bot::redis::keys;
use insights_bot::redis::recap_state::ManualRecapRateResult;
use insights_bot::reply::Reply;
use insights_bot::services::autorecap::CondensedOutcome;
use insights_bot::services::condensed::CondensedResult;
use insights_bot::services::message_capture::{CapturedChat, CapturedMessage, CapturedUser};
use insights_bot::services::recap_generation::{
    GroupDetailedRecap, PrivateForwardedDetailedRecap, PrivateForwardedReplayChatHistory,
};
use insights_bot::services::telegram_rich_message::{
    TelegramResponseParameters, TelegramRichMessageError,
};
use insights_bot::services::traces::{CondensedExecutionTrace, RecapExecutionTrace};

fn user(id: u64) -> TelegramUser {
    TelegramUser {
        id,
        is_bot: false,
        username: Some("ann".to_string()),
        first_name: "Ann".to_string(),
        last_name: Some("Lee".to_string()),
    }
}

fn options(seconds: i64, mode: i64) -> TelegramChatRecapsOptions {
    TelegramChatRecapsOptions {
        id: "1".to_string(),
        chat_id: -100,
        auto_recap_send_mode: mode,
        manual_recap_rate_per_seconds: seconds,
        auto_recap_rates_per_day: 4,
        pin_auto_recap_message: false,
        created_at: 0,
        updated_at: 0,
    }
}

fn refused(code: i32, description: &str) -> TelegramRichMessageError {
    TelegramRichMessageError::Api {
        code,
        description: description.to_string(),
        parameters: TelegramResponseParameters { migrate_to_chat_id: 0, retry_after: 0 },
    }
}

fn labels(plan: &KeyboardPlan) -> Vec<Vec<String>> {
    plan.rows
        .iter()
        .map(|row| row.iter().map(|button| button.label.clone()).collect())
        .collect()
}

/// Every button of the keyboard carries the hash of a payload that is stored.
fn answered(plan: &KeyboardPlan) -> bool {
    plan.rows.iter().flatten().all(|button| {
        plan.stores
            .iter()
            .any(|store| keys::callback_wire_value(store.route, &store.payload) == button.wire)
    })
}

#[test]
fn commands_are_parsed_by_their_name() {
    assert_eq!(parse_go_command("/start abc", "My_Bot"), Some(Command::Start("abc".to_string())));
    assert_eq!(parse_go_command("/recap@my_bot", "My_Bot"), Some(Command::Recap));
    assert_eq!(parse_go_command("/recap@other", "My_Bot"), None);
    assert_eq!(parse_go_command("recap", "My_Bot"), None);
    assert_eq!(
        parse_go_command("/recap_forwarded_start", "My_Bot"),
        Some(Command::RecapForwardedStart)
    );
    assert_eq!(parse_go_command("/unknown", "My_Bot"), None);
    let menu = menu_commands();
    assert_eq!(menu.len(), 9);
    assert_eq!(menu[0].command, "start");
    assert!(menu.iter().all(|entry| !entry.description.is_empty()));
}

#[test]
fn payloads_are_safe_inside_html() {
    assert_eq!(to_go_json("{\"a\":\"<&>\u{2028}\"}"), "{\"a\":\"\\u003c\\u0026\\u003e\\u2028\"}");
    let data = SelectHourCallbackData {
        hour: 6,
        chat_id: -100,
        chat_title: "A \"<B>\"".to_string(),
        recap_mode: 1,
    };
    assert_eq!(
        data.to_json(),
        "{\"hour\":6,\"chat_id\":-100,\"chat_title\":\"A \\\"\\u003cB\\u003e\\\"\",\"recap_mode\":1}"
    );
    assert!(data.checked().is_ok());
    let wrong = SelectHourCallbackData {
        hour: 5,
        chat_id: 1,
        chat_title: String::new(),
        recap_mode: 0,
    };
    assert_eq!(wrong.checked(), Err(InvalidHour { hour: 5 }));
    assert_eq!(InvalidHour { hour: 5 }.message(), "invalid hour: 5");
    assert_eq!(
        encode_start_context(-100, "群"),
        PrivateSubscriptionStartContext { chat_id: -100, chat_title: "群".to_string() }.to_json()
    );
    let reaction = FeedbackRecapReactionActionData {
        chat_id: -1,
        log_id: "id".to_string(),
        reaction_type: "lmao".to_string(),
    };
    assert_eq!(
        reaction.to_json(),
        "{\"chatId\":-1,\"logId\":\"id\",\"type\":\"lmao\"}"
    );
}

#[test]
fn every_button_of_a_keyboard_is_answered() {
    let hours = build_select_hour_keyboard(-100, "群", 0);
    assert_eq!(hours.rows.iter().flatten().count(), 6);
    assert!(answered(&hours));
    let counts = ReactionCounts { up_votes: 1, down_votes: 2, lmao: 3 };
    let votes = build_vote_keyboard(-100, "log", counts);
    assert!(answered(&votes));
    assert_eq!(votes.rows.iter().flatten().count(), 3);
    let subscriber = build_subscriber_vote_keyboard(-100, "群", 7, "log", counts);
    assert!(answered(&subscriber));
    assert_eq!(subscriber.rows.iter().flatten().count(), 4);
}

#[test]
fn the_configuration_marks_what_is_chosen() {
    let view = ConfigureRecapView {
        chat_id: -100,
        from_id: 7,
        recap_enabled: true,
        send_mode: 1,
        rates_per_day: 3,
        pin_enabled: false,
    };
    let plan = build_configure_keyboard(view);
    assert!(answered(&plan));
    let shown = labels(&plan);
    assert_eq!(shown.len(), 9);
    assert_eq!(shown[1], vec!["🔘 开启".to_string(), "关闭".to_string()]);
    assert_eq!(shown[3], vec!["公开".to_string(), "🔘 私聊".to_string()]);
    assert_eq!(
        shown[5],
        vec!["2 次".to_string(), "🔘 3 次".to_string(), "4 次".to_string()]
    );
    assert_eq!(shown[7], vec!["开启".to_string(), "🔘 关闭".to_string()]);
    let off = build_configure_keyboard(ConfigureRecapView { recap_enabled: false, ..view });
    assert_eq!(off.rows.len(), 5);
    assert!(answered(&off));
}

#[test]
fn only_who_runs_the_chat_configures_it() {
    let view = ConfigureRecapView {
        chat_id: -100,
        from_id: 7,
        recap_enabled: true,
        send_mode: 0,
        rates_per_day: 4,
        pin_enabled: true,
    };
    let pressed = PressedButton {
        user_id: 7,
        owner_id: Some(7),
        about_pins: false,
        status: Some(true),
        mode: None,
        rates: None,
    };
    let mut state = PressState::new();
    assert_eq!(handle_configure_button_step(&pressed, &state), PressStep::LookUpMember);
    let stranger = PressedButton { user_id: 8, ..pressed };
    assert_eq!(handle_configure_button_step(&stranger, &state), PressStep::Ignore);
    let anyone = PressedButton { owner_id: None, ..stranger };
    assert_eq!(handle_configure_button_step(&anyone, &state), PressStep::LookUpMember);
    state.privileged = Reply::Got(false);
    assert_eq!(handle_configure_button_step(&pressed, &state), PressStep::Ignore);
    state.privileged = Reply::Failed;
    assert_eq!(handle_configure_button_step(&pressed, &state), PressStep::Ignore);
    state.privileged = Reply::Got(true);
    for (button, change) in [
        (pressed, ConfigureChange::Enable(true)),
        (PressedButton { about_pins: true, ..pressed }, ConfigureChange::Pin(true)),
        (
            PressedButton { status: None, mode: Some(1), ..pressed },
            ConfigureChange::Mode(AutoRecapSendMode::OnlyPrivateSubscriptions),
        ),
        (PressedButton { status: None, mode: Some(9), ..pressed }, ConfigureChange::Nothing),
        (PressedButton { status: None, rates: Some(3), ..pressed }, ConfigureChange::Rates(3)),
        (PressedButton { status: None, ..pressed }, ConfigureChange::Nothing),
    ] {
        assert_eq!(handle_configure_button_step(&button, &state), PressStep::Apply(change));
    }
    state.applied = Reply::Failed;
    assert_eq!(handle_configure_button_step(&pressed, &state), PressStep::Ignore);
    state.applied = Reply::Got(());
    assert_eq!(handle_configure_button_step(&pressed, &state), PressStep::Read);
    state.view = Reply::Got(view);
    assert_eq!(
        handle_configure_button_step(&pressed, &state),
        PressStep::StoreKeyboard(build_configure_keyboard(view))
    );
    state.stored = Reply::Failed;
    assert_eq!(handle_configure_button_step(&pressed, &state), PressStep::Ignore);
    state.stored = Reply::Got(());
    assert_eq!(
        handle_configure_button_step(&pressed, &state),
        PressStep::EditKeyboard(build_configure_keyboard(view))
    );
}

#[test]
fn a_press_is_looked_up_or_ignored() {
    let wire = keys::callback_wire_value(keys::ROUTE_SELECT_HOUR, "{}");
    let pressed = |wire: &str| handle_callback_query_step(wire, true, true, &Reply::Pending);
    assert_eq!(
        pressed(&wire),
        CallbackStep::LookUp {
            route: keys::ROUTE_SELECT_HOUR,
            action_hash: keys::callback_action_hash("{}"),
        }
    );
    assert_eq!(
        handle_callback_query_step(&wire, false, true, &Reply::Pending),
        CallbackStep::Ignore
    );
    assert_eq!(
        handle_callback_query_step(&wire, true, true, &Reply::Failed),
        CallbackStep::Ignore
    );
    assert_eq!(
        handle_callback_query_step(&wire, true, true, &Reply::Got(Some("{}".to_string()))),
        CallbackStep::Handle {
            handler: CallbackHandler::SelectHour,
            payload_json: "{}".to_string(),
        }
    );
    assert_eq!(
        handle_callback_query_step(&wire, true, true, &Reply::Got(None)),
        CallbackStep::Handle {
            handler: CallbackHandler::SelectHour,
            payload_json: String::new(),
        }
    );
    let pin = keys::callback_wire_value(keys::ROUTE_CONFIGURE_PIN, "{}");
    assert_eq!(
        handle_callback_query_step(&pin, true, false, &Reply::Got(None)),
        CallbackStep::Ignore
    );
    assert_eq!(pressed(&keys::callback_wire_value(ROUTE_NOP, "\"\"")), CallbackStep::Ignore);
    assert_eq!(pressed(""), CallbackStep::Invalid);
    assert_eq!(pressed(&keys::callback_wire_value("unknown", "{}")), CallbackStep::Ignore);
    assert_eq!(handler_for(keys::ROUTE_CONFIGURE_PIN, true), CallbackHandler::Pin);
    assert_eq!(handler_for(keys::ROUTE_CONFIGURE_PIN, false), CallbackHandler::Ignore);
    assert_eq!(handler_for(keys::ROUTE_CONFIGURE_COMPLETE, false), CallbackHandler::Complete);
    assert_eq!(handler_for("other", true), CallbackHandler::Invalid);
    for route in keys::REGISTERED_CALLBACK_ROUTES {
        assert_ne!(handler_for(route, true), CallbackHandler::Invalid);
    }
}

fn recap_command() -> RecapCommand {
    RecapCommand {
        in_group: true,
        chat_id: -100,
        chat_title: "群".to_string(),
        recap_enabled: Reply::Got(true),
        options: Reply::Got(None),
        configured_seconds: 60,
        store_available: true,
        rate: Reply::Pending,
        keyboard: Reply::Pending,
    }
}

#[test]
fn a_public_recap_asks_for_the_hours() {
    let outside = RecapCommand { in_group: false, ..recap_command() };
    assert_eq!(
        handle_public_recap_command_step(&outside),
        RecapStep::Reply { text: GROUPS_ONLY.to_string() }
    );
    let unread = RecapCommand { recap_enabled: Reply::Pending, ..recap_command() };
    assert_eq!(handle_public_recap_command_step(&unread), RecapStep::ReadFlag);
    let off = RecapCommand { recap_enabled: Reply::Got(false), ..recap_command() };
    assert_eq!(
        handle_public_recap_command_step(&off),
        RecapStep::Reply { text: NOT_ENABLED.to_string() }
    );
    let private = RecapCommand { options: Reply::Got(Some(options(0, 1))), ..recap_command() };
    assert_eq!(handle_public_recap_command_step(&private), RecapStep::HandlePrivately);
    assert_eq!(
        handle_public_recap_command_step(&recap_command()),
        RecapStep::CheckRate { per_seconds: 60 }
    );
    let slower = RecapCommand { options: Reply::Got(Some(options(90, 0))), ..recap_command() };
    assert_eq!(
        handle_public_recap_command_step(&slower),
        RecapStep::CheckRate { per_seconds: 90 }
    );
    let limited = RecapCommand {
        rate: Reply::Got(ManualRecapRateResult { counted_rate: 1, ttl_seconds: 130, allowed: false }),
        ..recap_command()
    };
    assert_eq!(
        handle_public_recap_command_step(&limited),
        RecapStep::Reply { text: rate_limit_message(60, 130) }
    );
    let allowed = RecapCommand {
        rate: Reply::Got(ManualRecapRateResult { counted_rate: 1, ttl_seconds: 0, allowed: true }),
        keyboard: Reply::Got(()),
        ..recap_command()
    };
    match handle_public_recap_command_step(&allowed) {
        RecapStep::AskHours(plan) => assert!(answered(&plan)),
        step => panic!("{step:?}"),
    }
}

#[test]
fn texts_of_manual_recaps() {
    assert_eq!(group_display_name("  "), "當前聊天");
    assert_eq!(group_display_name(" 群 "), "群");
    assert_eq!(escape_html("a<b>&\"'"), "a&lt;b&gt;&amp;&quot;&#39;");
    assert_eq!(
        rate_limit_message(60, 30),
        "很抱歉，您的操作触发了我们的限制机制，为了保证系统的可用性，本命令每最多 60000000000 分钟最多使用一次，请您耐心等待 1 分钟后再试，感谢您的理解和支持。"
    );
    assert!(rate_limit_message(60, 180).contains("耐心等待 3 分钟"));
    assert!(insufficient_histories_message(6, 0).starts_with("最近 6 小時"));
    assert_ne!(insufficient_histories_message(6, 0), insufficient_histories_message(6, 1));
    let data = SelectHourCallbackData {
        hour: 2,
        chat_id: -100,
        chat_title: "<群>".to_string(),
        recap_mode: 1,
    };
    assert_eq!(
        in_progress_text(&data),
        "正在為 <b>&lt;群&gt;</b> 過去 2 個小時的聊天記錄生成回顧，請稍等..."
    );
}

const LOG: &str = "936da01f-9abd-4d9d-80c7-02af85c822a8";

fn no_counts() -> ReactionCounts {
    ReactionCounts { up_votes: 0, down_votes: 0, lmao: 0 }
}

fn condensed_line() -> Option<CondensedOutcome> {
    Some(CondensedOutcome::Generated(CondensedResult {
        content: "line".to_string(),
        trace: CondensedExecutionTrace::default(),
    }))
}

fn usage() -> TokenUsage {
    TokenUsage { prompt_tokens: 1, completion_tokens: 1, total_tokens: 2 }
}

fn history(chat_type: &str, chat_title: &str) -> TelegramChatHistory {
    TelegramChatHistory {
        id: 1,
        chat_id: -100,
        chat_type: chat_type.to_string(),
        chat_title: chat_title.to_string(),
        message_id: 501,
        user_id: 7,
        username: "user".to_string(),
        full_name: "Ann".to_string(),
        text: "hello".to_string(),
        replied_to_message_id: 0,
        replied_to_user_id: 0,
        replied_to_full_name: String::new(),
        replied_to_username: String::new(),
        replied_to_text: String::new(),
        replied_to_chat_type: String::new(),
        chatted_at: 0,
        embedded: false,
        from_platform: 0,
        created_at: 0,
        updated_at: 0,
    }
}

/// So many messages; the last one has the type of the chat.
fn histories(count: usize) -> Vec<TelegramChatHistory> {
    (1..=count)
        .map(|at| history(if at == count { "supergroup" } else { "group" }, "群"))
        .collect()
}

fn manual() -> ManualRecap {
    ManualRecap {
        destination_chat_id: 5,
        reply_to_message_id: 9,
        actor: user(7),
        waiting_edited: true,
        histories: Reply::Got(histories(6)),
        generation_ready: true,
        detailed: Reply::Got(GroupDetailedRecap {
            log_id: LOG.to_uppercase(),
            recap_inputs: String::new(),
            summaries: vec![String::new(), "one".to_string()],
            usage: usage(),
            trace: RecapExecutionTrace::default(),
        }),
        counts: Reply::Got(no_counts()),
        store_available: true,
        keyboard: Reply::Got(()),
        condensed: condensed_line(),
        delivered: Reply::Got(()),
        waiting_deleted: true,
    }
}

#[test]
fn a_chosen_hour_leads_to_a_delivered_recap() {
    let data = SelectHourCallbackData {
        hour: 2,
        chat_id: -100,
        chat_title: "群".to_string(),
        recap_mode: 0,
    };
    let failure = ManualStep::Fail { text: GENERATION_FAILED.to_string() };
    assert_eq!(execute_select_hour_step(&data, &manual()), ManualStep::Done);
    let fresh = ManualRecap { waiting_edited: false, ..manual() };
    assert_eq!(
        execute_select_hour_step(&data, &fresh),
        ManualStep::EditWaiting { text: in_progress_text(&data) }
    );
    let unread = ManualRecap { histories: Reply::Pending, ..manual() };
    assert_eq!(execute_select_hour_step(&data, &unread), ManualStep::LoadHistories { hours: 2 });
    let few = ManualRecap { histories: Reply::Got(histories(5)), ..manual() };
    assert_eq!(
        execute_select_hour_step(&data, &few),
        ManualStep::Fail { text: insufficient_histories_message(2, 0) }
    );
    let raw = ManualRecap { detailed: Reply::Pending, ..manual() };
    assert_eq!(
        execute_select_hour_step(&data, &raw),
        ManualStep::Summarize { chat_type: "supergroup".to_string() }
    );
    let failed = ManualRecap { detailed: Reply::Failed, ..manual() };
    assert_eq!(execute_select_hour_step(&data, &failed), failure);
    let uncounted = ManualRecap { counts: Reply::Pending, ..manual() };
    assert_eq!(
        execute_select_hour_step(&data, &uncounted),
        ManualStep::CountReactions { log_id: LOG.to_string() }
    );
    assert_eq!(select_hour_step_with(&data, &uncounted, None), failure);
    let uncondensed = ManualRecap { condensed: None, ..manual() };
    assert_eq!(execute_select_hour_step(&data, &uncondensed), ManualStep::Condense);
    let undelivered = ManualRecap { delivered: Reply::Failed, ..manual() };
    assert_eq!(
        execute_select_hour_step(&data, &undelivered),
        ManualStep::Fail { text: DELIVERY_FAILED.to_string() }
    );
    let shown = ManualRecap { waiting_deleted: false, delivered: Reply::Failed, ..manual() };
    assert_eq!(execute_select_hour_step(&data, &shown), ManualStep::DeleteWaiting);
    assert_eq!(
        filled_summaries(&vec![String::new(), "one".to_string()]),
        vec!["one".to_string()]
    );
    let ready = ManualRecap { delivered: Reply::Pending, ..manual() };
    match execute_select_hour_step(&data, &ready) {
        ManualStep::Deliver { settings, parts, keyboard } => {
            assert_eq!(settings.chat_id, 5);
            assert_eq!(settings.reply_to_message_id, 9);
            assert!(settings.allow_sending_without_reply);
            assert_eq!(keyboard, build_vote_keyboard(-100, &LOG.to_uppercase(), no_counts()));
            assert_eq!(parts.len(), 1);
            assert!(parts[0].starts_with("# 【群】聊天回顧"));
            assert!(parts[0].contains("(tg://user?id=7) 發起 **2 小時**總結_"));
            assert!(parts[0].contains("\n\nline\n\n"));
        }
        step => panic!("{step:?}"),
    }
}

#[test]
fn a_reaction_needs_an_identifier_and_a_kind() {
    let id = "936DA01F-9ABD-4D9D-80C7-02AF85C822A8";
    assert!(reaction_with(None, "up_vote", &user(7)).is_none());
    assert!(reaction_with(Some(id.to_string()), "none", &user(7)).is_none());
    assert!(reaction_with(Some(id.to_string()), "lmao", &user(u64::MAX)).is_none());
    let applied = reaction_for(id, "up_vote", &user(7)).expect("a reaction");
    assert_eq!(applied.log_id, id.to_lowercase());
    assert_eq!(applied.user_id, 7);
    assert!(applied.reaction == ReactionType::UpVote);
    assert!(reaction_for(id, "rofl", &user(7)).is_none());
    assert!(reaction_for("nothing", "lmao", &user(7)).is_none());
    let state = ReactionState {
        applied: Reply::Pending,
        counts: Reply::Pending,
        store_available: true,
        keyboard: Reply::Pending,
    };
    assert_eq!(handle_feedback_reaction_step(-100, id, &state), ReactionStep::React);
    let counted = ReactionState {
        applied: Reply::Got(()),
        counts: Reply::Got(ReactionCounts { up_votes: 1, down_votes: 0, lmao: 0 }),
        store_available: true,
        keyboard: Reply::Got(()),
    };
    assert!(matches!(
        handle_feedback_reaction_step(-100, id, &counted),
        ReactionStep::EditKeyboard(_)
    ));
}

fn subscription() -> Subscription {
    Subscription {
        in_group: true,
        from: Some(user(7)),
        chat_id: -100,
        chat_title: "群".to_string(),
        bot_username: "bot".to_string(),
        recap_enabled: Reply::Got(true),
        direct: DirectMessage::Pending,
        stored: Reply::Pending,
        store_available: true,
        context: Reply::Pending,
    }
}

#[test]
fn a_subscription_is_told_before_it_is_stored() {
    assert!(matches!(
        handle_subscribe_recap_step(&subscription()),
        FlowStep::SendDirect { user_id: 7, .. }
    ));
    let told = Subscription { direct: DirectMessage::Sent, ..subscription() };
    assert_eq!(handle_subscribe_recap_step(&told), FlowStep::Subscribe { user_id: 7 });
    let outside = Subscription { in_group: false, ..subscription() };
    assert_eq!(
        handle_subscribe_recap_step(&outside),
        FlowStep::Reply { text: SUBSCRIBE_GROUPS_ONLY.to_string() }
    );
    let off = Subscription { recap_enabled: Reply::Got(false), ..subscription() };
    match handle_subscribe_recap_step(&off) {
        FlowStep::Reply { text } | FlowStep::ReplyAndTrack { text, .. } => {
            assert_eq!(text, SUBSCRIBE_NOT_ENABLED)
        }
        step => panic!("{step:?}"),
    }
    let anonymous = Subscription {
        from: Some(TelegramUser {
            id: GROUP_ANONYMOUS_BOT_ID,
            is_bot: true,
            username: Some("GroupAnonymousBot".to_string()),
            first_name: "Group".to_string(),
            last_name: None,
        }),
        ..subscription()
    };
    match handle_subscribe_recap_step(&anonymous) {
        FlowStep::Reply { text } | FlowStep::ReplyAndTrack { text, .. } => {
            assert_eq!(text, ANONYMOUS_SUBSCRIBE)
        }
        step => panic!("{step:?}"),
    }
    let refusal = refused(403, "Forbidden: bot can't initiate conversation with a user");
    assert!(is_cannot_initiate(&refusal));
    assert!(is_blocked(&refused(403, "Forbidden: bot was blocked by the user")));
    assert!(!is_blocked(&refusal));
    let never = Subscription { direct: DirectMessage::Refused(refusal), ..subscription() };
    assert!(matches!(
        handle_subscribe_recap_step(&never),
        FlowStep::StoreStartContext { .. }
    ));
}

#[test]
fn a_private_recap_stores_its_keyboard_first() {
    let recap = PrivateRecap {
        from: Some(user(7)),
        chat_id: -100,
        chat_title: "群".to_string(),
        bot_username: "bot".to_string(),
        store_available: true,
        keyboard: Reply::Pending,
        direct: DirectMessage::Pending,
        context: Reply::Pending,
    };
    assert!(matches!(handle_private_recap_step(&recap), FlowStep::StoreKeyboard(_)));
    let stored = PrivateRecap { keyboard: Reply::Got(()), ..recap };
    match handle_private_recap_step(&stored) {
        FlowStep::SendDirect { user_id, keyboard: Some(plan), .. } => {
            assert_eq!(user_id, 7);
            assert!(answered(&plan));
        }
        step => panic!("{step:?}"),
    }
}

#[test]
fn an_unsubscription_is_stored_before_it_is_told() {
    let mine = Unsubscription {
        in_group: true,
        from: Some(user(7)),
        chat_title: "群".to_string(),
        removed: Reply::Pending,
        deletions: 0,
        direct: DirectMessage::Pending,
    };
    assert_eq!(handle_unsubscribe_recap_step(&mine), FlowStep::Unsubscribe { user_id: 7 });
    let data = Some(UnsubscribeRecapActionData {
        chat_id: -100,
        chat_title: "群".to_string(),
        from_id: 7,
    });
    assert_eq!(
        handle_unsubscribe_callback_step(&data, &user(7), &Reply::Pending),
        UnsubscribeButtonStep::Unsubscribe { chat_id: -100, user_id: 7 }
    );
    assert_eq!(
        handle_unsubscribe_callback_step(&data, &user(8), &Reply::Pending),
        UnsubscribeButtonStep::Ignore
    );
    assert_eq!(
        handle_unsubscribe_callback_step(&data, &user(7), &Reply::Got(())),
        UnsubscribeButtonStep::Confirm
    );
    assert_eq!(
        remaining_rows(
            &vec![
                vec![Some("a".to_string()), Some("b".to_string()), None],
                vec![Some("a".to_string())],
                vec![Some("c".to_string()), Some("a".to_string()), Some("a".to_string())],
            ],
            "a"
        ),
        vec![(0, vec![1, 2]), (2, vec![0, 2])]
    );
    assert_eq!(departed_subscriber(&user(7), 99), Some(7));
    assert_eq!(departed_subscriber(&user(99), 99), None);
}

#[test]
fn a_link_is_continued_in_private() {
    let link = Continuation {
        arguments: "token".to_string(),
        store_available: true,
        from: Some(user(7)),
        private_context: Reply::Pending,
        keyboard: Reply::Pending,
        subscription_context: Reply::Pending,
        stored: Reply::Pending,
    };
    assert!(matches!(
        handle_start_continuation_step(&link),
        ContinuationStep::ReadContext(_)
    ));
    let nothing = Continuation { arguments: "two words".to_string(), ..link };
    assert_eq!(handle_start_continuation_step(&nothing), ContinuationStep::NotHandled);
}

#[test]
fn users_are_known_by_their_number_and_name() {
    assert_eq!(telegram_user_id(&user(7)), Some(7));
    assert_eq!(telegram_user_id(&user(u64::MAX)), None);
    assert!(!is_group_anonymous_bot(&user(GROUP_ANONYMOUS_BOT_ID)) || !user(1).is_bot);
    assert_eq!(actor_display_name("Ann", "Lee", "ann"), "Ann Lee");
    assert_eq!(actor_display_name("", "", "ann"), "ann");
}

fn forwarded(message_id: i64, name: &str) -> PrivateForwardedReplayChatHistory {
    PrivateForwardedReplayChatHistory {
        message_id,
        actor_display_name: name.to_string(),
        actor_username: "handle".to_string(),
        text: "hi".to_string(),
    }
}

fn forwarded_detail(summary: &str) -> PrivateForwardedDetailedRecap {
    PrivateForwardedDetailedRecap {
        recap_inputs: String::new(),
        summaries: vec![summary.to_string()],
        usage: usage(),
        trace: RecapExecutionTrace::default(),
    }
}

fn forwarded_recap() -> ForwardedRecap {
    ForwardedRecap {
        in_private: true,
        from: Some(user(7)),
        chat_id: 7,
        message_id: 30,
        waiting_sent: true,
        store_available: true,
        histories: Reply::Got((1..=5).map(|id| forwarded(id, "Ann")).collect()),
        generation_ready: true,
        detailed: Reply::Got(forwarded_detail("one")),
        condensed: condensed_line(),
        delivered: Reply::Got(()),
        waiting_deleted: true,
    }
}

fn said(text: &'static str, reply: bool) -> ForwardedStep {
    ForwardedStep::Say { text, reply }
}

#[test]
fn receiving_begins_in_private() {
    assert_eq!(
        handle_recap_forwarded_start_step(false, Some(7), true, &Reply::Pending),
        BeginStep::Say { text: PRIVATE_ONLY_MESSAGE, reply: false }
    );
    assert_eq!(
        handle_recap_forwarded_start_step(true, Some(7), true, &Reply::Pending),
        BeginStep::Open { user_id: 7 }
    );
    assert_eq!(
        handle_recap_forwarded_start_step(true, Some(7), true, &Reply::Failed),
        BeginStep::Say { text: SESSION_ERROR, reply: false }
    );
    assert_eq!(
        handle_recap_forwarded_start_step(true, Some(7), true, &Reply::Got(())),
        BeginStep::Say { text: START_MESSAGE, reply: true }
    );
}

#[test]
fn a_forwarded_recap_needs_five_messages() {
    assert_eq!(handle_recap_forwarded_step(&forwarded_recap()), said(COMPLETION_MESSAGE, true));
    let few = ForwardedRecap {
        histories: Reply::Got((1..=4).map(|id| forwarded(id, "Ann")).collect()),
        ..forwarded_recap()
    };
    assert_eq!(handle_recap_forwarded_step(&few), said(INSUFFICIENT_MESSAGE, true));
    let unread = ForwardedRecap { histories: Reply::Pending, ..forwarded_recap() };
    assert_eq!(handle_recap_forwarded_step(&unread), ForwardedStep::ReadBatch { user_id: 7 });
    let silent =
        ForwardedRecap { detailed: Reply::Got(forwarded_detail("")), ..forwarded_recap() };
    assert_eq!(handle_recap_forwarded_step(&silent), said(GENERATION_FAILURE_MESSAGE, true));
    let undelivered = ForwardedRecap { delivered: Reply::Failed, ..forwarded_recap() };
    assert_eq!(handle_recap_forwarded_step(&undelivered), said(DELIVERY_FAILURE_MESSAGE, true));
    let ready = ForwardedRecap { delivered: Reply::Pending, ..forwarded_recap() };
    match handle_recap_forwarded_step(&ready) {
        ForwardedStep::Deliver { settings, parts } => {
            assert_eq!(settings.chat_id, 7);
            assert_eq!(settings.reply_to_message_id, 30);
            assert!(parts[0].starts_with("# 【轉發訊息】聊天回顧"));
            assert!(parts[0].contains("(tg://user?id=7) 發起_"));
        }
        step => panic!("{step:?}"),
    }
    let uncondensed = ForwardedRecap { condensed: None, ..forwarded_recap() };
    assert_eq!(
        handle_recap_forwarded_step(&uncondensed),
        ForwardedStep::Condense { history: "Ann: hi\n".repeat(5) }
    );
    let nameless = ForwardedRecap { from: Some(user(u64::MAX)), ..forwarded_recap() };
    assert_eq!(handle_recap_forwarded_step(&nameless), said(GENERATION_FAILURE_MESSAGE, true));
    assert_eq!(
        source_history(&vec![forwarded(1, "Ann"), forwarded(2, "")]),
        "Ann: hi\nhandle: hi\n"
    );
}

#[test]
fn an_administered_group_is_addressed_by_name() {
    let named = start_spellings("my_bot");
    assert_eq!(named, vec!["start@my_bot".to_string()]);
    assert_eq!(help_spellings("b"), vec!["help@b".to_string(), "start@b".to_string()]);
    assert_eq!(cancel_spellings("b"), vec!["cancel@b".to_string()]);
    let entity = Some(FirstEntity {
        is_bot_command: true,
        start: 0,
        text: "/start@my_bot".to_string(),
    });
    let command = command_with_at(&entity);
    assert_eq!(command.as_deref(), Some("start@my_bot"));
    assert!(!group_command_suppressed(true, true, &command, &named));
    assert!(group_command_suppressed(true, true, &Some("start".to_string()), &named));
    assert!(group_command_suppressed(true, true, &None, &named));
    assert!(!group_command_suppressed(false, true, &None, &named));
    assert!(!group_command_suppressed(true, false, &None, &named));
    let later = Some(FirstEntity { is_bot_command: true, start: 3, text: "/x".to_string() });
    assert_eq!(command_with_at(&later), None);
}

#[test]
fn start_and_help_lead_to_the_help() {
    let (pending, no, yes) = (Reply::Pending, Reply::Got(false), Reply::Got(true));
    assert_eq!(handle_start_step(&pending, &pending, &pending), StartStep::CheckStartGate);
    assert_eq!(handle_start_step(&yes, &pending, &pending), StartStep::Done);
    assert_eq!(handle_start_step(&Reply::Failed, &pending, &pending), StartStep::Continue);
    assert_eq!(handle_start_step(&no, &yes, &pending), StartStep::Done);
    assert_eq!(handle_start_step(&no, &no, &no), StartStep::SendHelp);
    assert_eq!(handle_help_step(&pending), StartStep::CheckHelpGate);
    assert_eq!(handle_help_step(&Reply::Failed), StartStep::SendHelp);
    assert_eq!(handle_help_step(&yes), StartStep::Done);
    assert_eq!(locale_for_message(Some("zh-Hant"), Locale::En), Locale::ZhHant);
    assert_eq!(locale_for_message(Some(""), Locale::ZhHans), Locale::ZhHans);
    assert_eq!(locale_for_message(None, Locale::ZhHans), Locale::ZhHans);
}

#[test]
fn cancelling_reports_what_happened() {
    let cancellation = |suppressed, cancelled| Cancellation {
        suppressed,
        user_id: Some(7),
        store_available: true,
        cancelled,
    };
    assert_eq!(
        handle_cancel_step(&cancellation(Reply::Pending, Reply::Pending)),
        CancelStep::CheckGate
    );
    assert_eq!(
        handle_cancel_step(&cancellation(Reply::Got(true), Reply::Pending)),
        CancelStep::Done
    );
    assert_eq!(
        handle_cancel_step(&cancellation(Reply::Got(false), Reply::Pending)),
        CancelStep::Cancel { user_id: 7 }
    );
    assert_eq!(
        handle_cancel_step(&cancellation(Reply::Got(false), Reply::Got(true))),
        CancelStep::Say { text: CANCELLED, reply: true }
    );
    assert_eq!(
        handle_cancel_step(&cancellation(Reply::Failed, Reply::Got(false))),
        CancelStep::Say { text: CANCEL_ERROR, reply: false }
    );
    assert_eq!(
        handle_cancel_step(&cancellation(Reply::Got(false), Reply::Got(false))),
        CancelStep::SayLocalized { key: "system.cancel" }
    );
}

#[test]
fn the_help_lists_every_command() {
    let texts = HelpTexts {
        basic_name: "Basic & more".to_string(),
        help: "Help".to_string(),
        cancel: String::new(),
        start: "Start".to_string(),
    };
    let help = build_help_commands(&texts, "bot");
    assert!(help.starts_with(
        "<b>Basic &amp; more</b>\n\n/help@bot - Help\n/cancel@bot\n/start@bot - Start\n\n<b>聊天回顾</b>\n\n/recap@bot - "
    ));
    assert!(help.ends_with("/unsubscribe_recap@bot - 取消订阅当前群组的定时聊天回顾"));
}

#[test]
fn only_leaving_and_upgrading_move_data() {
    assert!(handle_my_chat_member_plan(OwnStatus::Left, -100).is_some());
    assert!(handle_my_chat_member_plan(OwnStatus::Other, -100).is_none());
    assert!(handle_chat_migration_plan(None, -100).is_none());
    assert_eq!(handle_chat_migration_plan(Some(-1), -100).map(|steps| steps.len()), Some(5));
    assert_eq!(notification_locale(&Reply::Got("zh-Hans".to_string())), Locale::ZhHans);
    assert_eq!(notification_locale(&Reply::Failed), Locale::En);
}

fn recording(kind: &str) -> Recording {
    Recording {
        chat_kind: kind.to_string(),
        sender: Some(7),
        store_available: true,
        preprocessor_ready: true,
        recap_enabled: Reply::Got(true),
        session_open: Reply::Got(true),
    }
}

#[test]
fn messages_are_recorded_where_they_may_be() {
    assert_eq!(record_captured_message_step(&recording("supergroup")), RecordStep::Capture);
    assert_eq!(
        record_captured_message_step(&recording("private")),
        RecordStep::Append { user_id: 7 }
    );
    assert_eq!(record_captured_message_step(&recording("channel")), RecordStep::Skip);
    let off = Recording { recap_enabled: Reply::Got(false), ..recording("group") };
    assert_eq!(record_captured_message_step(&off), RecordStep::Skip);
    let unread = Recording { session_open: Reply::Pending, ..recording("private") };
    assert_eq!(
        record_captured_message_step(&unread),
        RecordStep::ReadSession { user_id: 7 }
    );
}

fn captured(text: &str) -> CapturedMessage {
    CapturedMessage {
        message_id: 5,
        date: 1_700_000_000,
        chat: CapturedChat { id: 7, kind: "private".to_string(), title: String::new() },
        from: CapturedUser {
            id: 7,
            username: "ann".to_string(),
            first_name: "Ann".to_string(),
            last_name: "Lee".to_string(),
        },
        text: text.to_string(),
        caption: String::new(),
        entities: Vec::new(),
        caption_entities: Vec::new(),
        forward_from: None,
        forward_from_chat: None,
        reply_to_message: None,
    }
}

#[test]
fn a_private_message_is_appended_with_its_time() {
    let message = captured("a <b>");
    let (entry, at) = private_forwarded_replay_entry(&message, "a <b>");
    assert_eq!(entry.actor_display_name, "Ann Lee");
    assert_eq!(at, 1_700_000_000_000);
    assert_eq!(
        encode_replay_entry(&entry, at),
        "{\"message_id\":5,\"actor_display_name\":\"Ann Lee\",\"actor_username\":\"ann\",\"text\":\"a \\u003cb\\u003e\",\"chatted_at\":1700000000000}"
    );
    assert!(append_private_message(7, &message, "").is_none());
    assert_eq!(append_private_message(7, &message, "a").map(|sent| sent.len()), Some(3));
    let forwarded = CapturedMessage {
        forward_from_chat: Some(CapturedChat {
            id: -1,
            kind: "channel".to_string(),
            title: "News".to_string(),
        }),
        ..captured("x")
    };
    assert_eq!(private_forwarded_replay_entry(&forwarded, "x").0.actor_display_name, "News");
}
