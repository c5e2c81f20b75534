//! The state that recaps keep, in memory and as commands.

use insights_bot::redis::commands::{self, PopStep, RateStep, RedisCommand};
use insights_bot::redis::keys::{
    self, callback_action_hash, callback_payload_key, callback_route_hash, callback_wire_value,
    decode_callback_wire, hex_of_digest, parse_delete_later_member, resolve_callback_route,
    StartContextDomain,
};
use insights_bot::redis::recap_state::{
    dispatch, is_pushable_delete_later, parse_delete_later_members, CallbackResolution,
    CallbackRoute, CallbackRouteRegistry, Clock, InMemoryRecapStateStore, ManualRecapRateResult,
    RecapStateError, SystemClock, TestClock,
};

const NOW: i64 = 1_700_000_000_000;

#[test]
fn hashes_are_prefixes_of_the_digest() {
    assert_eq!(hex_of_digest(&vec![0xAB, 0x01, 0xFF], 5), "ab01f");
    assert_eq!(callback_route_hash("abc"), "ba7816bf8f01cfea");
    assert_eq!(callback_action_hash("abc"), "ba7816bf8f01cfea");
    assert_eq!(callback_wire_value("abc", "abc"), "ba7816bf8f01cfea;ba7816bf8f01cfea");
    assert_eq!(callback_payload_key("abc", "x"), "callback_query/button_data/abc/x");
    assert_eq!(
        StartContextDomain::PrivateSubscription.token(-1001).len(),
        keys::START_CONTEXT_TOKEN_HEX_LEN
    );
    assert_ne!(
        StartContextDomain::PrivateSubscription.token(-1001),
        StartContextDomain::SubscribeRecap.token(-1001)
    );
    assert_ne!(
        StartContextDomain::PrivateSubscription.key("t"),
        StartContextDomain::SubscribeRecap.key("t")
    );
}

#[test]
fn a_wire_value_is_decoded_into_its_two_hashes() {
    let wire = callback_wire_value(keys::ROUTE_SELECT_HOUR, "{}");
    let (route_hash, action_hash) = decode_callback_wire(&wire).expect("two hashes");
    assert_eq!(route_hash, callback_route_hash(keys::ROUTE_SELECT_HOUR));
    assert_eq!(action_hash, callback_action_hash("{}"));
    assert_eq!(resolve_callback_route(route_hash), Some(keys::ROUTE_SELECT_HOUR));
    assert_eq!(resolve_callback_route("0000000000000000"), None);
    assert_eq!(decode_callback_wire("nothing"), None);
}

#[test]
fn members_to_delete_are_read_back() {
    let member = keys::delete_later_member(-1_001_234, 56);
    assert_eq!(parse_delete_later_member(&member), Some((-1_001_234, 56)));
    assert_eq!(parse_delete_later_member("nothing"), None);
    assert_eq!(
        parse_delete_later_members(&vec![member, "broken".to_string()]),
        vec![(-1_001_234, 56)]
    );
    assert!(is_pushable_delete_later(1, 2, 3));
    assert!(!is_pushable_delete_later(0, 2, 3));
}

#[test]
fn a_stored_button_reads_back_until_it_expires() {
    let mut store = InMemoryRecapStateStore::new();
    let wire = store.put_callback(NOW, keys::ROUTE_CONFIGURE_PIN, "{\"status\":true}");
    assert_eq!(wire, callback_wire_value(keys::ROUTE_CONFIGURE_PIN, "{\"status\":true}"));
    let action = callback_action_hash("{\"status\":true}");
    assert_eq!(
        store.get_callback(NOW + 1, keys::ROUTE_CONFIGURE_PIN, &action),
        Some("{\"status\":true}".to_string())
    );
    assert_eq!(store.get_callback(NOW + 1, keys::ROUTE_CONFIGURE_TOGGLE, &action), None);
    assert_eq!(
        store.get_callback(NOW + 86_400_000, keys::ROUTE_CONFIGURE_PIN, &action),
        None
    );
    assert!(store.keys(NOW + 86_400_001).is_empty());
}

#[test]
fn start_contexts_read_back_in_their_domain() {
    let mut store = InMemoryRecapStateStore::new();
    store.put_start_context(NOW, StartContextDomain::SubscribeRecap, "tok", "{}");
    assert_eq!(
        store.get_start_context(NOW, StartContextDomain::SubscribeRecap, "tok"),
        Some("{}".to_string())
    );
    assert_eq!(
        store.get_start_context(NOW, StartContextDomain::PrivateSubscription, "tok"),
        None
    );
}

#[test]
fn a_session_collects_what_is_forwarded() {
    let mut store = InMemoryRecapStateStore::new();
    assert!(!store.forwarded_active(NOW, 7));
    store.start_forwarded(NOW, 7);
    assert!(store.forwarded_active(NOW, 7));
    assert!(!store.forwarded_active(NOW, 8));
    store.append_forwarded(NOW, 7, 30, "c");
    store.append_forwarded(NOW, 7, 10, "a");
    store.append_forwarded(NOW, 7, 20, "b");
    assert_eq!(
        store.forwarded_batch(NOW, 7),
        vec!["a".to_string(), "b".to_string(), "c".to_string()]
    );
    assert!(store.cancel_forwarded(NOW, 7));
    assert!(!store.cancel_forwarded(NOW, 7));
    assert!(store.forwarded_batch(NOW, 7).is_empty());
    store.start_forwarded(NOW, 7);
    assert!(!store.forwarded_active(NOW + 7_200_000, 7));
}

#[test]
fn the_session_of_a_restart_is_empty() {
    let mut store = InMemoryRecapStateStore::new();
    store.start_forwarded(NOW, 7);
    store.append_forwarded(NOW, 7, 1, "a");
    store.start_forwarded(NOW + 1, 7);
    assert!(store.forwarded_active(NOW + 1, 7));
    assert!(store.forwarded_batch(NOW + 1, 7).is_empty());
}

#[test]
fn messages_to_delete_are_drained_once() {
    let mut store = InMemoryRecapStateStore::new();
    store.push_delete_later(NOW, 7, -100, 1);
    store.push_delete_later(NOW, 7, -100, 2);
    store.push_raw_delete_later_member(NOW, 7, "broken");
    let mut drained = store.drain_delete_later(NOW, 7);
    drained.sort();
    assert_eq!(drained, vec![(-100, 1), (-100, 2)]);
    assert!(store.drain_delete_later(NOW, 7).is_empty());
}

#[test]
fn the_manual_rate_counts_within_its_window() {
    let mut store = InMemoryRecapStateStore::new();
    let first = store.check_manual_recap_rate(NOW, -100, 1, 60).expect("counted");
    assert!(first.allowed);
    let second = store.check_manual_recap_rate(NOW + 1_000, -100, 1, 60).expect("counted");
    assert!(!second.allowed);
    assert_eq!(second.ttl_seconds, 59);
    let other = store.check_manual_recap_rate(NOW + 1_000, -200, 1, 60).expect("counted");
    assert!(other.allowed);
    let later = store.check_manual_recap_rate(NOW + 60_000, -100, 1, 60).expect("counted");
    assert!(later.allowed);
    store.set_raw_string(NOW, &keys::manual_recap_rate_key(-300), "many", 60);
    assert_eq!(
        store.check_manual_recap_rate(NOW, -300, 1, 60),
        Err(RecapStateError::CounterType)
    );
}

#[test]
fn the_queue_gives_out_what_is_due() {
    let mut store = InMemoryRecapStateStore::new();
    assert_eq!(store.auto_recap_zadd(NOW, "late", NOW + 50), Ok(()));
    assert_eq!(store.auto_recap_zadd(NOW, "early", NOW + 10), Ok(()));
    assert_eq!(store.auto_recap_zpop_due(NOW, NOW), None);
    assert_eq!(store.auto_recap_zpop_due(NOW, NOW + 60), Some("early".to_string()));
    store.auto_recap_zrem(NOW, "late");
    assert_eq!(store.auto_recap_zpop_due(NOW, NOW + 60), None);
    store.set_raw_string(NOW, keys::AUTO_RECAP_QUEUE_KEY, "x", 60);
    assert_eq!(
        store.auto_recap_zadd(NOW, "m", 1),
        Err(RecapStateError::QueueType)
    );
}

#[test]
fn raw_values_are_seen_by_their_kind() {
    let mut store = InMemoryRecapStateStore::new();
    store.set_raw_string(NOW, "k", "v", 5);
    assert_eq!(store.raw_string(NOW, "k"), Some("v".to_string()));
    assert_eq!(store.raw_zset(NOW, "k"), None);
    assert_eq!(store.raw_list(NOW, "k"), None);
    assert_eq!(store.ttl_ms(NOW + 1_000, "k"), Some(4_000));
    store.expire_key_now(NOW, "k");
    assert_eq!(store.raw_string(NOW, "k"), None);
    store.start_forwarded(NOW, 9);
    store.append_forwarded(NOW, 9, 3, "m");
    assert_eq!(
        store.raw_zset(NOW, &keys::forwarded_batch_key(9)),
        Some(vec![(3, "m".to_string())])
    );
    store.push_delete_later(NOW, 9, 1, 2);
    assert_eq!(
        store.raw_list(NOW, &keys::delete_later_key(9)),
        Some(vec![keys::delete_later_member(1, 2)])
    );
    store.forget_expired(NOW + 100_000_000);
    assert!(store.keys(NOW).is_empty());
}

#[test]
fn routes_are_bound_before_they_are_dispatched() {
    let mut registry = CallbackRouteRegistry::new();
    let wire = callback_wire_value(keys::ROUTE_SELECT_HOUR, "{}");
    assert_eq!(
        registry.route(&wire),
        CallbackRoute::MissingHandler { route: keys::ROUTE_SELECT_HOUR }
    );
    assert_eq!(registry.bind(keys::ROUTE_SELECT_HOUR), Ok(keys::ROUTE_SELECT_HOUR));
    assert!(registry.is_bound(keys::ROUTE_SELECT_HOUR));
    assert_eq!(registry.bind("unknown"), Err(RecapStateError::UnregisteredRoute));
    assert_eq!(registry.route("zzz"), CallbackRoute::Malformed);
    assert_eq!(
        registry.route(&callback_wire_value("unknown", "{}")),
        CallbackRoute::UnknownRoute
    );
    let mut store = InMemoryRecapStateStore::new();
    store.put_callback(NOW, keys::ROUTE_SELECT_HOUR, "{}");
    assert_eq!(
        registry.resolve(&mut store, NOW, &wire),
        CallbackResolution::Dispatch {
            route: keys::ROUTE_SELECT_HOUR,
            action_hash: callback_action_hash("{}"),
            payload_json: "{}".to_string(),
        }
    );
    assert_eq!(dispatch(CallbackRoute::Malformed, None), CallbackResolution::Malformed);
    assert!(CallbackRouteRegistry::with_all_registered_routes()
        .is_bound(keys::ROUTE_SMR_SUMMARIZATION_FEEDBACK_REACT));
    assert!(!RecapStateError::UnregisteredRoute.message().is_empty());
}

#[test]
fn clocks_tell_milliseconds() {
    let mut clock = TestClock::new(5);
    clock.advance_ms(10);
    assert_eq!(clock.now_ms, 15);
    assert_eq!(clock.now_ms(), 15);
    assert!(SystemClock.now_ms() > 1_600_000_000_000);
}

#[test]
fn commands_are_spelled_as_words() {
    let (command, wire) = commands::put_callback("abc", "{}");
    assert_eq!(wire, callback_wire_value("abc", "{}"));
    assert_eq!(
        command.words(),
        vec![
            "SET".to_string(),
            callback_payload_key("abc", &callback_action_hash("{}")),
            "{}".to_string(),
            "EX".to_string(),
            "86400".to_string(),
        ]
    );
    assert_eq!(
        commands::auto_recap_zadd("m", -5).words(),
        vec![
            "ZADD".to_string(),
            keys::AUTO_RECAP_QUEUE_KEY.to_string(),
            "-5".to_string(),
            "m".to_string(),
        ]
    );
    assert_eq!(commands::forwarded_batch(7).words()[0], "ZREVRANGE");
    assert_eq!(commands::drain_delete_later(7).words()[0], "LRANGE");
    assert_eq!(commands::get_callback("abc", "h").words()[0], "GET");
}

#[test]
fn a_rate_is_counted_step_by_step() {
    let get = commands::manual_recap_rate_step(-100, 1, 60, None, None);
    assert!(matches!(get, RateStep::Send(RedisCommand::Get { .. })));
    let counted = commands::manual_recap_rate_step(-100, 1, 60, Some(None), Some(-2));
    match counted {
        RateStep::Count(RedisCommand::Store { value, ttl_seconds, .. }, result) => {
            assert_eq!((value.as_str(), ttl_seconds), ("1", 60));
            assert!(result.allowed);
        }
        RateStep::Send(_) | RateStep::Report(_) | RateStep::CounterType | RateStep::Count(..) => {
            panic!("the first use is counted")
        }
    }
    let asked =
        commands::manual_recap_rate_step(-100, 1, 60, Some(Some("1".to_string())), None);
    assert!(matches!(asked, RateStep::Send(RedisCommand::Ttl { .. })));
    let limited =
        commands::manual_recap_rate_step(-100, 1, 60, Some(Some("1".to_string())), Some(30));
    assert!(matches!(
        limited,
        RateStep::Report(ManualRecapRateResult { ttl_seconds: 30, allowed: false, .. })
    ));
    let broken =
        commands::manual_recap_rate_step(-100, 1, 60, Some(Some("x".to_string())), Some(30));
    assert!(matches!(broken, RateStep::CounterType));
    assert_eq!(commands::remaining_ttl(-2), None);
    assert_eq!(commands::remaining_ttl(9), Some(9));
}

#[test]
fn a_pop_is_restored_until_it_is_lost() {
    assert!(matches!(
        commands::auto_recap_pop_step(10, None, None, 0),
        PopStep::Send(RedisCommand::ZrangeByScore { .. })
    ));
    assert!(matches!(commands::auto_recap_pop_step(10, Some(0), None, 0), PopStep::NothingDue));
    assert!(matches!(
        commands::auto_recap_pop_step(10, Some(1), None, 0),
        PopStep::Send(RedisCommand::ZpopMin { .. })
    ));
    assert!(matches!(
        commands::auto_recap_pop_step(10, Some(1), Some(Some(("m".to_string(), 9))), 0),
        PopStep::Due(member) if member == "m"
    ));
    assert!(matches!(
        commands::auto_recap_pop_step(10, Some(1), Some(Some(("m".to_string(), 11))), 0),
        PopStep::Restore(RedisCommand::Zadd { score: 11, .. })
    ));
    assert!(matches!(
        commands::auto_recap_pop_step(10, Some(1), Some(Some(("m".to_string(), 11))), 100),
        PopStep::Lost
    ));
    assert!(matches!(commands::auto_recap_pop_step(10, Some(1), Some(None), 0), PopStep::NothingDue));
}

#[test]
fn sessions_are_kept_by_scripts() {
    assert!(commands::is_session_open(&Some("1".to_string())));
    assert!(!commands::is_session_open(&None));
    assert!(commands::start_forwarded(7, false).len() >= 1);
    assert_eq!(commands::append_forwarded(7, 5, "m").len(), 3);
    assert!(commands::cancel_forwarded(7, false).is_empty());
    assert!(!commands::cancel_forwarded(7, true).is_empty());
    assert_eq!(
        commands::replay_order(&vec!["c".to_string(), "b".to_string(), "a".to_string()]),
        vec!["a".to_string(), "b".to_string(), "c".to_string()]
    );
    assert!(commands::push_delete_later(0, 1, 1).is_empty());
    assert_eq!(commands::push_delete_later(7, 1, 1).len(), 2);
    assert!(commands::clear_delete_later(7, &Vec::new()).is_none());
    let drain = commands::finish_drain(
        &vec![keys::delete_later_member(-100, 4), "broken".to_string()],
        Some("refused".to_string()),
    );
    assert_eq!(drain.messages, vec![(-100, 4)]);
    assert_eq!(drain.delete_error.as_deref(), Some("refused"));
}
