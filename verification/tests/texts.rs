//! Texts, numerals, encodings, templates, environment files and readiness.

use insights_bot::dotenv::{env_assignments, parse_env, parse_env_line, EnvLine};
use insights_bot::lifecycle::{health_report, LifecycleFlags};
use insights_bot::numeral::{format_i32, format_i64, format_u64, parse_i32, parse_i64, parse_u16};
use insights_bot::template::{render_template, validate_template, RenderFault, TemplateFault};
use insights_bot::text::{
    blank, chars_of, comes_before, contains, contains_char, ends_with, find, join, joined2, joined3,
    lines, prefix_to, replace, rfind, same, split, split_text, starts_with, string_of, suffix_from,
    to_ascii_lower, trim, trim_end_of, trim_start_of, words, CharClass,
};
use insights_bot::text_map::TextMap;
use insights_bot::utf16::{count_units, decode, encode, weight};
use insights_bot::utf8::text_from_bytes;

fn owned(parts: &[&str]) -> Vec<String> {
    parts.iter().map(|part| part.to_string()).collect()
}

#[test]
fn characters_are_taken_apart_and_put_together() {
    let chars = chars_of("a群🎉");
    assert_eq!(chars, vec!['a', '群', '🎉']);
    assert_eq!(string_of(&chars, 1, 3), "群🎉");
    assert!(same("群", "群"));
    assert!(!same("群", "裙"));
    assert_eq!(joined2("a", "b"), "ab");
    assert_eq!(joined3("a", "", "c"), "ac");
}

#[test]
fn trimming_takes_only_what_the_class_holds() {
    assert_eq!(trim(" \u{3000}\t x y \n"), "x y");
    assert_eq!(trim_start_of("--a-", CharClass::Exactly('-')), "a-");
    assert_eq!(trim_end_of("https://host//", CharClass::Exactly('/')), "https://host");
    assert_eq!(trim_end_of("a \t\u{3000}", CharClass::Blank), "a \t\u{3000}");
    assert!(blank(" \n\u{2003}"));
    assert!(!blank(" . "));
}

#[test]
fn searching_finds_the_first_and_the_last_place() {
    assert_eq!(find("a群b群", "群"), Some(1));
    assert_eq!(rfind("a群b群", "群"), Some(3));
    assert_eq!(find("abc", "d"), None);
    assert!(contains("abc", "bc"));
    assert!(contains_char("abc", 'c'));
    assert!(starts_with("abc", "ab"));
    assert!(!starts_with("abc", "b"));
    assert!(ends_with("abc", "bc"));
    assert_eq!(suffix_from("a群b", 1), "群b");
    assert_eq!(prefix_to("a群b", 2), "a群");
    assert_eq!(replace("aXbXX", "X", "--"), "a--b----");
}

#[test]
fn what_is_split_is_joined_again() {
    let parts = split("a,,b", ',');
    assert_eq!(parts, owned(&["a", "", "b"]));
    assert_eq!(join(&parts, ","), "a,,b");
    assert_eq!(split_text("a--b--", "--"), owned(&["a", "b", ""]));
    assert_eq!(lines("a\r\nb\n\nc"), owned(&["a", "b", "", "c"]));
    assert_eq!(lines("a\n"), owned(&["a"]));
    assert_eq!(words("  if \t .A\n.B "), owned(&["if", ".A", ".B"]));
    assert_eq!(to_ascii_lower("MixedÉ"), "mixedÉ");
}

#[test]
fn texts_are_ordered_by_their_bytes() {
    assert!(comes_before("-1001", "-2"));
    assert!(comes_before("a", "ab"));
    assert!(!comes_before("b", "ab"));
    assert!(!comes_before("a", "a"));
}

#[test]
fn numbers_are_written_and_read_back() {
    for n in [i64::MIN, -1, 0, 7, 10, i64::MAX] {
        assert_eq!(format_i64(n), n.to_string());
        assert_eq!(parse_i64(&format_i64(n)), Some(n));
    }
    assert_eq!(format_i32(i32::MIN), "-2147483648");
    assert_eq!(format_u64(u64::MAX), "18446744073709551615");
    assert_eq!(parse_i32("2147483648"), None);
    assert_eq!(parse_i32("+5"), Some(5));
    assert_eq!(parse_i64(""), None);
    assert_eq!(parse_i64("-"), None);
    assert_eq!(parse_i64("1_000"), None);
    assert_eq!(parse_u16("65535"), Some(65535));
    assert_eq!(parse_u16("65536"), None);
    assert_eq!(parse_u16("-1"), None);
}

#[test]
fn units_are_counted_and_decoded() {
    assert_eq!(weight('a'), 1);
    assert_eq!(weight('🎉'), 2);
    assert_eq!(count_units("a群🎉"), 4);
    let units = encode("a🎉b");
    assert_eq!(units, vec![0x61, 0xD83C, 0xDF89, 0x62]);
    assert_eq!(decode(&units, 0, 4), "a🎉b");
    assert_eq!(decode(&units, 1, 2), "\u{FFFD}");
    assert_eq!(decode(&units, 2, 4), "\u{FFFD}b");
}

#[test]
fn bytes_are_read_leniently() {
    assert_eq!(text_from_bytes("群🎉".as_bytes()), "群🎉");
    assert_eq!(text_from_bytes(&[0x61, 0xFF, 0xFE, 0x62]), "a\u{FFFD}\u{FFFD}b");
    assert_eq!(text_from_bytes(&[0xE7, 0xBE]), "\u{FFFD}\u{FFFD}");
    assert_eq!(text_from_bytes(&[0xED, 0xA0, 0x80]), "\u{FFFD}\u{FFFD}\u{FFFD}");
}

#[test]
fn a_map_holds_one_value_per_key() {
    let mut scores: TextMap<i64> = TextMap::new();
    scores.insert("b", 2);
    scores.insert("a", 2);
    scores.insert("c", 1);
    scores.insert("b", 5);
    assert_eq!(scores.len(), 3);
    assert_eq!(scores.get("b"), Some(&5));
    assert_eq!(scores.get("d"), None);
    let ranked: Vec<(i64, String)> = scores.by_score();
    assert_eq!(
        ranked,
        vec![(1, "c".to_string()), (2, "a".to_string()), (5, "b".to_string())]
    );
    assert_eq!(scores.remove("a"), Some(2));
    assert_eq!(scores.remove("a"), None);
    assert_eq!(scores.len(), 2);
    assert_eq!(scores.get(&scores.key_at(0)), Some(scores.value_at(0)));
}

#[test]
fn templates_are_validated() {
    assert_eq!(validate_template("x {{ .ChatHistory }} y"), Ok(()));
    assert_eq!(validate_template("{{ if .A }}a{{ else }}b{{ end }}"), Ok(()));
    assert_eq!(validate_template("{{ .A"), Err(TemplateFault::UnclosedAction));
    assert_eq!(validate_template("{{  }}"), Err(TemplateFault::EmptyAction));
    assert_eq!(validate_template("{{ end }}"), Err(TemplateFault::UnexpectedEnd));
    assert_eq!(validate_template("{{ else }}"), Err(TemplateFault::UnexpectedElse));
    assert_eq!(validate_template("a }} b"), Err(TemplateFault::UnexpectedClose));
    assert_eq!(validate_template("{{ range .A }}x"), Err(TemplateFault::UnclosedControl));
}

#[test]
fn templates_are_rendered_once() {
    let values = vec![("ChatHistory", "{{ .Language }}"), ("Language", "en")];
    assert_eq!(
        render_template("[{{ .ChatHistory }}|{{.Language}}]", &values),
        Ok("[{{ .Language }}|en]".to_string())
    );
    assert_eq!(render_template("a{{/* note */}}b", &values), Ok("ab".to_string()));
    assert_eq!(
        render_template("{{ printf \"<%s> 100%% %v\" .Language .Language }}", &values),
        Ok("<en> 100% en".to_string())
    );
    assert_eq!(render_template("{{ .Missing }}", &values), Err(RenderFault::UnsupportedAction));
    assert_eq!(render_template("{{ .Language", &values), Err(RenderFault::UnclosedAction));
}

#[test]
fn lines_of_an_environment_file_are_read() {
    assert_eq!(parse_env_line("  # note"), EnvLine::Nothing);
    assert_eq!(parse_env_line("   "), EnvLine::Nothing);
    assert_eq!(parse_env_line("no sign"), EnvLine::NoEquals);
    assert_eq!(parse_env_line(" = value"), EnvLine::EmptyKey);
    assert_eq!(
        parse_env_line(" KEY = a \"b\" = c # d "),
        EnvLine::Pair { key: "KEY".to_string(), value: "a \"b\" = c # d".to_string() }
    );
    assert_eq!(parse_env("A=1\n\nB").len(), 3);
}

#[test]
fn the_lenient_loader_keeps_existing_process_env_precedence() {
    let content = "INSIGHTS_TEST_LENIENT_PRESET=from-file\nINSIGHTS_TEST_LENIENT_FRESH=fresh value with spaces\n";
    let assigned = env_assignments(content, owned(&["INSIGHTS_TEST_LENIENT_PRESET"]));
    assert!(
        !assigned.iter().any(|pair| pair.0 == "INSIGHTS_TEST_LENIENT_PRESET"),
        "a variable already present in the process environment wins"
    );
    assert_eq!(
        assigned
            .iter()
            .find(|pair| pair.0 == "INSIGHTS_TEST_LENIENT_FRESH")
            .map(|pair| pair.1.as_str()),
        Some("fresh value with spaces"),
        "variables absent from the process environment come from the file"
    );
}

#[test]
fn a_file_sets_a_variable_once() {
    let assigned = env_assignments("A=1\nB=2\nA=3\n=4\nC", Vec::new());
    assert_eq!(
        assigned,
        vec![("A".to_string(), "1".to_string()), ("B".to_string(), "2".to_string())]
    );
}

#[test]
fn readiness_needs_every_part() {
    let mut flags = LifecycleFlags::new();
    let report = health_report(&flags);
    assert_eq!((report.code, report.status), (503, "down"));
    flags.mark_bot_authorized();
    flags.mark_poller_started();
    let report = health_report(&flags);
    assert_eq!((report.code, report.status), (503, "down"));
    assert_eq!(
        (report.telegram_bot, report.auto_recap_timecapsule_digger, report.auto_recap),
        ("up", "up", "down")
    );
    flags.mark_auto_recap_started();
    flags.mark_bot_authorized();
    let report = health_report(&flags);
    assert_eq!((report.code, report.status), (200, "up"));
    assert!(flags.bot_authorized() && flags.poller_started() && flags.auto_recap_started());
}
