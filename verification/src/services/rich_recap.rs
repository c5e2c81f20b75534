//! Rich recap formatting.
//!
//! This module owns deterministic text transformations only: delivery, storage
//! and model calls are elsewhere.

use std::collections::HashMap;

use vstd::prelude::*;

pub use crate::services::rich_split::{
    compose_rich_recap_messages, fallback_condensed_summary, split_plain_text,
};
pub use crate::services::traces::{
    CondensedExecutionTrace, ConditionalModelExecutionTrace, GenerationModelExecutionTrace,
    RecapExecutionTrace,
};

use crate::numeral::{self, format_i64, parse_i64};
use crate::services::patterns::{self, replace_all, replace_first};
use crate::services::traces::{CondensedTrace, GenerationTrace};
use crate::text::{
    self, blank, chars_of, ends_with, join, joined2, joined3, lines, replace, same, split,
    starts_with, string_of, suffix_from, trim, trim_end_of, trim_start_of, CharClass,
};

verus! {

/// Telegram's Rich Message text limit, in UTF-16 code units.
pub const RICH_MESSAGE_UTF16_UNIT_LIMIT: usize = 32_768;

pub const RICH_RECAP_DETAILS_OPEN: &'static str = "<details><summary>詳細總結</summary>\n\n";

pub const RICH_RECAP_DETAILS_CLOSE: &'static str = "\n\n</details>";

/// How long a condensed summary derived from the details may be, in code units.
pub const CONDENSED_SUMMARY_FALLBACK_UNIT_LIMIT: usize = 120;

/// What stands for a model that is not known.
pub const UNAVAILABLE_MODEL: &'static str = "資訊不可用";

pub const UNKNOWN_MODEL: &'static str = "unknown-model";

// ---------------------------------------------------------------------------
// Escaping
// ---------------------------------------------------------------------------

/// The characters that Rich Markdown gives a meaning.
pub open spec fn escapable(c: char) -> bool {
    ||| c == '\\' || c == '*' || c == '_' || c == '{' || c == '}' || c == '[' || c == ']'
    ||| c == '(' || c == ')' || c == '#' || c == '+' || c == '-' || c == '.' || c == '!'
    ||| c == '|' || c == '>' || c == '<' || c == '~' || c == '`'
}

fn is_escapable(c: char) -> (r: bool)
    ensures
        r == escapable(c),
{
    matches!(
        c,
        '\\' | '*' | '_' | '{' | '}' | '[' | ']' | '(' | ')' | '#' | '+' | '-' | '.' | '!' | '|'
            | '>' | '<' | '~' | '`'
    )
}

/// `s` with every line break turned into a space, trimmed.
pub open spec fn one_line(s: Seq<char>) -> Seq<char> {
    text::trimmed(
        text::replaced(
            text::replaced(text::replaced(s, "\r\n"@, " "@), "\r"@, " "@),
            "\n"@,
            " "@,
        ),
    )
}

/// `s[i..]` with a backslash before every escapable character.
pub open spec fn escaped_from(s: Seq<char>, i: int) -> Seq<char>
    decreases s.len() - i,
{
    if i < 0 || i >= s.len() {
        Seq::empty()
    } else if escapable(s[i]) {
        seq!['\\', s[i]] + escaped_from(s, i + 1)
    } else {
        seq![s[i]] + escaped_from(s, i + 1)
    }
}

/// The Rich Markdown that shows `s` literally, on one line.
pub open spec fn escaped(s: Seq<char>) -> Seq<char> {
    escaped_from(one_line(s), 0)
}

/// `s[i..]` without the backslashes that stand before an escapable character.
pub open spec fn unescaped_from(s: Seq<char>, i: int) -> Seq<char>
    decreases s.len() - i,
{
    if i < 0 || i >= s.len() {
        Seq::empty()
    } else if s[i] == '\\' && i + 1 < s.len() && escapable(s[i + 1]) {
        seq![s[i + 1]] + unescaped_from(s, i + 2)
    } else {
        seq![s[i]] + unescaped_from(s, i + 1)
    }
}

pub open spec fn unescaped(s: Seq<char>) -> Seq<char> {
    unescaped_from(s, 0)
}

/// Escape untrusted plain text for application-authored Rich Markdown.
pub fn escape_rich_markdown_text(text: &str) -> (out: String)
    ensures
        out@ == escaped(text@),
{
    proof {
        reveal_strlit("\r\n");
        reveal_strlit("\r");
        reveal_strlit("\n");
    }
    let crlf: String = replace(text, "\r\n", " ");
    let cr: String = replace(crlf.as_str(), "\r", " ");
    let lf: String = replace(cr.as_str(), "\n", " ");
    let line: String = trim(lf.as_str());
    let chars: Vec<char> = chars_of(line.as_str());
    let mut out: String = String::new();
    let mut i: usize = 0;
    while i < chars.len()
        invariant
            i <= chars.len(),
            chars@ == one_line(text@),
            out@ + escaped_from(chars@, i as int) == escaped(text@),
        decreases chars.len() - i,
    {
        let ghost before = out@;
        let c: char = chars[i];
        if is_escapable(c) {
            out.push('\\');
        }
        out.push(c);
        i = i + 1;
        assert(out@ + escaped_from(chars@, i as int) =~= before + escaped_from(chars@, i - 1));
    }
    assert(out@ + escaped_from(chars@, i as int) =~= out@);
    out
}

/// Remove only the escapes introduced by [`escape_rich_markdown_text`].
pub fn unescape_rich_markdown_text(text: &str) -> (out: String)
    ensures
        out@ == unescaped(text@),
{
    let chars: Vec<char> = chars_of(text);
    let mut out: String = String::new();
    let mut i: usize = 0;
    while i < chars.len()
        invariant
            i <= chars.len(),
            chars@ == text@,
            out@ + unescaped_from(text@, i as int) == unescaped(text@),
        decreases chars.len() - i,
    {
        let ghost before = out@;
        let ghost at = i as int;
        if chars[i] == '\\' && i + 1 < chars.len() && is_escapable(chars[i + 1]) {
            out.push(chars[i + 1]);
            i = i + 2;
        } else {
            out.push(chars[i]);
            i = i + 1;
        }
        assert(out@ + unescaped_from(text@, i as int) =~= before + unescaped_from(text@, at));
    }
    assert(out@ + unescaped_from(text@, i as int) =~= out@);
    out
}

proof fn lemma_unescape_at(s: Seq<char>, e: Seq<char>, i: int, at: int)
    requires
        0 <= i <= s.len(),
        0 <= at <= e.len(),
        e.subrange(at, e.len() as int) == escaped_from(s, i),
    ensures
        unescaped_from(e, at) == s.subrange(i, s.len() as int),
    decreases s.len() - i,
{
    let tail = e.subrange(at, e.len() as int);
    if i == s.len() {
        assert(tail.len() == 0);
        assert(s.subrange(i, s.len() as int) =~= Seq::<char>::empty());
    } else {
        let rest = escaped_from(s, i + 1);
        let width: int = if escapable(s[i]) { 2 } else { 1 };
        if escapable(s[i]) {
            assert(tail =~= seq!['\\', s[i]] + rest);
        } else {
            assert(tail =~= seq![s[i]] + rest);
        }
        assert(tail[0] == e[at]);
        assert(e.subrange(at + width, e.len() as int) =~= rest) by {
            assert forall|k: int| 0 <= k < rest.len() implies e[at + width + k]
                == #[trigger] rest[k] by {
                assert(tail[width + k] == rest[k]);
            }
            assert(tail.len() == width + rest.len());
        }
        if escapable(s[i]) {
            assert(tail[1] == e[at + 1]);
            assert(e[at] == '\\' && e[at + 1] == s[i]);
        } else {
            assert(e[at] == s[i]);
        }
        lemma_unescape_at(s, e, i + 1, at + width);
        assert(s.subrange(i, s.len() as int) =~= seq![s[i]] + s.subrange(i + 1, s.len() as int));
    }
}

/// Unescaping an escaped text gives the text back, on one line and trimmed.
pub proof fn lemma_unescape_inverts_escape(s: Seq<char>)
    ensures
        unescaped(escaped(s)) == one_line(s),
{
    let line = one_line(s);
    let e = escaped(s);
    assert(e.subrange(0, e.len() as int) =~= e);
    lemma_unescape_at(line, e, 0, 0);
    assert(line.subrange(0, line.len() as int) =~= line);
}

// ---------------------------------------------------------------------------
// Sanitizing
// ---------------------------------------------------------------------------

/// `s` with `\n` line endings, trimmed.
pub open spec fn normalized(s: Seq<char>) -> Seq<char> {
    text::trimmed(text::replaced(text::replaced(s, "\r\n"@, "\n"@), "\r"@, "\n"@))
}

pub(crate) fn normalize_rich_markdown(markdown: &str) -> (out: String)
    ensures
        out@ == normalized(markdown@),
{
    proof {
        reveal_strlit("\r\n");
        reveal_strlit("\r");
    }
    let crlf: String = replace(markdown, "\r\n", "\n");
    let cr: String = replace(crlf.as_str(), "\r", "\n");
    trim(cr.as_str())
}

/// The code-fence marker that a trimmed line opens with.
pub open spec fn fence_marker(line: Seq<char>) -> Option<Seq<char>> {
    if "```"@.is_prefix_of(line) {
        Some("```"@)
    } else if "~~~"@.is_prefix_of(line) {
        Some("~~~"@)
    } else {
        None
    }
}

/// The model of an optional fence marker.
pub open spec fn viewed_fence(marker: Option<&'static str>) -> Option<Seq<char>> {
    match marker {
        Some(known) => Some(known@),
        None => None,
    }
}

pub(crate) fn rich_markdown_fence_marker(line: &str) -> (r: Option<&'static str>)
    ensures
        viewed_fence(r) == fence_marker(line@),
{
    if starts_with(line, "```") {
        Some("```")
    } else if starts_with(line, "~~~") {
        Some("~~~")
    } else {
        None
    }
}

/// Which recap a line belongs to.
#[derive(Debug, Clone, Copy, PartialEq, Eq, Structural)]
pub enum RecapStyle {
    Detailed,
    Condensed,
}

/// A detailed line: quotes are opened up, `* ` bullets become `- ` bullets with
/// their indentation, and pipes are escaped.
pub open spec fn detailed_line(line: Seq<char>) -> Seq<char> {
    let unquoted = if ">"@.is_prefix_of(text::trimmed(line)) {
        text::trimmed(text::trim_start_class(text::trimmed(line), CharClass::Exactly('>')))
    } else {
        line
    };
    let inner = text::trimmed(unquoted);
    let bulleted = if "* "@.is_prefix_of(inner) {
        let indent = unquoted.len() - text::trim_start_class(unquoted, CharClass::Blank).len();
        unquoted.subrange(0, indent) + "- "@ + text::trimmed(
            inner.subrange(2, inner.len() as int),
        )
    } else {
        unquoted
    };
    text::replaced(bulleted, "|"@, "\\|"@)
}

/// A condensed line: `* ` bullets become `- ` bullets, and the two top heading
/// levels become the third.
pub open spec fn condensed_line(line: Seq<char>) -> Seq<char> {
    let inner = text::trimmed(line);
    let bulleted = if "* "@.is_prefix_of(inner) {
        "- "@ + text::trimmed(inner.subrange(2, inner.len() as int))
    } else {
        line
    };
    let content = text::trimmed(bulleted);
    if "# "@.is_prefix_of(content) || "## "@.is_prefix_of(content) {
        "### "@ + text::trimmed(text::trim_start_class(content, CharClass::Exactly('#')))
    } else {
        bulleted
    }
}

pub open spec fn styled_line(line: Seq<char>, style: RecapStyle) -> Seq<char> {
    match style {
        RecapStyle::Detailed => detailed_line(line),
        RecapStyle::Condensed => condensed_line(line),
    }
}

proof fn lemma_trim_start_is_suffix(s: Seq<char>, class: CharClass)
    ensures
        text::trim_start_class(s, class).len() <= s.len(),
    decreases s.len(),
{
    if s.len() > 0 && text::in_class(class, s[0]) {
        lemma_trim_start_is_suffix(s.drop_first(), class);
    }
}

fn transform_detailed_line(line: &str) -> (out: String)
    ensures
        out@ == detailed_line(line@),
{
    proof {
        reveal_strlit("* ");
        reveal_strlit("|");
    }
    let trimmed: String = trim(line);
    let unquoted: String = if starts_with(trimmed.as_str(), ">") {
        let opened: String = trim_start_of(trimmed.as_str(), CharClass::Exactly('>'));
        trim(opened.as_str())
    } else {
        line.to_owned()
    };
    let inner: String = trim(unquoted.as_str());
    let bulleted: String = if starts_with(inner.as_str(), "* ") {
        let all: Vec<char> = chars_of(unquoted.as_str());
        let dedented: String = trim_start_of(unquoted.as_str(), CharClass::Blank);
        let rest: Vec<char> = chars_of(dedented.as_str());
        proof {
            lemma_trim_start_is_suffix(unquoted@, CharClass::Blank);
        }
        let indentation: String = string_of(&all, 0, all.len() - rest.len());
        let content: String = trim(suffix_from(inner.as_str(), 2).as_str());
        joined3(indentation.as_str(), "- ", content.as_str())
    } else {
        unquoted
    };
    replace(bulleted.as_str(), "|", "\\|")
}

fn transform_condensed_line(line: &str) -> (out: String)
    ensures
        out@ == condensed_line(line@),
{
    proof {
        reveal_strlit("* ");
    }
    let inner: String = trim(line);
    let bulleted: String = if starts_with(inner.as_str(), "* ") {
        let content: String = trim(suffix_from(inner.as_str(), 2).as_str());
        joined2("- ", content.as_str())
    } else {
        line.to_owned()
    };
    let content: String = trim(bulleted.as_str());
    if starts_with(content.as_str(), "# ") || starts_with(content.as_str(), "## ") {
        let title: String = trim(
            trim_start_of(content.as_str(), CharClass::Exactly('#')).as_str(),
        );
        joined2("### ", title.as_str())
    } else {
        bulleted
    }
}

/// The lines from `i` on that are no code fence, each in the recap's style and
/// without trailing blanks.
pub open spec fn styled_lines_from(all: Seq<Seq<char>>, style: RecapStyle, i: int) -> Seq<
    Seq<char>,
>
    decreases all.len() - i,
{
    if i < 0 || i >= all.len() {
        Seq::empty()
    } else if fence_marker(text::trimmed(all[i])) is Some {
        styled_lines_from(all, style, i + 1)
    } else {
        seq![text::trim_end_class(styled_line(all[i], style), CharClass::Blank)]
            + styled_lines_from(all, style, i + 1)
    }
}

/// A text whose links, tags and mentions are gone, line by line in a recap's style.
pub open spec fn styled(s: Seq<char>, style: RecapStyle) -> Seq<char> {
    normalized(
        text::join_spec(styled_lines_from(text::lines_spec(s), style, 0), "\n"@),
    )
}

/// Restyle the lines of a text whose links, tags and mentions are gone.
pub fn style_recap_lines(plain: &str, style: RecapStyle) -> (out: String)
    ensures
        out@ == styled(plain@, style),
{
    let all: Vec<String> = lines(plain);
    let ghost every = text::lines_spec(plain@);
    let mut kept: Vec<String> = Vec::new();
    let mut i: usize = 0;
    while i < all.len()
        invariant
            i <= all.len(),
            every == text::texts(all@),
            text::texts(kept@) + styled_lines_from(every, style, i as int) == styled_lines_from(
                every,
                style,
                0,
            ),
        decreases all.len() - i,
    {
        let ghost before = text::texts(kept@);
        let ghost rest = styled_lines_from(every, style, i as int);
        assert(every[i as int] == all@[i as int]@);
        let line: &str = all[i].as_str();
        if rich_markdown_fence_marker(trim(line).as_str()).is_none() {
            let changed: String = match style {
                RecapStyle::Detailed => transform_detailed_line(line),
                RecapStyle::Condensed => transform_condensed_line(line),
            };
            let cut: String = trim_end_of(changed.as_str(), CharClass::Blank);
            kept.push(cut);
            assert(text::texts(kept@) =~= before.push(cut@));
        }
        i = i + 1;
        assert(text::texts(kept@) + styled_lines_from(every, style, i as int) =~= before + rest);
    }
    assert(text::texts(kept@) =~= styled_lines_from(every, style, 0));
    normalize_rich_markdown(join(&kept, "\n").as_str())
}

/// `s` without model-authored links, HTML, bare addresses and live mentions.
pub open spec fn defused(s: Seq<char>) -> Seq<char> {
    let unlinked = patterns::regex_replaced_all(
        patterns::INLINE_LINK_PATTERN@,
        normalized(s),
        "$1"@,
    );
    let untagged = patterns::regex_replaced_all(patterns::HTML_TAG_PATTERN@, unlinked, ""@);
    let unaddressed = patterns::regex_replaced_all(patterns::BARE_URL_PATTERN@, untagged, ""@);
    patterns::regex_replaced_all(patterns::MENTION_PATTERN@, unaddressed, "${1}${2}"@)
}

fn defuse(markdown: &str) -> (out: String)
    ensures
        out@ == defused(markdown@),
{
    let normal: String = normalize_rich_markdown(markdown);
    let unlinked: String = replace_all(patterns::INLINE_LINK_PATTERN, normal.as_str(), "$1");
    let untagged: String = replace_all(patterns::HTML_TAG_PATTERN, unlinked.as_str(), "");
    let unaddressed: String = replace_all(patterns::BARE_URL_PATTERN, untagged.as_str(), "");
    replace_all(patterns::MENTION_PATTERN, unaddressed.as_str(), "${1}${2}")
}

/// Keep the supported detailed structure while removing model-authored HTML,
/// external links, code-fence delimiters and live mentions.
pub fn sanitize_detailed_recap_markdown(markdown: &str) -> (out: String)
    ensures
        out@ == styled(defused(markdown@), RecapStyle::Detailed),
{
    style_recap_lines(defuse(markdown).as_str(), RecapStyle::Detailed)
}

/// Keep the condensed visual structure while removing model-authored HTML,
/// external links, code-fence delimiters and live mentions.
pub fn sanitize_condensed_recap_markdown(markdown: &str) -> (out: String)
    ensures
        out@ == styled(defused(markdown@), RecapStyle::Condensed),
{
    style_recap_lines(defuse(markdown).as_str(), RecapStyle::Condensed)
}

// ---------------------------------------------------------------------------
// Message references
// ---------------------------------------------------------------------------

/// How many links one reference marker may expand to.
pub const MAX_REFERENCES_PER_MARKER: usize = 5;

/// The recorded message that one entry of a marker names, if it may be linked.
pub open spec fn referenced_message(entry: Seq<char>, virtual_to_real: Map<i64, i64>) -> Option<
    i64,
> {
    match numeral::parsed_within(text::trimmed(entry), i64::MIN as int, i64::MAX as int) {
        Some(id) => if id > 0 && virtual_to_real.contains_key(id as i64)
            && virtual_to_real[id as i64] > 0 {
            Some(virtual_to_real[id as i64])
        } else {
            None
        },
        None => None,
    }
}

/// `chosen`, followed by the messages that the entries from `i` on add to it: each
/// message once, and no more than the limit in all.
pub open spec fn chosen_messages(
    entries: Seq<Seq<char>>,
    virtual_to_real: Map<i64, i64>,
    i: int,
    chosen: Seq<i64>,
) -> Seq<i64>
    decreases entries.len() - i,
{
    if i < 0 || i >= entries.len() || chosen.len() >= MAX_REFERENCES_PER_MARKER {
        chosen
    } else {
        match referenced_message(entries[i], virtual_to_real) {
            Some(message) => if chosen.contains(message) {
                chosen_messages(entries, virtual_to_real, i + 1, chosen)
            } else {
                chosen_messages(entries, virtual_to_real, i + 1, chosen.push(message))
            },
            None => chosen_messages(entries, virtual_to_real, i + 1, chosen),
        }
    }
}

/// A chat identifier as it stands in a message link: without its `-100` prefix.
pub open spec fn link_chat_id(chat_id: int) -> Seq<char> {
    let full = numeral::decimal(chat_id);
    if "-100"@.is_prefix_of(full) {
        full.subrange(4, full.len() as int)
    } else {
        full
    }
}

/// The `n`th link of a marker.
pub open spec fn message_link(n: int, chat_id: int, message_id: int) -> Seq<char> {
    "["@ + numeral::decimal(n) + "](https://t.me/c/"@ + link_chat_id(chat_id) + "/"@ + numeral::decimal(message_id)
        + ")"@
}

/// What a marker with the list of entries `group` is replaced by.
pub open spec fn marker_links(
    group: Seq<char>,
    chat_id: int,
    chat_type: Seq<char>,
    virtual_to_real: Map<i64, i64>,
) -> Seq<char> {
    if chat_type != "supergroup"@ {
        Seq::empty()
    } else {
        let chosen = chosen_messages(
            text::pieces(group, ','),
            virtual_to_real,
            0,
            Seq::empty(),
        );
        text::join_spec(
            Seq::new(chosen.len(), |i: int| message_link(i + 1, chat_id, chosen[i] as int)),
            " "@,
        )
    }
}

/// `s` from `at` on, with the markers found from `i` on replaced by their links.
pub open spec fn resolved_from(
    s: Seq<char>,
    found: Seq<((usize, usize), (usize, usize))>,
    chat_id: int,
    chat_type: Seq<char>,
    virtual_to_real: Map<i64, i64>,
    i: int,
    at: int,
) -> Seq<char>
    decreases found.len() - i,
{
    if i < 0 || i >= found.len() {
        s.subrange(at, s.len() as int)
    } else {
        s.subrange(at, patterns::position_of(s, found[i].0.0 as int)) + marker_links(
            s.subrange(
                patterns::position_of(s, found[i].1.0 as int),
                patterns::position_of(s, found[i].1.1 as int),
            ),
            chat_id,
            chat_type,
            virtual_to_real,
        ) + resolved_from(
            s,
            found,
            chat_id,
            chat_type,
            virtual_to_real,
            i + 1,
            patterns::position_of(s, found[i].0.1 as int),
        )
    }
}

fn format_chat_id(chat_id: i64) -> (out: String)
    ensures
        out@ == link_chat_id(chat_id as int),
{
    proof {
        reveal_strlit("-100");
    }
    let full: String = format_i64(chat_id);
    if starts_with(full.as_str(), "-100") {
        suffix_from(full.as_str(), 4)
    } else {
        full
    }
}

fn reference_link(n: usize, chat_id: i64, message_id: i64) -> (out: String)
    requires
        n <= MAX_REFERENCES_PER_MARKER,
    ensures
        out@ == message_link(n as int, chat_id as int, message_id as int),
{
    let mut out: String = "[".to_owned();
    out.append(format_i64(n as i64).as_str());
    out.append("](https://t.me/c/");
    out.append(format_chat_id(chat_id).as_str());
    out.append("/");
    out.append(format_i64(message_id).as_str());
    out.append(")");
    out
}

fn listed(ids: &Vec<i64>, id: i64) -> (r: bool)
    ensures
        r == ids@.contains(id),
{
    let mut i: usize = 0;
    while i < ids.len()
        invariant
            i <= ids.len(),
            forall|k: int| 0 <= k < i ==> ids@[k] != id,
        decreases ids.len() - i,
    {
        if ids[i] == id {
            assert(ids@[i as int] == id);
            return true;
        }
        i = i + 1;
    }
    false
}

/// The links that a marker with the list of entries `group` is replaced by.
fn marker_replacement(
    group: &str,
    chat_id: i64,
    chat_type: &str,
    virtual_to_real: &HashMap<i64, i64>,
) -> (out: String)
    ensures
        out@ == marker_links(group@, chat_id as int, chat_type@, virtual_to_real@),
{
    broadcast use vstd::std_specs::hash::group_hash_axioms;

    if !same(chat_type, "supergroup") {
        return String::new();
    }
    let entries: Vec<String> = split(group, ',');
    let ghost every = text::pieces(group@, ',');
    let ghost all = chosen_messages(every, virtual_to_real@, 0, Seq::empty());
    let mut chosen: Vec<i64> = Vec::new();
    let mut links: Vec<String> = Vec::new();
    let mut i: usize = 0;
    while i < entries.len() && chosen.len() < MAX_REFERENCES_PER_MARKER
        invariant
            i <= entries.len(),
            every == text::texts(entries@),
            chosen.len() == links.len(),
            chosen.len() <= MAX_REFERENCES_PER_MARKER,
            chosen_messages(every, virtual_to_real@, i as int, chosen@) == all,
            forall|k: int|
                0 <= k < links.len() ==> (#[trigger] links@[k])@ == message_link(
                    k + 1,
                    chat_id as int,
                    chosen@[k] as int,
                ),
        decreases entries.len() - i,
    {
        assert(every[i as int] == entries@[i as int]@);
        let entry: String = trim(entries[i].as_str());
        i = i + 1;
        let id: i64 = match parse_i64(entry.as_str()) {
            Some(id) => id,
            None => {
                continue ;
            },
        };
        if id <= 0 {
            continue ;
        }
        let message: i64 = match virtual_to_real.get(&id) {
            Some(message) => *message,
            None => {
                continue ;
            },
        };
        if message <= 0 || listed(&chosen, message) {
            continue ;
        }
        let ghost before = chosen@;
        chosen.push(message);
        links.push(reference_link(chosen.len(), chat_id, message));
        assert forall|k: int| 0 <= k < links.len() implies (#[trigger] links@[k])@ == message_link(
            k + 1,
            chat_id as int,
            chosen@[k] as int,
        ) by {
            if k < before.len() {
                assert(chosen@[k] == before[k]);
            }
        }
    }
    assert(chosen@ == all);
    assert(text::texts(links@) =~= Seq::new(
        all.len(),
        |k: int| message_link(k + 1, chat_id as int, all[k] as int),
    ));
    join(&links, " ")
}

/// Replace the markers found at byte ranges `found` by their links.
pub fn resolve_found_references(
    markdown: &str,
    found: &Vec<((usize, usize), (usize, usize))>,
    chat_id: i64,
    chat_type: &str,
    virtual_to_real: &HashMap<i64, i64>,
) -> (out: String)
    requires
        patterns::ordered_captures(found@),
    ensures
        out@ == resolved_from(
            markdown@,
            found@,
            chat_id as int,
            chat_type@,
            virtual_to_real@,
            0,
            0,
        ),
{
    let chars: Vec<char> = chars_of(markdown);
    let ghost whole = resolved_from(
        markdown@,
        found@,
        chat_id as int,
        chat_type@,
        virtual_to_real@,
        0,
        0,
    );
    let mut out: String = String::new();
    let mut at: usize = 0;
    let mut i: usize = 0;
    while i < found.len()
        invariant
            i <= found.len(),
            chars@ == markdown@,
            at <= chars.len(),
            patterns::ordered_captures(found@),
            i == 0 ==> at == 0,
            i > 0 ==> at == patterns::position_of(markdown@, found@[i - 1].0.1 as int),
            out@ + resolved_from(
                markdown@,
                found@,
                chat_id as int,
                chat_type@,
                virtual_to_real@,
                i as int,
                at as int,
            ) == whole,
        decreases found.len() - i,
    {
        let ghost before = out@;
        let ghost rest = resolved_from(
            markdown@,
            found@,
            chat_id as int,
            chat_type@,
            virtual_to_real@,
            i as int,
            at as int,
        );
        let ghost here = found@[i as int];
        proof {
            if i > 0 {
                let ghost previous = found@[i - 1];
                patterns::lemma_position_monotone(
                    markdown@,
                    0,
                    previous.0.1 as int,
                    here.0.0 as int,
                );
            }
            patterns::lemma_position_monotone(markdown@, 0, 0, here.0.0 as int);
            patterns::lemma_position_monotone(markdown@, 0, here.1.0 as int, here.1.1 as int);
        }
        let start: usize = patterns::position(&chars, found[i].0.0);
        let end: usize = patterns::position(&chars, found[i].0.1);
        let group_start: usize = patterns::position(&chars, found[i].1.0);
        let group_end: usize = patterns::position(&chars, found[i].1.1);
        let group: String = string_of(&chars, group_start, group_end);
        out.append(string_of(&chars, at, start).as_str());
        out.append(
            marker_replacement(group.as_str(), chat_id, chat_type, virtual_to_real).as_str(),
        );
        at = end;
        i = i + 1;
        assert(out@ + resolved_from(
            markdown@,
            found@,
            chat_id as int,
            chat_type@,
            virtual_to_real@,
            i as int,
            at as int,
        ) =~= before + rest);
    }
    out.append(string_of(&chars, at, chars.len()).as_str());
    assert(out@ =~= whole);
    out
}

/// Replace controlled message references with at most five unique, whitelisted
/// supergroup links each.
pub fn resolve_rich_recap_references(
    markdown: &str,
    chat_id: i64,
    chat_type: &str,
    virtual_to_real: &HashMap<i64, i64>,
) -> (out: String)
    ensures
        out@ == resolved_from(
            markdown@,
            patterns::regex_captures(patterns::REFERENCE_PATTERN@, markdown@),
            chat_id as int,
            chat_type@,
            virtual_to_real@,
            0,
            0,
        ),
{
    let found: Vec<((usize, usize), (usize, usize))> = patterns::find_references(markdown);
    resolve_found_references(markdown, &found, chat_id, chat_type, virtual_to_real)
}

/// A marker links at most five messages, no message twice, and only messages
/// with a positive identifier that the recap's own numbering maps to.
pub proof fn lemma_marker_is_whitelisted(
    entries: Seq<Seq<char>>,
    virtual_to_real: Map<i64, i64>,
)
    ensures
        ({
            let chosen = chosen_messages(entries, virtual_to_real, 0, Seq::empty());
            &&& chosen.len() <= MAX_REFERENCES_PER_MARKER
            &&& chosen.no_duplicates()
            &&& forall|k: int|
                0 <= k < chosen.len() ==> #[trigger] chosen[k] > 0
                    && virtual_to_real.values().contains(chosen[k])
        }),
{
    lemma_chosen_messages(entries, virtual_to_real, 0, Seq::empty());
}

proof fn lemma_chosen_messages(
    entries: Seq<Seq<char>>,
    virtual_to_real: Map<i64, i64>,
    i: int,
    chosen: Seq<i64>,
)
    requires
        0 <= i,
        chosen.len() <= MAX_REFERENCES_PER_MARKER,
        chosen.no_duplicates(),
        forall|k: int|
            0 <= k < chosen.len() ==> #[trigger] chosen[k] > 0 && virtual_to_real.values().contains(
                chosen[k],
            ),
    ensures
        ({
            let all = chosen_messages(entries, virtual_to_real, i, chosen);
            &&& all.len() <= MAX_REFERENCES_PER_MARKER
            &&& all.no_duplicates()
            &&& forall|k: int|
                0 <= k < all.len() ==> #[trigger] all[k] > 0 && virtual_to_real.values().contains(
                    all[k],
                )
        }),
    decreases entries.len() - i,
{
    if i < entries.len() && chosen.len() < MAX_REFERENCES_PER_MARKER {
        match referenced_message(entries[i], virtual_to_real) {
            Some(message) => {
                if !chosen.contains(message) {
                    let more = chosen.push(message);
                    assert forall|k: int| 0 <= k < more.len() implies #[trigger] more[k] > 0
                        && virtual_to_real.values().contains(more[k]) by {
                        if k < chosen.len() {
                            assert(more[k] == chosen[k]);
                        } else {
                            let id = numeral::parsed_within(
                                text::trimmed(entries[i]),
                                i64::MIN as int,
                                i64::MAX as int,
                            )->0;
                            assert(virtual_to_real.contains_key(id as i64));
                        }
                    }
                    lemma_chosen_messages(entries, virtual_to_real, i + 1, more);
                } else {
                    lemma_chosen_messages(entries, virtual_to_real, i + 1, chosen);
                }
            },
            None => {
                lemma_chosen_messages(entries, virtual_to_real, i + 1, chosen);
            },
        }
    }
}

// ---------------------------------------------------------------------------
// Model provenance
// ---------------------------------------------------------------------------

/// The first of two names that is not blank.
pub open spec fn picked_model(first: Seq<char>, second: Seq<char>) -> Seq<char> {
    if !text::is_blank(first) {
        first
    } else if !text::is_blank(second) {
        second
    } else {
        UNKNOWN_MODEL@
    }
}

/// `models`, with the trimmed candidate added unless it says nothing new.
pub open spec fn with_model(models: Seq<Seq<char>>, candidate: Seq<char>) -> Seq<Seq<char>> {
    let name = text::trimmed(candidate);
    if name.len() == 0 || name == UNKNOWN_MODEL@ || models.contains(name) {
        models
    } else {
        models.push(name)
    }
}

/// The models that a generation used, as they are shown.
pub open spec fn generation_models(trace: GenerationTrace) -> Seq<char> {
    let primary = with_model(Seq::empty(), trace.primary_used_model);
    let used = if trace.backup_used && trace.backup_succeeded {
        with_model(primary, picked_model(trace.backup_used_model, trace.backup_model))
    } else {
        primary
    };
    if used.len() > 0 {
        text::join_spec(used, "、"@)
    } else if trace.primary_failed {
        UNAVAILABLE_MODEL@
    } else {
        picked_model(trace.primary_used_model, trace.primary_model)
    }
}

/// A condensed generation as it counts once the check model repaired its output:
/// a backup whose output was repaired succeeded after all.
pub open spec fn repaired_generation(trace: CondensedTrace) -> GenerationTrace {
    if trace.check.succeeded && trace.generation.backup_used && !text::is_blank(
        trace.generation.backup_used_model,
    ) {
        GenerationTrace { backup_succeeded: true, ..trace.generation }
    } else {
        trace.generation
    }
}

pub open spec fn condensed_models(trace: Option<CondensedTrace>) -> Seq<char> {
    match trace {
        Some(known) => generation_models(repaired_generation(known)),
        None => UNAVAILABLE_MODEL@,
    }
}

pub open spec fn detailed_models(trace: Option<GenerationTrace>) -> Seq<char> {
    match trace {
        Some(known) => generation_models(known),
        None => UNAVAILABLE_MODEL@,
    }
}

pub open spec fn check_models(trace: Option<CondensedTrace>) -> Seq<char> {
    match trace {
        Some(known) => {
            let configured = text::trimmed(known.check.generation.primary_model);
            if configured.len() == 0 {
                "未設定"@
            } else if known.check.attempted {
                generation_models(known.check.generation)
            } else {
                configured
            }
        },
        None => UNAVAILABLE_MODEL@,
    }
}

/// The five-line footer that says which models made a recap.
pub open spec fn model_info(
    condensed: Option<CondensedTrace>,
    detailed: Option<GenerationTrace>,
) -> Seq<char> {
    text::join_spec(
        seq![
            "> **模型資訊**"@,
            ">"@,
            "> - 濃縮總結："@ + escaped(condensed_models(condensed)),
            "> - 詳細總結："@ + escaped(detailed_models(detailed)),
            "> - Check："@ + escaped(check_models(condensed)),
        ],
        "\n"@,
    )
}

/// The model of an optional condensed trace.
pub open spec fn viewed_condensed(trace: Option<&CondensedExecutionTrace>) -> Option<
    CondensedTrace,
> {
    match trace {
        Some(known) => Some(known@),
        None => None,
    }
}

/// The model of an optional detailed trace.
pub open spec fn viewed_detailed(trace: Option<&RecapExecutionTrace>) -> Option<GenerationTrace> {
    match trace {
        Some(known) => Some(known@),
        None => None,
    }
}

fn pick_model_name(first: &str, second: &str) -> (out: String)
    ensures
        out@ == picked_model(first@, second@),
{
    if !blank(first) {
        first.to_owned()
    } else if !blank(second) {
        second.to_owned()
    } else {
        UNKNOWN_MODEL.to_owned()
    }
}

fn append_unique_model_name(models: &mut Vec<String>, candidate: &str)
    ensures
        text::texts(final(models)@) == with_model(text::texts(old(models)@), candidate@),
{
    let name: String = trim(candidate);
    if name.as_str().is_empty() || same(name.as_str(), UNKNOWN_MODEL) {
        return ;
    }
    let ghost names = text::texts(models@);
    let mut i: usize = 0;
    while i < models.len()
        invariant
            i <= models.len(),
            models@ == old(models)@,
            name@ == text::trimmed(candidate@),
            names == text::texts(models@),
            forall|k: int| 0 <= k < i ==> names[k] != name@,
        decreases models.len() - i,
    {
        assert(names[i as int] == models@[i as int]@);
        if same(models[i].as_str(), name.as_str()) {
            assert(names[i as int] == name@);
            assert(names.contains(name@));
            return ;
        }
        i = i + 1;
    }
    models.push(name);
    assert(text::texts(models@) =~= names.push(name@));
}

fn generation_model_name(trace: &GenerationModelExecutionTrace) -> (out: String)
    ensures
        out@ == generation_models(trace@),
{
    let mut used: Vec<String> = Vec::new();
    assert(text::texts(used@) =~= Seq::<Seq<char>>::empty());
    append_unique_model_name(&mut used, trace.primary_used_model.as_str());
    if trace.backup_used && trace.backup_succeeded {
        let backup: String = pick_model_name(
            trace.backup_used_model.as_str(),
            trace.backup_model.as_str(),
        );
        append_unique_model_name(&mut used, backup.as_str());
    }
    if !used.is_empty() {
        return join(&used, "、");
    }
    if trace.primary_failed {
        return UNAVAILABLE_MODEL.to_owned();
    }
    pick_model_name(trace.primary_used_model.as_str(), trace.primary_model.as_str())
}

fn five(a: &str, b: &str, c: &str, d: &str, e: &str) -> (out: Vec<String>)
    ensures
        text::texts(out@) == seq![a@, b@, c@, d@, e@],
{
    let mut out: Vec<String> = Vec::new();
    out.push(a.to_owned());
    out.push(b.to_owned());
    out.push(c.to_owned());
    out.push(d.to_owned());
    out.push(e.to_owned());
    assert(text::texts(out@) =~= seq![a@, b@, c@, d@, e@]);
    out
}

/// Render the model provenance footer.
pub fn build_rich_recap_model_info(
    condensed_trace: Option<&CondensedExecutionTrace>,
    recap_trace: Option<&RecapExecutionTrace>,
) -> (out: String)
    ensures
        out@ == model_info(viewed_condensed(condensed_trace), viewed_detailed(recap_trace)),
{
    let condensed: String = match condensed_trace {
        Some(trace) => {
            let mut generation: GenerationModelExecutionTrace = trace.generation.clone();
            if trace.check.succeeded && generation.backup_used && !blank(
                generation.backup_used_model.as_str(),
            ) {
                generation.backup_succeeded = true;
            }
            assert(generation@ =~= repaired_generation(trace@));
            generation_model_name(&generation)
        },
        None => UNAVAILABLE_MODEL.to_owned(),
    };
    let detailed: String = match recap_trace {
        Some(trace) => generation_model_name(&trace.generation),
        None => UNAVAILABLE_MODEL.to_owned(),
    };
    let check: String = match condensed_trace {
        Some(trace) => {
            let configured: String = trim(trace.check.generation.primary_model.as_str());
            if configured.as_str().is_empty() {
                "未設定".to_owned()
            } else if trace.check.attempted {
                generation_model_name(&trace.check.generation)
            } else {
                configured
            }
        },
        None => UNAVAILABLE_MODEL.to_owned(),
    };
    let footer: Vec<String> = five(
        "> **模型資訊**",
        ">",
        joined2("> - 濃縮總結：", escape_rich_markdown_text(condensed.as_str()).as_str()).as_str(),
        joined2("> - 詳細總結：", escape_rich_markdown_text(detailed.as_str()).as_str()).as_str(),
        joined2("> - Check：", escape_rich_markdown_text(check.as_str()).as_str()).as_str(),
    );
    join(&footer, "\n")
}

// ---------------------------------------------------------------------------
// The visible summary
// ---------------------------------------------------------------------------

/// The inputs of the always-visible prefix of a recap.
pub struct RichRecapSummaryConfig<'a> {
    pub title: &'a str,
    pub hours: i64,
    pub automatic: bool,
    pub initiator_name: &'a str,
    pub initiator_user_id: i64,
    pub condensed_summary: &'a str,
    pub general_group_notice: bool,
    pub subscription_chat_title: &'a str,
    pub condensed_trace: Option<&'a CondensedExecutionTrace>,
    pub recap_trace: Option<&'a RecapExecutionTrace>,
}

/// The model of a [`RichRecapSummaryConfig`].
#[verifier::ext_equal]
pub struct SummaryInputs {
    pub title: Seq<char>,
    pub hours: i64,
    pub automatic: bool,
    pub initiator_name: Seq<char>,
    pub initiator_user_id: i64,
    pub condensed_summary: Seq<char>,
    pub general_group_notice: bool,
    pub subscription_chat_title: Seq<char>,
    pub condensed_trace: Option<CondensedTrace>,
    pub recap_trace: Option<GenerationTrace>,
}

impl<'a> View for RichRecapSummaryConfig<'a> {
    type V = SummaryInputs;

    open spec fn view(&self) -> SummaryInputs {
        SummaryInputs {
            title: self.title@,
            hours: self.hours,
            automatic: self.automatic,
            initiator_name: self.initiator_name@,
            initiator_user_id: self.initiator_user_id,
            condensed_summary: self.condensed_summary@,
            general_group_notice: self.general_group_notice,
            subscription_chat_title: self.subscription_chat_title@,
            condensed_trace: viewed_condensed(self.condensed_trace),
            recap_trace: viewed_detailed(self.recap_trace),
        }
    }
}

/// The inputs of a prefix that says nothing.
pub open spec fn no_inputs() -> SummaryInputs {
    SummaryInputs {
        title: ""@,
        hours: 0,
        automatic: false,
        initiator_name: ""@,
        initiator_user_id: 0,
        condensed_summary: ""@,
        general_group_notice: false,
        subscription_chat_title: ""@,
        condensed_trace: None,
        recap_trace: None,
    }
}

impl<'a> Default for RichRecapSummaryConfig<'a> {
    fn default() -> (r: Self)
        ensures
            r@ == no_inputs(),
    {
        RichRecapSummaryConfig {
            title: "",
            hours: 0,
            automatic: false,
            initiator_name: "",
            initiator_user_id: 0,
            condensed_summary: "",
            general_group_notice: false,
            subscription_chat_title: "",
            condensed_trace: None,
            recap_trace: None,
        }
    }
}

/// The heading of a recap: its title in brackets, once.
pub open spec fn heading(title: Seq<char>) -> Seq<char> {
    let name = text::trimmed(title);
    if name.len() == 0 {
        "# 聊天回顧"@
    } else if "【"@.is_prefix_of(name) && "】"@.is_suffix_of(name) {
        "# "@ + escaped(name) + "聊天回顧"@
    } else {
        "# 【"@ + escaped(name) + "】聊天回顧"@
    }
}

/// How the initiator is named: a live mention when the identifier is usable.
pub open spec fn user_mention(name: Seq<char>, user_id: int) -> Seq<char> {
    let shown = if text::is_blank(name) {
        "未知用戶"@
    } else {
        text::trimmed(name)
    };
    if user_id <= 0 {
        escaped(shown)
    } else {
        "["@ + escaped(shown) + "](tg://user?id="@ + numeral::decimal(user_id) + ")"@
    }
}

/// The line that says who asked for the recap and for how long.
pub open spec fn metadata(
    hours: int,
    automatic: bool,
    initiator_name: Seq<char>,
    initiator_user_id: int,
) -> Option<Seq<char>> {
    if automatic {
        if hours > 0 {
            Some("_自動產生 **"@ + numeral::decimal(hours) + " 小時**總結_"@)
        } else {
            Some("_自動產生_"@)
        }
    } else if text::is_blank(initiator_name) && initiator_user_id <= 0 {
        None
    } else if hours > 0 {
        Some(
            "_用戶 "@ + user_mention(initiator_name, initiator_user_id) + " 發起 **"@ + numeral::decimal(
                hours,
            ) + " 小時**總結_"@,
        )
    } else {
        Some("_由用戶 "@ + user_mention(initiator_name, initiator_user_id) + " 發起_"@)
    }
}

/// A condensed summary without the label it may start with, unless nothing else
/// would be left.
pub open spec fn displayed_summary(summary: Seq<char>) -> Seq<char> {
    let whole = text::trimmed(summary);
    let unlabelled = text::trimmed(
        patterns::regex_replaced_first(patterns::CONDENSED_LABEL_PATTERN@, whole, ""@),
    );
    if unlabelled.len() == 0 {
        whole
    } else {
        unlabelled
    }
}

/// A one-element list, or none.
pub open spec fn block_if(present: bool, block: Seq<char>) -> Seq<Seq<char>> {
    if present {
        seq![block]
    } else {
        Seq::empty()
    }
}

/// The blocks of the visible prefix, around the sanitized condensed summary.
pub open spec fn summary_blocks(config: SummaryInputs, condensed: Seq<char>) -> Seq<Seq<char>> {
    let line = metadata(
        config.hours as int,
        config.automatic,
        config.initiator_name,
        config.initiator_user_id as int,
    );
    seq![heading(config.title)] + block_if(line is Some, line->0) + block_if(
        !text::is_blank(config.subscription_chat_title),
        "> 📬 這是您訂閱的 **"@ + escaped(config.subscription_chat_title)
            + "** 群組定時聊天回顧。"@,
    ) + seq!["## 濃縮總結"@] + block_if(!text::is_blank(condensed), condensed) + block_if(
        config.general_group_notice,
        "> 💡 一般群組來源暫時不顯示原訊息引用；升級為 supergroup 後即可建立連結。"@,
    ) + seq![
        "---"@,
        model_info(config.condensed_trace, config.recap_trace),
    ]
}

/// The visible prefix of a recap.
pub open spec fn visible_prefix(config: SummaryInputs) -> Seq<char> {
    text::join_spec(
        summary_blocks(
            config,
            styled(defused(displayed_summary(config.condensed_summary)), RecapStyle::Condensed),
        ),
        "\n\n"@,
    )
}

fn rich_recap_heading(title: &str) -> (out: String)
    ensures
        out@ == heading(title@),
{
    let name: String = trim(title);
    if name.as_str().is_empty() {
        return "# 聊天回顧".to_owned();
    }
    let shown: String = escape_rich_markdown_text(name.as_str());
    if starts_with(name.as_str(), "【") && ends_with(name.as_str(), "】") {
        joined3("# ", shown.as_str(), "聊天回顧")
    } else {
        joined3("# 【", shown.as_str(), "】聊天回顧")
    }
}

fn rich_recap_user_mention(name: &str, user_id: i64) -> (out: String)
    ensures
        out@ == user_mention(name@, user_id as int),
{
    let shown: String = if blank(name) {
        "未知用戶".to_owned()
    } else {
        trim(name)
    };
    let safe: String = escape_rich_markdown_text(shown.as_str());
    if user_id <= 0 {
        return safe;
    }
    let mut out: String = "[".to_owned();
    out.append(safe.as_str());
    out.append("](tg://user?id=");
    out.append(format_i64(user_id).as_str());
    out.append(")");
    out
}

fn rich_recap_metadata(
    hours: i64,
    automatic: bool,
    initiator_name: &str,
    initiator_user_id: i64,
) -> (out: Option<String>)
    ensures
        match out {
            Some(line) => metadata(
                hours as int,
                automatic,
                initiator_name@,
                initiator_user_id as int,
            ) == Some(line@),
            None => metadata(
                hours as int,
                automatic,
                initiator_name@,
                initiator_user_id as int,
            ) is None,
        },
{
    if automatic {
        if hours > 0 {
            return Some(joined3("_自動產生 **", format_i64(hours).as_str(), " 小時**總結_"));
        }
        return Some("_自動產生_".to_owned());
    }
    if blank(initiator_name) && initiator_user_id <= 0 {
        return None;
    }
    let initiator: String = rich_recap_user_mention(initiator_name, initiator_user_id);
    if hours > 0 {
        let mut line: String = joined3("_用戶 ", initiator.as_str(), " 發起 **");
        line.append(format_i64(hours).as_str());
        line.append(" 小時**總結_");
        Some(line)
    } else {
        Some(joined3("_由用戶 ", initiator.as_str(), " 發起_"))
    }
}

fn clean_condensed_summary_for_display(summary: &str) -> (out: String)
    ensures
        out@ == displayed_summary(summary@),
{
    let whole: String = trim(summary);
    let unlabelled: String = trim(
        replace_first(patterns::CONDENSED_LABEL_PATTERN, whole.as_str(), "").as_str(),
    );
    if unlabelled.as_str().is_empty() {
        whole
    } else {
        unlabelled
    }
}

/// Lay out the visible prefix around an already sanitized condensed summary.
pub fn lay_out_summary(config: &RichRecapSummaryConfig<'_>, condensed: &str) -> (out: String)
    ensures
        out@ == text::join_spec(summary_blocks(config@, condensed@), "\n\n"@),
{
    let mut blocks: Vec<String> = Vec::new();
    let ghost mut shown: Seq<Seq<char>> = Seq::empty();
    assert(text::texts(blocks@) =~= shown);
    blocks.push(rich_recap_heading(config.title));
    proof {
        shown = shown + seq![heading(config.title@)];
        assert(text::texts(blocks@) =~= shown);
    }
    let ghost line = metadata(
        config.hours as int,
        config.automatic,
        config.initiator_name@,
        config.initiator_user_id as int,
    );
    match rich_recap_metadata(
        config.hours,
        config.automatic,
        config.initiator_name,
        config.initiator_user_id,
    ) {
        Some(found) => {
            blocks.push(found);
        },
        None => {},
    }
    proof {
        shown = shown + block_if(line is Some, line->0);
        assert(text::texts(blocks@) =~= shown);
    }
    if !blank(config.subscription_chat_title) {
        blocks.push(
            joined3(
                "> 📬 這是您訂閱的 **",
                escape_rich_markdown_text(config.subscription_chat_title).as_str(),
                "** 群組定時聊天回顧。",
            ),
        );
    }
    proof {
        shown = shown + block_if(
            !text::is_blank(config.subscription_chat_title@),
            "> 📬 這是您訂閱的 **"@ + escaped(config.subscription_chat_title@)
                + "** 群組定時聊天回顧。"@,
        );
        assert(text::texts(blocks@) =~= shown);
    }
    blocks.push("## 濃縮總結".to_owned());
    proof {
        shown = shown + seq!["## 濃縮總結"@];
        assert(text::texts(blocks@) =~= shown);
    }
    if !blank(condensed) {
        blocks.push(condensed.to_owned());
    }
    proof {
        shown = shown + block_if(!text::is_blank(condensed@), condensed@);
        assert(text::texts(blocks@) =~= shown);
    }
    if config.general_group_notice {
        blocks.push(
            "> 💡 一般群組來源暫時不顯示原訊息引用；升級為 supergroup 後即可建立連結。".to_owned(),
        );
    }
    proof {
        shown = shown + block_if(
            config.general_group_notice,
            "> 💡 一般群組來源暫時不顯示原訊息引用；升級為 supergroup 後即可建立連結。"@,
        );
        assert(text::texts(blocks@) =~= shown);
    }
    blocks.push("---".to_owned());
    blocks.push(build_rich_recap_model_info(config.condensed_trace, config.recap_trace));
    assert(text::texts(blocks@) =~= summary_blocks(config@, condensed@));
    join(&blocks, "\n\n")
}

/// Build the always-visible Rich Markdown prefix that every recap shares.
pub fn build_rich_recap_summary(config: &RichRecapSummaryConfig<'_>) -> (out: String)
    ensures
        out@ == visible_prefix(config@),
{
    let cleaned: String = clean_condensed_summary_for_display(config.condensed_summary);
    let condensed: String = sanitize_condensed_recap_markdown(cleaned.as_str());
    lay_out_summary(config, condensed.as_str())
}

// ---------------------------------------------------------------------------
// Plain text
// ---------------------------------------------------------------------------

/// `s` with its block structure shown as plain text.
pub open spec fn plain_blocks(s: Seq<char>) -> Seq<char> {
    let opened = patterns::regex_replaced_all(
        patterns::DETAILS_OPEN_PATTERN@,
        text::replaced(s, "\r\n"@, "\n"@),
        "$1\n\n"@,
    );
    let closed = text::replaced(opened, "</details>"@, ""@);
    let named = patterns::regex_replaced_all(patterns::USER_LINK_PATTERN@, closed, "$1"@);
    let linked = patterns::regex_replaced_all(patterns::URL_LINK_PATTERN@, named, "$1 ($2)"@);
    let flat = patterns::regex_replaced_all(patterns::HEADING_PATTERN@, linked, ""@);
    let unquoted = patterns::regex_replaced_all(patterns::QUOTE_PATTERN@, flat, ""@);
    text::replaced(text::replaced(unquoted, "```"@, ""@), "~~~"@, ""@)
}

/// `s` with its inline spans reduced to what they hold.
pub open spec fn plain_spans(s: Seq<char>) -> Seq<char> {
    let bold = patterns::regex_replaced_all(patterns::BOLD_PATTERN@, s, "$1"@);
    let underline = patterns::regex_replaced_all(patterns::UNDERLINE_PATTERN@, bold, "$1"@);
    let strike = patterns::regex_replaced_all(patterns::STRIKE_PATTERN@, underline, "$1"@);
    let code = patterns::regex_replaced_all(patterns::INLINE_CODE_PATTERN@, strike, "$1"@);
    let italic = patterns::regex_replaced_all(patterns::ITALIC_PATTERN@, code, "$1"@);
    patterns::regex_replaced_all(patterns::UNDERSCORE_ITALIC_PATTERN@, italic, "$1"@)
}

/// Convert application-generated Rich Markdown to its plain-text fallback.
pub fn rich_markdown_to_plain_text(markdown: &str) -> (out: String)
    ensures
        out@ == text::trimmed(unescaped(plain_spans(plain_blocks(markdown@)))),
{
    proof {
        reveal_strlit("\r\n");
        reveal_strlit("</details>");
        reveal_strlit("```");
        reveal_strlit("~~~");
    }
    let mut plain: String = replace(markdown, "\r\n", "\n");
    plain = replace_all(patterns::DETAILS_OPEN_PATTERN, plain.as_str(), "$1\n\n");
    plain = replace(plain.as_str(), "</details>", "");
    plain = replace_all(patterns::USER_LINK_PATTERN, plain.as_str(), "$1");
    plain = replace_all(patterns::URL_LINK_PATTERN, plain.as_str(), "$1 ($2)");
    plain = replace_all(patterns::HEADING_PATTERN, plain.as_str(), "");
    plain = replace_all(patterns::QUOTE_PATTERN, plain.as_str(), "");
    plain = replace(plain.as_str(), "```", "");
    plain = replace(plain.as_str(), "~~~", "");
    plain = replace_all(patterns::BOLD_PATTERN, plain.as_str(), "$1");
    plain = replace_all(patterns::UNDERLINE_PATTERN, plain.as_str(), "$1");
    plain = replace_all(patterns::STRIKE_PATTERN, plain.as_str(), "$1");
    plain = replace_all(patterns::INLINE_CODE_PATTERN, plain.as_str(), "$1");
    plain = replace_all(patterns::ITALIC_PATTERN, plain.as_str(), "$1");
    plain = replace_all(patterns::UNDERSCORE_ITALIC_PATTERN, plain.as_str(), "$1");
    trim(unescape_rich_markdown_text(plain.as_str()).as_str())
}

} // verus!
