//! What holds of buttons: a button does what it says. Its payload is read back as the
//! choice that its label names.

use vstd::prelude::*;

use crate::bot::handlers::recap_configure::{
    self, ConfigureChange, ConfigureRecapView, PressedButton,
};
use crate::bot::keyboards::{self, ButtonModel, KeyboardModel};
use crate::bot::payloads;
use crate::db::models::{self, ReactionCounts};
use crate::numeral;
use crate::redis::keys;
use crate::services::telegram_rich_message;
use crate::text;

verus! {

// ---------------------------------------------------------------------------
// Reading payloads
// ---------------------------------------------------------------------------

/// Whether JSON starts with a key and a value, and more behind them.
pub open spec fn starts_with_field(json: Seq<char>, key: Seq<char>, value: Seq<char>) -> bool {
    ("{\""@ + key + "\":"@ + value + ","@).is_prefix_of(json)
}

/// Whether JSON ends with a key and a value.
pub open spec fn ends_with_field(json: Seq<char>, key: Seq<char>, value: Seq<char>) -> bool {
    (",\""@ + key + "\":"@ + value + "}"@).is_suffix_of(json)
}

/// Whether JSON starts with a number under a key.
pub open spec fn starts_with_number(json: Seq<char>, key: Seq<char>, n: int) -> bool {
    starts_with_field(json, key, numeral::decimal(n))
}

/// Whether JSON ends with a number under a key.
pub open spec fn ends_with_number(json: Seq<char>, key: Seq<char>, n: int) -> bool {
    ends_with_field(json, key, numeral::decimal(n))
}

/// No payload starts with two numbers under the same key.
pub proof fn lemma_one_number_at_the_start(json: Seq<char>, key: Seq<char>, a: int, b: int)
    requires
        starts_with_number(json, key, a),
        starts_with_number(json, key, b),
    ensures
        a == b,
{
    reveal_strlit(",");
    let head = "{\""@ + key + "\":"@;
    let x = numeral::decimal(a);
    let y = numeral::decimal(b);
    let p = head + x + ","@;
    let q = head + y + ","@;
    numeral::lemma_decimal_chars(a);
    numeral::lemma_decimal_chars(b);
    assert forall|k: int| 0 <= k < x.len() && k < y.len() implies x[k] == y[k] by {
        assert(p[head.len() + k] == x[k] && q[head.len() + k] == y[k]);
        assert(json[head.len() + k] == p[head.len() + k]);
        assert(json[head.len() + k] == q[head.len() + k]);
    }
    if x.len() < y.len() {
        assert(p[0int + head.len() + x.len()] == ',');
        assert(q[0int + head.len() + x.len()] == y[x.len() as int]);
        assert(json[0int + head.len() + x.len()] == ',');
        assert(json[0int + head.len() + x.len()] == y[x.len() as int]);
    }
    if y.len() < x.len() {
        assert(q[0int + head.len() + y.len()] == ',');
        assert(p[0int + head.len() + y.len()] == x[y.len() as int]);
        assert(json[0int + head.len() + y.len()] == ',');
        assert(json[0int + head.len() + y.len()] == x[y.len() as int]);
    }
    assert(x =~= y);
    numeral::lemma_decimal_injective(a, b);
}

/// No payload ends with two numbers under the same key.
pub proof fn lemma_one_number_at_the_end(json: Seq<char>, key: Seq<char>, a: int, b: int)
    requires
        ends_with_number(json, key, a),
        ends_with_number(json, key, b),
    ensures
        a == b,
{
    reveal_strlit(",\"");
    reveal_strlit("\":");
    reveal_strlit("}");
    let head = ",\""@ + key + "\":"@;
    let x = numeral::decimal(a);
    let y = numeral::decimal(b);
    let p = head + x + "}"@;
    let q = head + y + "}"@;
    let n = json.len() as int;
    numeral::lemma_decimal_chars(a);
    numeral::lemma_decimal_chars(b);
    let s = json.subrange(n - p.len(), n);
    let t = json.subrange(n - q.len(), n);
    assert(s == p && t == q);
    if x.len() < y.len() {
        let k = x.len() + 1;
        assert(p[p.len() - 1 - k] == head[head.len() - 1]);
        assert(q[q.len() - 1 - k] == y[y.len() - k]);
        assert(s[p.len() - 1 - k] == json[n - 1 - k]);
        assert(t[q.len() - 1 - k] == json[n - 1 - k]);
        assert(head[head.len() - 1] == ':');
        assert(numeral::is_digit(y[y.len() - k]) || y[y.len() - k] == '-');
    }
    if y.len() < x.len() {
        let k = y.len() + 1;
        assert(q[q.len() - 1 - k] == head[head.len() - 1]);
        assert(p[p.len() - 1 - k] == x[x.len() - k]);
        assert(s[p.len() - 1 - k] == json[n - 1 - k]);
        assert(t[q.len() - 1 - k] == json[n - 1 - k]);
        assert(head[head.len() - 1] == ':');
        assert(numeral::is_digit(x[x.len() - k]) || x[x.len() - k] == '-');
    }
    assert(p =~= q);
    assert forall|k: int| 0 <= k < x.len() implies x[k] == y[k] by {
        assert(p[head.len() + k] == x[k] && q[head.len() + k] == y[k]);
    }
    assert(x =~= y);
    numeral::lemma_decimal_injective(a, b);
}

// ---------------------------------------------------------------------------
// Escapes
// ---------------------------------------------------------------------------

/// A character that is stored as it is.
pub open spec fn stored_plain(c: char) -> bool {
    c != '&' && c != '<' && c != '>' && c != '\u{2028}' && c != '\u{2029}'
}

pub open spec fn all_plain(s: Seq<char>) -> bool {
    forall|i: int| 0 <= i < s.len() ==> stored_plain(#[trigger] s[i])
}

proof fn lemma_replaced_char_at(s: Seq<char>, c: char, to: Seq<char>, i: int, a: Seq<char>)
    requires
        0 <= i <= a.len(),
        a.is_prefix_of(s),
        forall|k: int| 0 <= k < a.len() ==> #[trigger] a[k] != c,
    ensures
        text::replaced_from(s, seq![c], to, i) == a.subrange(i, a.len() as int)
            + text::replaced_from(s, seq![c], to, a.len() as int),
    decreases a.len() - i,
{
    if i < a.len() {
        assert(s[i] == a[i]);
        assert(s.subrange(i, i + 1)[0] == s[i]);
        assert(!text::matches_at(s, seq![c], i)) by {
            if text::matches_at(s, seq![c], i) {
                assert(seq![c][0] == c);
            }
        }
        lemma_replaced_char_at(s, c, to, i + 1, a);
        assert(seq![s[i]] + a.subrange(i + 1, a.len() as int) =~= a.subrange(i, a.len() as int));
        assert(text::replaced_from(s, seq![c], to, i) =~= a.subrange(i, a.len() as int)
            + text::replaced_from(s, seq![c], to, a.len() as int));
    } else {
        assert(a.subrange(i, a.len() as int) =~= Seq::<char>::empty());
        assert(text::replaced_from(s, seq![c], to, i) =~= a.subrange(i, a.len() as int)
            + text::replaced_from(s, seq![c], to, a.len() as int));
    }
}

proof fn lemma_replaced_shift(a: Seq<char>, b: Seq<char>, c: char, to: Seq<char>, i: int)
    requires
        0 <= i <= b.len(),
    ensures
        text::replaced_from(a + b, seq![c], to, a.len() + i) == text::replaced_from(
            b,
            seq![c],
            to,
            i,
        ),
    decreases b.len() - i,
{
    let s = a + b;
    if i < b.len() {
        assert(s[a.len() + i] == b[i]);
        assert(s.subrange(a.len() + i, a.len() + i + 1) =~= b.subrange(i, i + 1));
        lemma_replaced_shift(a, b, c, to, i + 1);
    }
}

proof fn lemma_replaced_split(s: Seq<char>, c: char, to: Seq<char>, i: int, n: int)
    requires
        0 <= i <= n <= s.len(),
    ensures
        text::replaced_from(s, seq![c], to, i) == text::replaced_from(s.take(n), seq![c], to, i)
            + text::replaced_from(s, seq![c], to, n),
    decreases n - i,
{
    let a = s.take(n);
    if i < n {
        assert(a[i] == s[i]);
        assert(s.subrange(i, i + 1) =~= a.subrange(i, i + 1));
        lemma_replaced_split(s, c, to, i + 1, n);
        assert(text::replaced_from(s, seq![c], to, i) =~= text::replaced_from(a, seq![c], to, i)
            + text::replaced_from(s, seq![c], to, n));
    } else {
        assert(text::replaced_from(a, seq![c], to, i) =~= Seq::<char>::empty());
        assert(text::replaced_from(s, seq![c], to, i) =~= text::replaced_from(a, seq![c], to, i)
            + text::replaced_from(s, seq![c], to, n));
    }
}

/// A character is replaced part by part.
pub proof fn lemma_replaced_parts(a: Seq<char>, b: Seq<char>, c: char, to: Seq<char>)
    ensures
        text::replaced(a + b, seq![c], to) == text::replaced(a, seq![c], to) + text::replaced(
            b,
            seq![c],
            to,
        ),
{
    let s = a + b;
    lemma_replaced_split(s, c, to, 0, a.len() as int);
    assert(s.take(a.len() as int) =~= a);
    lemma_replaced_shift(a, b, c, to, 0);
}

/// Text is stored part by part.
pub proof fn lemma_stored_in_parts(a: Seq<char>, b: Seq<char>)
    ensures
        payloads::html_safe(a + b) == payloads::html_safe(a) + payloads::html_safe(b),
{
    reveal_strlit("&");
    reveal_strlit("<");
    reveal_strlit(">");
    reveal_strlit("\u{2028}");
    reveal_strlit("\u{2029}");
    assert("&"@ =~= seq!['&']);
    assert("<"@ =~= seq!['<']);
    assert(">"@ =~= seq!['>']);
    assert("\u{2028}"@ =~= seq!['\u{2028}']);
    assert("\u{2029}"@ =~= seq!['\u{2029}']);
    lemma_replaced_parts(a, b, '&', "\\u0026"@);
    let a1 = text::replaced(a, "&"@, "\\u0026"@);
    let b1 = text::replaced(b, "&"@, "\\u0026"@);
    lemma_replaced_parts(a1, b1, '<', "\\u003c"@);
    let a2 = text::replaced(a1, "<"@, "\\u003c"@);
    let b2 = text::replaced(b1, "<"@, "\\u003c"@);
    lemma_replaced_parts(a2, b2, '>', "\\u003e"@);
    let a3 = text::replaced(a2, ">"@, "\\u003e"@);
    let b3 = text::replaced(b2, ">"@, "\\u003e"@);
    lemma_replaced_parts(a3, b3, '\u{2028}', "\\u2028"@);
    let a4 = text::replaced(a3, "\u{2028}"@, "\\u2028"@);
    let b4 = text::replaced(b3, "\u{2028}"@, "\\u2028"@);
    lemma_replaced_parts(a4, b4, '\u{2029}', "\\u2029"@);
}

proof fn lemma_nothing_replaced(s: Seq<char>, c: char, to: Seq<char>)
    requires
        forall|k: int| 0 <= k < s.len() ==> #[trigger] s[k] != c,
    ensures
        text::replaced(s, seq![c], to) == s,
{
    lemma_replaced_char_at(s, c, to, 0, s);
    assert(s.subrange(0, s.len() as int) =~= s);
    assert(text::replaced(s, seq![c], to) =~= s);
}

/// Text without anything to escape is stored as it is.
pub proof fn lemma_plain_is_stored_as_is(s: Seq<char>)
    requires
        all_plain(s),
    ensures
        payloads::html_safe(s) == s,
{
    reveal_strlit("&");
    reveal_strlit("<");
    reveal_strlit(">");
    reveal_strlit("\u{2028}");
    reveal_strlit("\u{2029}");
    assert("&"@ =~= seq!['&']);
    assert("<"@ =~= seq!['<']);
    assert(">"@ =~= seq!['>']);
    assert("\u{2028}"@ =~= seq!['\u{2028}']);
    assert("\u{2029}"@ =~= seq!['\u{2029}']);
    lemma_nothing_replaced(s, '&', "\\u0026"@);
    lemma_nothing_replaced(s, '<', "\\u003c"@);
    lemma_nothing_replaced(s, '>', "\\u003e"@);
    lemma_nothing_replaced(s, '\u{2028}', "\\u2028"@);
    lemma_nothing_replaced(s, '\u{2029}', "\\u2029"@);
}

proof fn lemma_number_is_plain(n: int)
    ensures
        all_plain(numeral::decimal(n)),
{
    numeral::lemma_decimal_chars(n);
}

/// Plain text around text of any kind is stored as it is.
proof fn lemma_stored_between(a: Seq<char>, b: Seq<char>, c: Seq<char>)
    requires
        all_plain(a),
        all_plain(c),
    ensures
        payloads::html_safe(a + b + c) == a + payloads::html_safe(b) + c,
{
    lemma_stored_in_parts(a + b, c);
    lemma_stored_in_parts(a, b);
    lemma_plain_is_stored_as_is(a);
    lemma_plain_is_stored_as_is(c);
}

// ---------------------------------------------------------------------------
// Payloads
// ---------------------------------------------------------------------------

proof fn lemma_frame(head: Seq<char>, rest: Seq<char>, tail: Seq<char>)
    ensures
        head.is_prefix_of(head + rest + tail),
        tail.is_suffix_of(head + rest + tail),
{
    let all = head + rest + tail;
    assert(all.subrange(0, head.len() as int) =~= head);
    assert(all.subrange(all.len() - tail.len(), all.len() as int) =~= tail);
}

/// The payload of an hour is read back as that hour of that chat.
#[verifier::rlimit(60)]
pub proof fn lemma_hour_payload(hour: i64, chat_id: i64, chat_title: Seq<char>, mode: i64)
    ensures
        ({
            let json = keyboards::hour_store(hour, chat_id, chat_title, mode).payload;
            &&& starts_with_number(json, "hour"@, hour as int)
            &&& ("{\"hour\":"@ + numeral::decimal(hour as int) + ",\"chat_id\":"@
                + numeral::decimal(chat_id as int) + ",\"chat_title\":\""@).is_prefix_of(json)
            &&& ends_with_number(json, "recap_mode"@, mode as int)
        }),
{
    reveal_strlit("{\"hour\":");
    reveal_strlit("{\"");
    reveal_strlit("hour");
    reveal_strlit("\":");
    reveal_strlit(",");
    reveal_strlit(",\"chat_id\":");
    reveal_strlit(",\"chat_title\":");
    reveal_strlit(",\"chat_title\":\"");
    reveal_strlit("\"");
    reveal_strlit(",\"recap_mode\":");
    reveal_strlit(",\"");
    reveal_strlit("recap_mode");
    reveal_strlit("}");
    let h = numeral::decimal(hour as int);
    let c = numeral::decimal(chat_id as int);
    let m = numeral::decimal(mode as int);
    lemma_number_is_plain(hour as int);
    lemma_number_is_plain(chat_id as int);
    lemma_number_is_plain(mode as int);
    let front = "{\"hour\":"@ + h + ",\"chat_id\":"@ + c + ",\"chat_title\":\""@;
    let back = "\",\"recap_mode\":"@ + m + "}"@;
    reveal_strlit("\",\"recap_mode\":");
    let inner = telegram_rich_message::json_chars(chat_title, 0);
    let json = keyboards::hour_store(hour, chat_id, chat_title, mode).payload;
    let raw = "{\"hour\":"@ + h + ",\"chat_id\":"@ + c + ",\"chat_title\":"@
        + telegram_rich_message::json_string(chat_title) + ",\"recap_mode\":"@ + m + "}"@;
    assert(raw =~= front + inner + back);
    assert(all_plain(front));
    assert(all_plain(back));
    lemma_stored_between(front, inner, back);
    lemma_frame(front, payloads::html_safe(inner), back);
    let lead = "{\""@ + "hour"@ + "\":"@ + h + ","@;
    assert(lead =~= front.take(lead.len() as int));
    assert(front.take(lead.len() as int).is_prefix_of(json)) by {
        assert(json.subrange(0, lead.len() as int) =~= lead);
    }
    let last = ",\""@ + "recap_mode"@ + "\":"@ + m + "}"@;
    assert(last =~= back.skip(1));
    assert(json.subrange(json.len() - last.len(), json.len() as int) =~= last);
}

/// The hours that can be chosen, in the order of the buttons.
pub open spec fn offered_hours() -> Seq<i64> {
    seq![1i64, 2, 4, 6, 12, 24]
}

/// Whether a button is shown, in a row of three, at place `i`.
pub open spec fn at_place(keyboard: KeyboardModel, i: int) -> ButtonModel {
    keyboard.rows[i / 3][i % 3]
}

/// Whether a button stands for what is stored at `k`.
pub open spec fn stands_for(button: ButtonModel, keyboard: KeyboardModel, k: int) -> bool {
    &&& 0 <= k < keyboard.stores.len()
    &&& button.wire == keys::wire_value(keyboard.stores[k].route, keyboard.stores[k].payload)
}

/// A button that says so many hours asks for so many hours, of the chat that the keyboard
/// was made for.
pub proof fn lemma_hour_buttons_ask_for_their_hours(
    chat_id: i64,
    chat_title: Seq<char>,
    mode: i64,
    i: int,
)
    requires
        0 <= i < 6,
    ensures
        ({
            let keyboard = keyboards::hour_keyboard(chat_id, chat_title, mode);
            let hour = offered_hours()[i];
            let button = at_place(keyboard, i);
            let json = keyboard.stores[i].payload;
            &&& keyboard.rows.len() == 2 && keyboard.rows[0].len() == 3 && keyboard.rows[1].len()
                == 3
            &&& payloads::is_choice(hour)
            &&& button.label == numeral::decimal(hour as int) + " 小时"@
            &&& stands_for(button, keyboard, i)
            &&& keyboard.stores[i].route == "recap/select-hour"@
            &&& starts_with_number(json, "hour"@, hour as int)
            &&& ("{\"hour\":"@ + numeral::decimal(hour as int) + ",\"chat_id\":"@
                + numeral::decimal(chat_id as int) + ",\"chat_title\":\""@).is_prefix_of(json)
            &&& ends_with_number(json, "recap_mode"@, mode as int)
        }),
{
    let hour = offered_hours()[i];
    lemma_hour_payload(hour, chat_id, chat_title, mode);
    assert(keys::ROUTE_SELECT_HOUR@ == "recap/select-hour"@);
}

/// The payload of a reaction is read back as that reaction to that log.
#[verifier::rlimit(60)]
pub proof fn lemma_vote_payload(chat_id: i64, log_id: Seq<char>, reaction: Seq<char>)
    requires
        all_plain(reaction),
        forall|i: int|
            0 <= i < reaction.len() ==> 'a' <= #[trigger] reaction[i] <= 'z' || reaction[i] == '_',
    ensures
        ({
            let json = keyboards::vote_store(chat_id, log_id, reaction).payload;
            &&& starts_with_number(json, "chatId"@, chat_id as int)
            &&& ends_with_field(json, "type"@, "\""@ + reaction + "\""@)
            &&& json == "{\"chatId\":"@ + numeral::decimal(chat_id as int) + ",\"logId\":\""@
                + payloads::html_safe(telegram_rich_message::json_chars(log_id, 0))
                + "\",\"type\":\""@ + reaction + "\"}"@
        }),
{
    reveal_strlit("{\"chatId\":");
    reveal_strlit("{\"");
    reveal_strlit("chatId");
    reveal_strlit("\":");
    reveal_strlit(",");
    reveal_strlit(",\"logId\":");
    reveal_strlit(",\"logId\":\"");
    reveal_strlit("\"");
    reveal_strlit(",\"type\":");
    reveal_strlit("\",\"type\":\"");
    reveal_strlit(",\"");
    reveal_strlit("type");
    reveal_strlit("}");
    reveal_strlit("\"}");
    let c = numeral::decimal(chat_id as int);
    lemma_number_is_plain(chat_id as int);
    lemma_plain_json(reaction, 0);
    assert(reaction.subrange(0, reaction.len() as int) =~= reaction);
    let front = "{\"chatId\":"@ + c + ",\"logId\":\""@;
    let back = "\",\"type\":\""@ + reaction + "\"}"@;
    let inner = telegram_rich_message::json_chars(log_id, 0);
    let json = keyboards::vote_store(chat_id, log_id, reaction).payload;
    let raw = "{\"chatId\":"@ + c + ",\"logId\":"@ + telegram_rich_message::json_string(log_id)
        + ",\"type\":"@ + telegram_rich_message::json_string(reaction) + "}"@;
    assert(raw =~= front + inner + back);
    assert(all_plain(front));
    assert(all_plain(back));
    lemma_stored_between(front, inner, back);
    let lead = "{\""@ + "chatId"@ + "\":"@ + c + ","@;
    assert(json.subrange(0, lead.len() as int) =~= lead);
    let last = ",\""@ + "type"@ + "\":"@ + ("\""@ + reaction + "\""@) + "}"@;
    assert(json.subrange(json.len() - last.len(), json.len() as int) =~= last);
    assert(json =~= "{\"chatId\":"@ + c + ",\"logId\":\""@ + payloads::html_safe(inner)
        + "\",\"type\":\""@ + reaction + "\"}"@);
}

proof fn lemma_plain_json(s: Seq<char>, i: int)
    requires
        0 <= i <= s.len(),
        forall|k: int| 0 <= k < s.len() ==> 'a' <= #[trigger] s[k] <= 'z' || s[k] == '_',
    ensures
        telegram_rich_message::json_chars(s, i) == s.subrange(i, s.len() as int),
    decreases s.len() - i,
{
    if i < s.len() {
        lemma_plain_json(s, i + 1);
        crate::utf16::lemma_scalar(s[i]);
        assert(telegram_rich_message::json_char(s[i]) == seq![s[i]]);
        assert(seq![s[i]] + s.subrange(i + 1, s.len() as int) =~= s.subrange(i, s.len() as int));
    } else {
        assert(s.subrange(i, s.len() as int) =~= Seq::<char>::empty());
    }
}

/// The name of a reaction in a payload.
pub open spec fn reaction_name(i: int) -> Seq<char> {
    if i == 0 {
        "up_vote"@
    } else if i == 1 {
        "down_vote"@
    } else {
        "lmao"@
    }
}

pub open spec fn reaction_sign(i: int) -> Seq<char> {
    if i == 0 {
        "👍"@
    } else if i == 1 {
        "👎"@
    } else {
        "🤣"@
    }
}

pub open spec fn reaction_count(counts: ReactionCounts, i: int) -> usize {
    if i == 0 {
        counts.up_votes
    } else if i == 1 {
        counts.down_votes
    } else {
        counts.lmao
    }
}

/// Each reaction has its own button: its sign, its own count where there is one, and a
/// payload that names it and the log that it is about.
#[verifier::rlimit(60)]
pub proof fn lemma_vote_buttons_count_their_own(
    chat_id: i64,
    log_id: Seq<char>,
    counts: ReactionCounts,
    i: int,
)
    requires
        0 <= i < 3,
    ensures
        ({
            let keyboard = keyboards::vote_keyboard(chat_id, log_id, counts);
            let button = keyboard.rows[0][i];
            let count = reaction_count(counts, i);
            let json = keyboard.stores[i].payload;
            &&& keyboard.rows.len() == 1 && keyboard.rows[0].len() == 3
            &&& count == 0 ==> button.label == reaction_sign(i)
            &&& count > 0 ==> button.label == reaction_sign(i) + " "@ + numeral::decimal(
                count as int,
            )
            &&& stands_for(button, keyboard, i)
            &&& keyboard.stores[i].route == "smr/summarization/feedback/react"@
            &&& starts_with_number(json, "chatId"@, chat_id as int)
            &&& ends_with_field(json, "type"@, "\""@ + reaction_name(i) + "\""@)
            &&& models::reaction_of(reaction_name(i)) is Some
        }),
{
    reveal_strlit("up_vote");
    reveal_strlit("down_vote");
    reveal_strlit("lmao");
    reveal_strlit("none");
    lemma_vote_payload(chat_id, log_id, reaction_name(i));
    let keyboard = keyboards::vote_keyboard(chat_id, log_id, counts);
    assert(keyboard.rows[0] == keyboards::vote_row(chat_id, log_id, counts));
}

/// The payload of leaving is read back as the chat that is left and who leaves it.
#[verifier::rlimit(60)]
pub proof fn lemma_unsubscribe_payload(chat_id: i64, chat_title: Seq<char>, from_id: i64)
    ensures
        ({
            let json = keyboards::unsubscribe_store(chat_id, chat_title, from_id).payload;
            &&& starts_with_number(json, "chatId"@, chat_id as int)
            &&& ends_with_number(json, "fromId"@, from_id as int)
        }),
{
    reveal_strlit("{\"chatId\":");
    reveal_strlit("{\"");
    reveal_strlit("chatId");
    reveal_strlit("\":");
    reveal_strlit(",");
    reveal_strlit(",\"chatTitle\":");
    reveal_strlit(",\"chatTitle\":\"");
    reveal_strlit("\"");
    reveal_strlit(",\"fromId\":");
    reveal_strlit("\",\"fromId\":");
    reveal_strlit(",\"");
    reveal_strlit("fromId");
    reveal_strlit("}");
    let c = numeral::decimal(chat_id as int);
    let f = numeral::decimal(from_id as int);
    lemma_number_is_plain(chat_id as int);
    lemma_number_is_plain(from_id as int);
    let front = "{\"chatId\":"@ + c + ",\"chatTitle\":\""@;
    let back = "\",\"fromId\":"@ + f + "}"@;
    let inner = telegram_rich_message::json_chars(chat_title, 0);
    let json = keyboards::unsubscribe_store(chat_id, chat_title, from_id).payload;
    let raw = "{\"chatId\":"@ + c + ",\"chatTitle\":"@ + telegram_rich_message::json_string(
        chat_title,
    ) + ",\"fromId\":"@ + f + "}"@;
    assert(raw =~= front + inner + back);
    assert(all_plain(front));
    assert(all_plain(back));
    lemma_stored_between(front, inner, back);
    let lead = "{\""@ + "chatId"@ + "\":"@ + c + ","@;
    assert(json.subrange(0, lead.len() as int) =~= lead);
    let last = ",\""@ + "fromId"@ + "\":"@ + f + "}"@;
    assert(json.subrange(json.len() - last.len(), json.len() as int) =~= last);
}

/// A subscriber has the same buttons and one more, which leaves the chat in their name.
#[verifier::rlimit(60)]
pub proof fn lemma_subscriber_has_a_way_out(
    chat_id: i64,
    chat_title: Seq<char>,
    from_id: i64,
    log_id: Seq<char>,
    counts: ReactionCounts,
)
    ensures
        ({
            let keyboard = keyboards::subscriber_keyboard(
                chat_id,
                chat_title,
                from_id,
                log_id,
                counts,
            );
            let votes = keyboards::vote_keyboard(chat_id, log_id, counts);
            let json = keyboard.stores[3].payload;
            &&& keyboard.rows.len() == 2
            &&& keyboard.rows[0] == votes.rows[0]
            &&& keyboard.stores.take(3) == votes.stores
            &&& keyboard.rows[1].len() == 1
            &&& keyboard.rows[1][0].label == "取消订阅"@
            &&& stands_for(keyboard.rows[1][0], keyboard, 3)
            &&& keyboard.stores[3].route == "recap/unsubscribe_recap"@
            &&& starts_with_number(json, "chatId"@, chat_id as int)
            &&& ends_with_number(json, "fromId"@, from_id as int)
        }),
{
    lemma_unsubscribe_payload(chat_id, chat_title, from_id);
    let keyboard = keyboards::subscriber_keyboard(chat_id, chat_title, from_id, log_id, counts);
    let votes = keyboards::vote_keyboard(chat_id, log_id, counts);
    assert(keyboard.stores.take(3) =~= votes.stores);
}

// ---------------------------------------------------------------------------
// The configuration
// ---------------------------------------------------------------------------

/// The payload of a choice is read back as that choice for that chat.
pub proof fn lemma_choice_payloads(view: ConfigureRecapView, n: i64, on: bool)
    ensures
        ({
            let mode = recap_configure::mode_store(view, n).payload;
            let rate = recap_configure::rate_store(view, n).payload;
            let toggle = recap_configure::toggle_store(view, on).payload;
            let pin = recap_configure::pin_store(view, on).payload;
            let word = if on {
                "true"@
            } else {
                "false"@
            };
            let chat = numeral::decimal(view.chat_id as int);
            let from = numeral::decimal(view.from_id as int);
            &&& mode == "{\"mode\":"@ + numeral::decimal(n as int) + ",\"chatId\":"@ + chat
                + ",\"fromId\":"@ + from + "}"@
            &&& rate == "{\"rates\":"@ + numeral::decimal(n as int) + ",\"chatId\":"@ + chat
                + ",\"fromId\":"@ + from + "}"@
            &&& toggle == "{\"status\":"@ + word + ",\"chatId\":"@ + chat + ",\"fromId\":"@ + from
                + "}"@
            &&& pin == "{\"status\":"@ + word + ",\"chatId\":"@ + chat + "}"@
        }),
{
    reveal_strlit("{\"mode\":");
    reveal_strlit("{\"rates\":");
    reveal_strlit("{\"status\":");
    reveal_strlit("true");
    reveal_strlit("false");
    reveal_strlit(",\"chatId\":");
    reveal_strlit(",\"fromId\":");
    reveal_strlit("}");
    lemma_number_is_plain(n as int);
    lemma_number_is_plain(view.chat_id as int);
    lemma_number_is_plain(view.from_id as int);
    let word = if on {
        "true"@
    } else {
        "false"@
    };
    let chat = numeral::decimal(view.chat_id as int);
    let from = numeral::decimal(view.from_id as int);
    let number = numeral::decimal(n as int);
    lemma_plain_is_stored_as_is(
        "{\"mode\":"@ + number + ",\"chatId\":"@ + chat + ",\"fromId\":"@ + from + "}"@,
    );
    lemma_plain_is_stored_as_is(
        "{\"rates\":"@ + number + ",\"chatId\":"@ + chat + ",\"fromId\":"@ + from + "}"@,
    );
    lemma_plain_is_stored_as_is(
        "{\"status\":"@ + word + ",\"chatId\":"@ + chat + ",\"fromId\":"@ + from + "}"@,
    );
    lemma_plain_is_stored_as_is("{\"status\":"@ + word + ",\"chatId\":"@ + chat + "}"@);
}

/// The word of a status.
pub open spec fn status_word(on: bool) -> Seq<char> {
    if on {
        "true"@
    } else {
        "false"@
    }
}

proof fn lemma_three_fields(
    json: Seq<char>,
    opening: Seq<char>,
    key: Seq<char>,
    value: Seq<char>,
    chat: Seq<char>,
    from: Seq<char>,
)
    requires
        opening == "{\""@ + key + "\":"@,
        json == opening + value + ",\"chatId\":"@ + chat + ",\"fromId\":"@ + from + "}"@,
    ensures
        starts_with_field(json, key, value),
        ends_with_field(json, "fromId"@, from),
{
    reveal_strlit(",");
    reveal_strlit("\":");
    reveal_strlit(",\"chatId\":");
    reveal_strlit(",\"fromId\":");
    reveal_strlit(",\"");
    reveal_strlit("fromId");
    reveal_strlit("}");
    let lead = "{\""@ + key + "\":"@ + value + ","@;
    assert(json.subrange(0, lead.len() as int) =~= lead);
    let last = ",\""@ + "fromId"@ + "\":"@ + from + "}"@;
    assert(json.subrange(json.len() - last.len(), json.len() as int) =~= last);
}

/// The payloads of the configuration are read back as what they were made from.
pub proof fn lemma_choices_read_back(view: ConfigureRecapView, n: i64, on: bool)
    ensures
        starts_with_number(recap_configure::mode_store(view, n).payload, "mode"@, n as int),
        starts_with_number(recap_configure::rate_store(view, n).payload, "rates"@, n as int),
        starts_with_field(
            recap_configure::toggle_store(view, on).payload,
            "status"@,
            status_word(on),
        ),
        starts_with_field(recap_configure::pin_store(view, on).payload, "status"@, status_word(on)),
        ends_with_number(
            recap_configure::mode_store(view, n).payload,
            "fromId"@,
            view.from_id as int,
        ),
        ends_with_number(
            recap_configure::rate_store(view, n).payload,
            "fromId"@,
            view.from_id as int,
        ),
        ends_with_number(
            recap_configure::toggle_store(view, on).payload,
            "fromId"@,
            view.from_id as int,
        ),
        ends_with_number(
            recap_configure::pin_store(view, on).payload,
            "chatId"@,
            view.chat_id as int,
        ),
{
    lemma_choice_payloads(view, n, on);
    let chat = numeral::decimal(view.chat_id as int);
    let from = numeral::decimal(view.from_id as int);
    let number = numeral::decimal(n as int);
    let word = status_word(on);
    assert("{\"mode\":"@ == "{\""@ + "mode"@ + "\":"@) by {
        reveal_strlit("{\"mode\":");
        reveal_strlit("{\"");
        reveal_strlit("mode");
        reveal_strlit("\":");
        assert("{\"mode\":"@ =~= "{\""@ + "mode"@ + "\":"@);
    }
    assert("{\"rates\":"@ == "{\""@ + "rates"@ + "\":"@) by {
        reveal_strlit("{\"rates\":");
        reveal_strlit("{\"");
        reveal_strlit("rates");
        reveal_strlit("\":");
        assert("{\"rates\":"@ =~= "{\""@ + "rates"@ + "\":"@);
    }
    assert("{\"status\":"@ == "{\""@ + "status"@ + "\":"@) by {
        reveal_strlit("{\"status\":");
        reveal_strlit("{\"");
        reveal_strlit("status");
        reveal_strlit("\":");
        assert("{\"status\":"@ =~= "{\""@ + "status"@ + "\":"@);
    }
    lemma_three_fields(
        recap_configure::mode_store(view, n).payload,
        "{\"mode\":"@,
        "mode"@,
        number,
        chat,
        from,
    );
    lemma_three_fields(
        recap_configure::rate_store(view, n).payload,
        "{\"rates\":"@,
        "rates"@,
        number,
        chat,
        from,
    );
    lemma_three_fields(
        recap_configure::toggle_store(view, on).payload,
        "{\"status\":"@,
        "status"@,
        word,
        chat,
        from,
    );
    lemma_pin_reads_back(recap_configure::pin_store(view, on).payload, word, chat);
}

proof fn lemma_pin_reads_back(json: Seq<char>, word: Seq<char>, chat: Seq<char>)
    requires
        json == "{\"status\":"@ + word + ",\"chatId\":"@ + chat + "}"@,
    ensures
        starts_with_field(json, "status"@, word),
        ends_with_field(json, "chatId"@, chat),
{
    reveal_strlit("{\"status\":");
    reveal_strlit("{\"");
    reveal_strlit("status");
    reveal_strlit("\":");
    reveal_strlit(",");
    reveal_strlit(",\"chatId\":");
    reveal_strlit(",\"");
    reveal_strlit("chatId");
    reveal_strlit("}");
    let lead = "{\""@ + "status"@ + "\":"@ + word + ","@;
    assert(json.subrange(0, lead.len() as int) =~= lead);
    let last = ",\""@ + "chatId"@ + "\":"@ + chat + "}"@;
    assert(json.subrange(json.len() - last.len(), json.len() as int) =~= last);
}

/// Whether a label is marked as what is chosen.
pub open spec fn is_marked(label: Seq<char>) -> bool {
    "🔘 "@.is_prefix_of(label)
}

/// The words on the buttons for delivery.
pub open spec fn mode_word(mode: int) -> Seq<char> {
    if mode == 0 {
        "公开"@
    } else {
        "私聊"@
    }
}

/// The words on a switch: on comes first.
pub open spec fn switch_word(place: int) -> Seq<char> {
    if place == 0 {
        "开启"@
    } else {
        "关闭"@
    }
}

/// The word on the button for so many recaps a day.
pub open spec fn rate_word(rate: int) -> Seq<char> {
    if rate == 2 {
        "2 次"@
    } else if rate == 3 {
        "3 次"@
    } else {
        "4 次"@
    }
}

proof fn lemma_marks()
    ensures
        !is_marked("公开"@) && !is_marked("私聊"@) && !is_marked("开启"@) && !is_marked("关闭"@),
        !is_marked("2 次"@) && !is_marked("3 次"@) && !is_marked("4 次"@),
        forall|s: Seq<char>| is_marked(#[trigger] ("🔘 "@ + s)),
{
    reveal_strlit("🔘 ");
    reveal_strlit("公开");
    reveal_strlit("私聊");
    reveal_strlit("开启");
    reveal_strlit("关闭");
    reveal_strlit("2 次");
    reveal_strlit("3 次");
    reveal_strlit("4 次");
    assert forall|s: Seq<char>| is_marked(#[trigger] ("🔘 "@ + s)) by {
        assert(("🔘 "@ + s).subrange(0, "🔘 "@.len() as int) =~= "🔘 "@);
    }
    assert("公开"@[0] == '公' && "私聊"@[0] == '私' && "开启"@[0] == '开' && "关闭"@[0] == '关');
    assert("2 次"@[0] == '2' && "3 次"@[0] == '3' && "4 次"@[0] == '4');
    assert("🔘 "@[0] == '🔘');
}

/// The delivery buttons: who presses one chooses the mode that it names, and the keyboard
/// that is drawn for that mode marks the button that was pressed and no other.
#[verifier::rlimit(60)]
pub proof fn lemma_mode_buttons_choose_their_mode(view: ConfigureRecapView, mode: int)
    requires
        mode == 0 || mode == 1,
    ensures
        ({
            let keyboard = recap_configure::configure_keyboard(view);
            let button = keyboard.rows[3][mode];
            let json = keyboard.stores[3 + mode].payload;
            let drawn = recap_configure::configure_keyboard(
                ConfigureRecapView { send_mode: mode as i64, ..view },
            );
            &&& keyboard.rows[3].len() == 2
            &&& mode_word(mode).is_suffix_of(button.label)
            &&& is_marked(button.label) <==> view.send_mode == mode
            &&& stands_for(button, keyboard, 3 + mode)
            &&& keyboard.stores[3 + mode].route == "recap/configure/assign_mode"@
            &&& starts_with_number(json, "mode"@, mode)
            &&& ends_with_number(json, "fromId"@, view.from_id as int)
            &&& models::mode_of(mode as i64) is Some
            &&& models::stored_mode(models::mode_of(mode as i64)->0) == mode
            &&& is_marked(drawn.rows[3][mode].label)
            &&& !is_marked(drawn.rows[3][1 - mode].label)
        }),
{
    lemma_marks();
    lemma_choices_read_back(view, mode as i64, true);
    let keyboard = recap_configure::configure_keyboard(view);
    let button = keyboard.rows[3][mode];
    assert(keyboard.stores[3 + mode] == recap_configure::mode_store(view, mode as i64));
    assert(button.label.subrange(
        button.label.len() - mode_word(mode).len(),
        button.label.len() as int,
    ) =~= mode_word(mode));
}

/// The switch for recaps: on is on and off is off, and the keyboard that is drawn after a
/// press marks the button that was pressed and no other.
#[verifier::rlimit(60)]
pub proof fn lemma_recap_switch_does_what_it_says(view: ConfigureRecapView, place: int)
    requires
        place == 0 || place == 1,
    ensures
        ({
            let keyboard = recap_configure::configure_keyboard(view);
            let button = keyboard.rows[1][place];
            let on = place == 0;
            let json = keyboard.stores[1 + place].payload;
            let drawn = recap_configure::configure_keyboard(
                ConfigureRecapView { recap_enabled: on, ..view },
            );
            &&& keyboard.rows[1].len() == 2
            &&& switch_word(place).is_suffix_of(button.label)
            &&& is_marked(button.label) <==> view.recap_enabled == on
            &&& stands_for(button, keyboard, 1 + place)
            &&& keyboard.stores[1 + place].route == "recap/configure/toggle"@
            &&& starts_with_field(json, "status"@, status_word(on))
            &&& ends_with_number(json, "fromId"@, view.from_id as int)
            &&& is_marked(drawn.rows[1][place].label)
            &&& !is_marked(drawn.rows[1][1 - place].label)
            &&& drawn.rows.len() == if on {
                9int
            } else {
                5int
            }
        }),
{
    lemma_marks();
    let on = place == 0;
    lemma_choices_read_back(view, 0, on);
    let keyboard = recap_configure::configure_keyboard(view);
    let button = keyboard.rows[1][place];
    assert(keyboard.stores[1 + place] == recap_configure::toggle_store(view, on));
    assert(button.label.subrange(
        button.label.len() - switch_word(place).len(),
        button.label.len() as int,
    ) =~= switch_word(place));
}

/// The buttons for recaps a day, which are there while recaps are on: each chooses the
/// rate that it names, and is marked once that is the rate.
#[verifier::rlimit(60)]
pub proof fn lemma_rate_buttons_choose_their_rate(view: ConfigureRecapView, rate: int)
    requires
        view.recap_enabled,
        2 <= rate <= 4,
    ensures
        ({
            let keyboard = recap_configure::configure_keyboard(view);
            let button = keyboard.rows[5][rate - 2];
            let json = keyboard.stores[6 + rate].payload;
            let drawn = recap_configure::configure_keyboard(
                ConfigureRecapView { rates_per_day: rate as i64, ..view },
            );
            &&& keyboard.rows.len() == 9 && keyboard.rows[5].len() == 3
            &&& rate_word(rate).is_suffix_of(button.label)
            &&& is_marked(button.label) <==> view.rates_per_day == rate
            &&& stands_for(button, keyboard, 6 + rate)
            &&& keyboard.stores[6 + rate].route == "recap/configure/auto_recap_rates_per_day"@
            &&& starts_with_number(json, "rates"@, rate)
            &&& ends_with_number(json, "fromId"@, view.from_id as int)
            &&& forall|c: int|
                0 <= c < 3 ==> (is_marked((#[trigger] drawn.rows[5][c]).label) <==> c == rate - 2)
        }),
{
    lemma_marks();
    lemma_choices_read_back(view, rate as i64, true);
    let keyboard = recap_configure::configure_keyboard(view);
    let button = keyboard.rows[5][rate - 2];
    assert(keyboard.stores[6 + rate] == recap_configure::rate_store(view, rate as i64));
    assert(button.label.subrange(
        button.label.len() - rate_word(rate).len(),
        button.label.len() as int,
    ) =~= rate_word(rate));
}

/// The switch for pinning, which is there while recaps are on.
#[verifier::rlimit(60)]
pub proof fn lemma_pin_switch_does_what_it_says(view: ConfigureRecapView, place: int)
    requires
        view.recap_enabled,
        place == 0 || place == 1,
    ensures
        ({
            let keyboard = recap_configure::configure_keyboard(view);
            let button = keyboard.rows[7][place];
            let on = place == 0;
            let json = keyboard.stores[6 + place].payload;
            let drawn = recap_configure::configure_keyboard(
                ConfigureRecapView { pin_enabled: on, ..view },
            );
            &&& keyboard.rows[7].len() == 2
            &&& switch_word(place).is_suffix_of(button.label)
            &&& is_marked(button.label) <==> view.pin_enabled == on
            &&& stands_for(button, keyboard, 6 + place)
            &&& keyboard.stores[6 + place].route == "recap/configure/pin"@
            &&& starts_with_field(json, "status"@, status_word(on))
            &&& ends_with_number(json, "chatId"@, view.chat_id as int)
            &&& is_marked(drawn.rows[7][place].label)
            &&& !is_marked(drawn.rows[7][1 - place].label)
        }),
{
    lemma_marks();
    let on = place == 0;
    lemma_choices_read_back(view, 0, on);
    let keyboard = recap_configure::configure_keyboard(view);
    let button = keyboard.rows[7][place];
    assert(keyboard.stores[6 + place] == recap_configure::pin_store(view, on));
    assert(button.label.subrange(
        button.label.len() - switch_word(place).len(),
        button.label.len() as int,
    ) =~= switch_word(place));
}

/// The last button ends the configuration of the chat, the headings do nothing.
#[verifier::rlimit(60)]
pub proof fn lemma_headings_do_nothing(view: ConfigureRecapView)
    ensures
        ({
            let keyboard = recap_configure::configure_keyboard(view);
            let last = keyboard.rows.len() - 1;
            let json = keyboard.stores[5].payload;
            &&& keyboard.rows[last].len() == 1
            &&& keyboard.rows[last][0].label == "✅ 完成"@
            &&& stands_for(keyboard.rows[last][0], keyboard, 5)
            &&& keyboard.stores[5].route == "recap/configure/complete"@
            &&& starts_with_number(json, "chatId"@, view.chat_id as int)
            &&& ends_with_number(json, "fromId"@, view.from_id as int)
            &&& keyboard.stores[0].route == "nop"@
            &&& stands_for(keyboard.rows[0][0], keyboard, 0)
            &&& stands_for(keyboard.rows[2][0], keyboard, 0)
            &&& view.recap_enabled ==> stands_for(keyboard.rows[4][0], keyboard, 0) && stands_for(
                keyboard.rows[6][0],
                keyboard,
                0,
            )
        }),
{
    reveal_strlit("{\"chatId\":");
    reveal_strlit("{\"");
    reveal_strlit("chatId");
    reveal_strlit("\":");
    reveal_strlit(",");
    reveal_strlit(",\"fromId\":");
    reveal_strlit(",\"");
    reveal_strlit("fromId");
    reveal_strlit("}");
    lemma_number_is_plain(view.chat_id as int);
    lemma_number_is_plain(view.from_id as int);
    let chat = numeral::decimal(view.chat_id as int);
    let from = numeral::decimal(view.from_id as int);
    let json = "{\"chatId\":"@ + chat + ",\"fromId\":"@ + from + "}"@;
    lemma_plain_is_stored_as_is(json);
    assert(recap_configure::complete_store(view).payload == json);
    let lead = "{\""@ + "chatId"@ + "\":"@ + chat + ","@;
    assert(json.subrange(0, lead.len() as int) =~= lead);
    let last = ",\""@ + "fromId"@ + "\":"@ + from + "}"@;
    assert(json.subrange(json.len() - last.len(), json.len() as int) =~= last);
    let keyboard = recap_configure::configure_keyboard(view);
    assert(keyboard.stores[5] == recap_configure::complete_store(view));
    assert(keyboard.rows[keyboard.rows.len() - 1] == recap_configure::last_row(view));
}

/// A payload changes what it names and nothing else.
pub proof fn lemma_payloads_change_what_they_name(pressed: PressedButton)
    ensures
        pressed.status matches Some(on) ==> recap_configure::change_of(pressed) == if pressed.about_pins {
            ConfigureChange::Pin(on)
        } else {
            ConfigureChange::Enable(on)
        },
        pressed.status is None && pressed.mode == Some(0i64) ==> recap_configure::change_of(pressed)
            == ConfigureChange::Mode(models::AutoRecapSendMode::Publicly),
        pressed.status is None && pressed.mode == Some(1i64) ==> recap_configure::change_of(pressed)
            == ConfigureChange::Mode(models::AutoRecapSendMode::OnlyPrivateSubscriptions),
        pressed.status is None && pressed.mode is None ==> (pressed.rates matches Some(rates)
            ==> recap_configure::change_of(pressed) == ConfigureChange::Rates(rates)),
{
}

} // verus!
