//! What holds of what people read: how names are shown and made harmless, and where updates
//! are sent.

use vstd::prelude::*;

use crate::bot::button_laws;
use crate::bot::commands;
use crate::bot::handlers::{recap_manual, recap_subscription};
use crate::bot::users::{self, TelegramUser};
use crate::text::{self, CharClass};
use crate::text_laws;

verus! {

/// How a character stands in a text in HTML.
pub open spec fn in_html(c: char) -> Seq<char> {
    if c == '&' {
        "&amp;"@
    } else if c == '<' {
        "&lt;"@
    } else if c == '>' {
        "&gt;"@
    } else if c == '"' {
        "&quot;"@
    } else if c == '\'' {
        "&#39;"@
    } else {
        seq![c]
    }
}

proof fn lemma_marks()
    ensures
        "&"@ == seq!['&'],
        "<"@ == seq!['<'],
        ">"@ == seq!['>'],
        "\""@ == seq!['"'],
        "'"@ == seq!['\''],
{
    reveal_strlit("&");
    reveal_strlit("<");
    reveal_strlit(">");
    reveal_strlit("\"");
    reveal_strlit("'");
    assert("&"@ =~= seq!['&']);
    assert("<"@ =~= seq!['<']);
    assert(">"@ =~= seq!['>']);
    assert("\""@ =~= seq!['"']);
    assert("'"@ =~= seq!['\'']);
}

proof fn lemma_escaped_parts(a: Seq<char>, b: Seq<char>)
    ensures
        recap_manual::attribute_escaped(a + b) == recap_manual::attribute_escaped(a)
            + recap_manual::attribute_escaped(b),
{
    lemma_marks();
    button_laws::lemma_replaced_parts(a, b, '&', "&amp;"@);
    let a1 = text::replaced(a, "&"@, "&amp;"@);
    let b1 = text::replaced(b, "&"@, "&amp;"@);
    button_laws::lemma_replaced_parts(a1, b1, '<', "&lt;"@);
    let a2 = text::replaced(a1, "<"@, "&lt;"@);
    let b2 = text::replaced(b1, "<"@, "&lt;"@);
    button_laws::lemma_replaced_parts(a2, b2, '>', "&gt;"@);
    let a3 = text::replaced(a2, ">"@, "&gt;"@);
    let b3 = text::replaced(b2, ">"@, "&gt;"@);
    button_laws::lemma_replaced_parts(a3, b3, '"', "&quot;"@);
    let a4 = text::replaced(a3, "\""@, "&quot;"@);
    let b4 = text::replaced(b3, "\""@, "&quot;"@);
    button_laws::lemma_replaced_parts(a4, b4, '\'', "&#39;"@);
}

proof fn lemma_untouched(s: Seq<char>, c: char, to: Seq<char>)
    requires
        !s.contains(c),
    ensures
        text::replaced(s, seq![c], to) == s,
{
    if text::occurs(s, seq![c]) {
        let k = choose|k: int| text::matches_at(s, seq![c], k);
        assert(s.subrange(k, k + 1)[0] == seq![c][0]);
        assert(s.contains(s[k]));
    }
    text_laws::lemma_nothing_to_replace(s, seq![c], to);
}

proof fn lemma_one_replaced(c: char, to: Seq<char>)
    ensures
        text::replaced(seq![c], seq![c], to) == to,
{
    let nothing = Seq::<char>::empty();
    text_laws::lemma_characters_are_replaced(nothing, c, c, to);
    assert(nothing.push(c) =~= seq![c]);
    lemma_untouched(nothing, c, to);
    assert(nothing + to =~= to);
}

proof fn lemma_escaped_one(c: char)
    ensures
        recap_manual::attribute_escaped(seq![c]) == in_html(c),
{
    lemma_marks();
    reveal_strlit("&amp;");
    reveal_strlit("&lt;");
    reveal_strlit("&gt;");
    reveal_strlit("&quot;");
    reveal_strlit("&#39;");
    let one = seq![c];
    let s1 = text::replaced(one, "&"@, "&amp;"@);
    if c == '&' {
        lemma_one_replaced('&', "&amp;"@);
    } else {
        lemma_untouched(one, '&', "&amp;"@);
    }
    let s2 = text::replaced(s1, "<"@, "&lt;"@);
    if c == '<' {
        lemma_one_replaced('<', "&lt;"@);
    } else {
        lemma_untouched(s1, '<', "&lt;"@);
    }
    let s3 = text::replaced(s2, ">"@, "&gt;"@);
    if c == '>' {
        lemma_one_replaced('>', "&gt;"@);
    } else {
        lemma_untouched(s2, '>', "&gt;"@);
    }
    let s4 = text::replaced(s3, "\""@, "&quot;"@);
    if c == '"' {
        lemma_one_replaced('"', "&quot;"@);
    } else {
        lemma_untouched(s3, '"', "&quot;"@);
    }
    if c == '\'' {
        lemma_one_replaced('\'', "&#39;"@);
    } else {
        lemma_untouched(s4, '\'', "&#39;"@);
    }
}

/// A name is made harmless character by character, and every character that means
/// something in HTML is named.
pub proof fn lemma_names_are_harmless(name: Seq<char>, more: char)
    ensures
        recap_manual::attribute_escaped(name.push(more)) == recap_manual::attribute_escaped(name)
            + in_html(more),
        recap_manual::attribute_escaped(Seq::<char>::empty()) == Seq::<char>::empty(),
{
    assert(name.push(more) =~= name + seq![more]);
    lemma_escaped_parts(name, seq![more]);
    lemma_escaped_one(more);
    let nothing = Seq::<char>::empty();
    lemma_marks();
    lemma_untouched(nothing, '&', "&amp;"@);
    lemma_untouched(nothing, '<', "&lt;"@);
    lemma_untouched(nothing, '>', "&gt;"@);
    lemma_untouched(nothing, '"', "&quot;"@);
    lemma_untouched(nothing, '\'', "&#39;"@);
}

/// Whether a text starts and ends with something that shows.
pub open spec fn shows(s: Seq<char>) -> bool {
    s.len() > 0 && !text::is_white(s[0]) && !text::is_white(s.last())
}

/// An account is shown with its first name and then its last, and with its username only
/// where it has neither.
pub proof fn lemma_people_are_shown_by_name(
    first: Seq<char>,
    last: Seq<char>,
    username: Seq<char>,
)
    requires
        shows(first) || first.len() == 0,
        shows(last) || last.len() == 0,
    ensures
        ({
            let shown = users::display_name(first, last, username);
            &&& first.len() > 0 && last.len() > 0 ==> shown == first + " "@ + last
            &&& first.len() > 0 && last.len() == 0 ==> shown == first
            &&& first.len() == 0 && last.len() > 0 ==> shown == last
            &&& first.len() == 0 && last.len() == 0 ==> shown == username
        }),
{
    reveal_strlit(" ");
    let both = first + " "@ + last;
    let n = first.len() as int;
    let (a, b) = text::lemma_trimmed_shape(both);
    assert(text::is_white(' '));
    assert(both[n] == ' ');
    if first.len() > 0 {
        assert(both[0] == first[0] && both[n - 1] == first.last());
    }
    if last.len() > 0 {
        assert(both[n + 1] == last[0] && both.last() == last.last());
    }
    if first.len() > 0 && last.len() > 0 {
        text_laws::lemma_trimmed_already(both);
    } else if first.len() > 0 {
        assert(a == 0) by {
            if a > 0 {
                assert(text::is_white(both[0]));
            }
        }
        assert(b >= n) by {
            if b < n {
                assert(text::is_white(both[n - 1]));
            }
        }
        assert(both.len() == n + 1);
        assert(b == n) by {
            if b > n {
                assert(b == n + 1);
                assert(!text::is_white(both[b - 1]));
            }
        }
        assert(both.subrange(a, b) =~= first);
    } else if last.len() > 0 {
        assert(a <= 1) by {
            if a > 1 {
                assert(text::is_white(both[1]));
            }
        }
        assert(a >= 1) by {
            if a == 0 && b > 0 {
                assert(!text::is_white(both[0]));
            }
        }
        assert(b == both.len()) by {
            if b < both.len() {
                assert(text::is_white(both[both.len() - 1]));
            }
        }
        assert(both.subrange(a, b) =~= last);
    } else {
        assert(both.len() == 1);
        if b > a {
            assert(!text::is_white(both[a]));
        }
    }
}

/// One who leaves by the button is told which group, by its name.
pub proof fn lemma_leaving_names_the_group(title: Seq<char>)
    ensures
        recap_subscription::left_by_button(title) == "已成功取消订阅群组 <b>"@
            + recap_manual::attribute_escaped(title) + "</b> 的定时聊天回顾。"@,
{
}

/// The number of an account is its own, where it can be stored.
pub proof fn lemma_number_of_an_account(user: TelegramUser)
    ensures
        user.id <= i64::MAX <==> users::user_number(user) is Some,
        users::user_number(user) is Some ==> users::user_number(user)->0 == user.id,
{
}

/// A group goes by its title, trimmed.
pub proof fn lemma_groups_go_by_their_title(title: Seq<char>)
    requires
        shows(title),
    ensures
        recap_manual::group_name(title) == title,
{
    text_laws::lemma_trimmed_already(title);
}

/// A webhook is the configured address with one slash and the token behind it, however
/// many slashes the address ends with.
pub proof fn lemma_webhook_ends_with_the_token(address: Seq<char>, token: Seq<char>)
    requires
        address.len() > 0,
        address.last() != '/',
    ensures
        crate::bot::webhook_address(address, token) == address + "/"@ + token,
        crate::bot::webhook_address(address + "/"@, token) == address + "/"@ + token,
{
    reveal_strlit("/");
    let n = address.len() as int;
    text::lemma_trim_end(address, CharClass::Exactly('/'), n);
    assert(address.subrange(0, n) =~= address);
    let slashed = address + "/"@;
    assert(slashed[n] == '/' && slashed[n - 1] == address.last());
    text::lemma_trim_end(slashed, CharClass::Exactly('/'), n);
    assert(slashed.subrange(0, n) =~= address);
}

/// The menu names nine commands, each once.
pub proof fn lemma_menu_names_every_command_once(i: int, j: int)
    requires
        0 <= i < j < 9,
    ensures
        commands::menu().len() == 9,
        commands::menu()[i].0 != commands::menu()[j].0,
        commands::menu()[0].0 == "start"@,
        commands::menu()[1].0 == "help"@,
        commands::menu()[2].0 == "cancel"@,
        commands::menu()[3].0 == "recap"@,
        commands::menu()[4].0 == "configure_recap"@,
        commands::menu()[5].0 == "recap_forwarded_start"@,
        commands::menu()[6].0 == "recap_forwarded"@,
        commands::menu()[7].0 == "subscribe_recap"@,
        commands::menu()[8].0 == "unsubscribe_recap"@,
{
    reveal_strlit("start");
    reveal_strlit("help");
    reveal_strlit("cancel");
    reveal_strlit("recap");
    reveal_strlit("configure_recap");
    reveal_strlit("recap_forwarded_start");
    reveal_strlit("recap_forwarded");
    reveal_strlit("subscribe_recap");
    reveal_strlit("unsubscribe_recap");
    assert("start"@.len() == 5 && "help"@.len() == 4 && "cancel"@.len() == 6 && "recap"@.len() == 5);
    assert("configure_recap"@.len() == 15 && "recap_forwarded_start"@.len() == 21);
    assert("recap_forwarded"@.len() == 15 && "subscribe_recap"@.len() == 15);
    assert("unsubscribe_recap"@.len() == 17);
    assert("start"@[0] == 's' && "recap"@[0] == 'r');
    assert("configure_recap"@[0] == 'c' && "recap_forwarded"@[0] == 'r'
        && "subscribe_recap"@[0] == 's');
}

/// A row of buttons stays where any of its buttons does, in its place, and with the
/// buttons that stay.
pub proof fn lemma_rows_stay_in_order(
    rows: Seq<Seq<Option<Seq<char>>>>,
    more: Seq<Option<Seq<char>>>,
    clicked: Seq<char>,
)
    ensures
        ({
            let before = recap_subscription::staying_rows(rows, clicked, 0);
            let now = recap_subscription::staying_rows(rows.push(more), clicked, 0);
            let left = recap_subscription::staying(more, clicked, 0);
            &&& left.len() == 0 ==> now == before
            &&& left.len() > 0 ==> now == before.push((rows.len() as usize, left))
        }),
{
    lemma_rows_from(rows, more, clicked, 0);
}

proof fn lemma_rows_from(
    rows: Seq<Seq<Option<Seq<char>>>>,
    more: Seq<Option<Seq<char>>>,
    clicked: Seq<char>,
    r: int,
)
    requires
        0 <= r <= rows.len(),
    ensures
        ({
            let before = recap_subscription::staying_rows(rows, clicked, r);
            let now = recap_subscription::staying_rows(rows.push(more), clicked, r);
            let left = recap_subscription::staying(more, clicked, 0);
            now == if left.len() == 0 {
                before
            } else {
                before.push((rows.len() as usize, left))
            }
        }),
    decreases rows.len() - r,
{
    let longer = rows.push(more);
    let left = recap_subscription::staying(more, clicked, 0);
    if r < rows.len() {
        assert(longer[r] == rows[r]);
        lemma_rows_from(rows, more, clicked, r + 1);
    } else {
        assert(longer[r] == more);
        assert(recap_subscription::staying_rows(longer, clicked, r + 1) =~= Seq::empty());
    }
    if left.len() == 0 {
        assert(recap_subscription::staying_rows(longer, clicked, r)
            =~= recap_subscription::staying_rows(rows, clicked, r));
    } else {
        assert(recap_subscription::staying_rows(longer, clicked, r)
            =~= recap_subscription::staying_rows(rows, clicked, r).push(
            (rows.len() as usize, left),
        ));
    }
}

} // verus!
