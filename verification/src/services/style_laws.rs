//! What holds of the styles of recaps: what becomes of a line, that lines keep their order,
//! and how details and stand-ins are shown.

use vstd::prelude::*;

use crate::services::autorecap::{self, CondensedOutcome};
use crate::services::rate_limit::{self, LimiterModel};
use crate::services::rich_recap::{self, RecapStyle};
use crate::services::rich_split;
use crate::text::{self, CharClass};
use crate::text_laws;

verus! {

/// Whether a text starts and ends with something that shows and holds no pipe.
pub open spec fn plain(s: Seq<char>) -> bool {
    &&& s.len() > 0
    &&& !text::is_white(s[0])
    &&& !text::is_white(s.last())
    &&& !s.contains('|')
}

proof fn lemma_no_pipe(s: Seq<char>)
    requires
        !s.contains('|'),
    ensures
        text::replaced(s, "|"@, "\\|"@) == s,
{
    reveal_strlit("|");
    if text::occurs(s, "|"@) {
        let k = choose|k: int| text::matches_at(s, "|"@, k);
        assert(s.subrange(k, k + 1)[0] == '|');
        assert(s.contains(s[k]));
    }
    text_laws::lemma_nothing_to_replace(s, "|"@, "\\|"@);
}

/// A line of a detailed recap that is neither a quote nor an item stays as it is, and a
/// pipe in it is escaped.
pub proof fn lemma_detailed_lines(s: Seq<char>)
    requires
        s.len() > 0,
        !text::is_white(s[0]),
        !text::is_white(s.last()),
        s[0] != '>',
        s[0] != '*',
    ensures
        rich_recap::detailed_line(s) == text::replaced(s, "|"@, "\\|"@),
        !s.contains('|') ==> rich_recap::detailed_line(s) == s,
{
    reveal_strlit(">");
    reveal_strlit("* ");
    text_laws::lemma_trimmed_already(s);
    if ">"@.is_prefix_of(s) {
        assert(s.subrange(0, 1)[0] == '>');
    }
    if "* "@.is_prefix_of(s) {
        assert(s.subrange(0, 2)[0] == '*');
    }
    if !s.contains('|') {
        lemma_no_pipe(s);
    }
}

/// An item that is marked with a star is marked with a dash.
pub proof fn lemma_detailed_items(item: Seq<char>)
    requires
        plain(item),
    ensures
        rich_recap::detailed_line("* "@ + item) == "- "@ + item,
        rich_recap::condensed_line("* "@ + item) == "- "@ + item,
{
    reveal_strlit(">");
    reveal_strlit("* ");
    reveal_strlit("- ");
    reveal_strlit("# ");
    reveal_strlit("## ");
    let line = "* "@ + item;
    let shown = "- "@ + item;
    assert(line[0] == '*' && line.last() == item.last());
    assert(!text::is_white('*') && !text::is_white('-'));
    text_laws::lemma_trimmed_already(line);
    text_laws::lemma_trimmed_already(item);
    if ">"@.is_prefix_of(line) {
        assert(line.subrange(0, 1)[0] == '>');
    }
    assert(line.subrange(0, 2) =~= "* "@);
    assert(line.subrange(2, line.len() as int) =~= item);
    assert(text::trim_start_class(line, CharClass::Blank) == line);
    assert(line.subrange(0, 0) + "- "@ + item =~= shown);
    assert(!shown.contains('|')) by {
        if shown.contains('|') {
            let k = choose|k: int| 0 <= k < shown.len() && shown[k] == '|';
            assert(k >= 2);
            assert(item.contains(item[k - 2]));
        }
    }
    lemma_no_pipe(shown);
    assert(shown[0] == '-' && shown.last() == item.last());
    text_laws::lemma_trimmed_already(shown);
    if "# "@.is_prefix_of(shown) {
        assert(shown.subrange(0, 2)[0] == '#');
    }
    if "## "@.is_prefix_of(shown) {
        assert(shown.subrange(0, 3)[0] == '#');
    }
}

/// A quote in a detailed recap is opened up.
pub proof fn lemma_detailed_quotes(quoted: Seq<char>)
    requires
        plain(quoted),
        quoted[0] != '>',
        quoted[0] != '*',
    ensures
        rich_recap::detailed_line("> "@ + quoted) == quoted,
{
    reveal_strlit(">");
    reveal_strlit("> ");
    reveal_strlit("* ");
    let line = "> "@ + quoted;
    assert(line[0] == '>' && line.last() == quoted.last());
    assert(!text::is_white('>'));
    text_laws::lemma_trimmed_already(line);
    assert(line.subrange(0, 1) =~= ">"@);
    text::lemma_trim_start(line, CharClass::Exactly('>'), 1);
    let opened = line.subrange(1, line.len() as int);
    assert(opened[0] == ' ');
    let (a, b) = text::lemma_trimmed_shape(opened);
    assert(text::is_white(' '));
    assert(opened[1] == quoted[0] && opened.last() == quoted.last());
    assert(a == 1) by {
        if a > 1 {
            assert(text::is_white(opened[1]));
        }
    }
    assert(b == opened.len()) by {
        if b < opened.len() {
            assert(text::is_white(opened[opened.len() - 1]));
        }
    }
    assert(opened.subrange(1, opened.len() as int) =~= quoted);
    text_laws::lemma_trimmed_already(quoted);
    if "* "@.is_prefix_of(quoted) {
        assert(quoted.subrange(0, 2)[0] == '*');
    }
    lemma_no_pipe(quoted);
}

/// A heading of either upper level in a condensed recap becomes one of the third.
pub proof fn lemma_condensed_headings(title: Seq<char>)
    requires
        plain(title),
        title[0] != '#',
    ensures
        rich_recap::condensed_line("# "@ + title) == "### "@ + title,
        rich_recap::condensed_line("## "@ + title) == "### "@ + title,
{
    lemma_condensed_heading("# "@, 1, title);
    lemma_condensed_heading("## "@, 2, title);
}

proof fn lemma_condensed_heading(mark: Seq<char>, level: int, title: Seq<char>)
    requires
        plain(title),
        title[0] != '#',
        mark == "# "@ && level == 1 || mark == "## "@ && level == 2,
    ensures
        rich_recap::condensed_line(mark + title) == "### "@ + title,
{
    reveal_strlit("* ");
    reveal_strlit("# ");
    reveal_strlit("## ");
    let line = mark + title;
    assert(line[0] == '#' && line.last() == title.last());
    assert(!text::is_white('#'));
    text_laws::lemma_trimmed_already(line);
    if "* "@.is_prefix_of(line) {
        assert(line.subrange(0, 2)[0] == '*');
    }
    assert(line.subrange(0, mark.len() as int) =~= mark);
    assert(mark.is_prefix_of(line));
    assert(line[level] == ' ');
    text::lemma_trim_start(line, CharClass::Exactly('#'), level);
    let opened = line.subrange(level, line.len() as int);
    let (a, b) = text::lemma_trimmed_shape(opened);
    assert(opened[0] == ' ' && text::is_white(' '));
    assert(opened[1] == title[0] && opened.last() == title.last());
    assert(a == 1) by {
        if a > 1 {
            assert(text::is_white(opened[1]));
        }
    }
    assert(b == opened.len()) by {
        if b < opened.len() {
            assert(text::is_white(opened[opened.len() - 1]));
        }
    }
    assert(opened.subrange(1, opened.len() as int) =~= title);
}

/// Lines keep their order; a fence is left out, and every other line is styled on its own.
pub proof fn lemma_lines_in_order(lines: Seq<Seq<char>>, more: Seq<char>, style: RecapStyle)
    ensures
        ({
            let fence = "```"@.is_prefix_of(text::trimmed(more)) || "~~~"@.is_prefix_of(
                text::trimmed(more),
            );
            let before = rich_recap::styled_lines_from(lines, style, 0);
            let now = rich_recap::styled_lines_from(lines.push(more), style, 0);
            &&& fence ==> now == before
            &&& !fence ==> now == before.push(
                text::trim_end_class(rich_recap::styled_line(more, style), CharClass::Blank),
            )
        }),
{
    lemma_lines_from(lines, more, style, 0);
}

proof fn lemma_lines_from(lines: Seq<Seq<char>>, more: Seq<char>, style: RecapStyle, i: int)
    requires
        0 <= i <= lines.len(),
    ensures
        rich_recap::styled_lines_from(lines.push(more), style, i)
            == if rich_recap::fence_marker(text::trimmed(more)) is Some {
            rich_recap::styled_lines_from(lines, style, i)
        } else {
            rich_recap::styled_lines_from(lines, style, i).push(
                text::trim_end_class(rich_recap::styled_line(more, style), CharClass::Blank),
            )
        },
    decreases lines.len() - i,
{
    let longer = lines.push(more);
    if i < lines.len() {
        assert(longer[i] == lines[i]);
        lemma_lines_from(lines, more, style, i + 1);
    } else {
        assert(longer[i] == more);
        assert(rich_recap::styled_lines_from(longer, style, i + 1) =~= Seq::<Seq<char>>::empty());
    }
    if rich_recap::fence_marker(text::trimmed(more)) is Some {
        assert(rich_recap::styled_lines_from(longer, style, i) =~= rich_recap::styled_lines_from(
            lines,
            style,
            i,
        ));
    } else {
        assert(rich_recap::styled_lines_from(longer, style, i) =~= rich_recap::styled_lines_from(
            lines,
            style,
            i,
        ).push(text::trim_end_class(rich_recap::styled_line(more, style), CharClass::Blank)));
    }
}

/// Details stand in containers that can be folded, in order, with what opens the recap
/// before the first.
pub proof fn lemma_details_are_folded(chunks: Seq<Seq<char>>, prefix: Seq<char>, i: int)
    requires
        0 <= i < chunks.len(),
    ensures
        ({
            let wrapped = rich_split::contained(chunks, prefix);
            let open = "<details><summary>詳細總結</summary>\n\n"@;
            let close = "\n\n</details>"@;
            &&& wrapped.len() == chunks.len()
            &&& i == 0 ==> wrapped[i] == prefix + open + chunks[i] + close
            &&& i > 0 ==> wrapped[i] == open + chunks[i] + close
        }),
{
    let wrapped = rich_split::contained(chunks, prefix);
    let open = "<details><summary>詳細總結</summary>\n\n"@;
    let close = "\n\n</details>"@;
    if i > 0 {
        assert(wrapped[i] =~= open + chunks[i] + close);
    }
}

/// The condensed recap that is shown is the one that was made; where there is none, the
/// beginning of the details stands in, and where there are none, a default does.
pub proof fn lemma_what_stands_in(
    outcome: CondensedOutcome,
    summaries: Seq<Seq<char>>,
    default: Seq<char>,
)
    ensures
        outcome is Generated && !text::is_blank(outcome->Generated_0.content@)
            ==> autorecap::shown_condensed(outcome, summaries, default) == text::trimmed(
            outcome->Generated_0.content@,
        ),
        outcome is Failed || text::is_blank(outcome->Generated_0.content@)
            ==> autorecap::shown_condensed(outcome, summaries, default)
            == rich_split::fallback_summary(summaries, default),
{
}

/// The chats that are queued are those whose rate is known, in order, each with its own.
pub proof fn lemma_chats_are_queued_in_order(
    chat_ids: Seq<i64>,
    rates: Seq<Option<i64>>,
    chat_id: i64,
    rate: Option<i64>,
)
    requires
        rates.len() == chat_ids.len(),
    ensures
        autorecap::ready_chats(chat_ids.push(chat_id), rates.push(rate), 0) == match rate {
            Some(known) => autorecap::ready_chats(chat_ids, rates, 0).push((chat_id, known)),
            None => autorecap::ready_chats(chat_ids, rates, 0),
        },
{
    lemma_queued_from(chat_ids, rates, chat_id, rate, 0);
}

proof fn lemma_queued_from(
    chat_ids: Seq<i64>,
    rates: Seq<Option<i64>>,
    chat_id: i64,
    rate: Option<i64>,
    i: int,
)
    requires
        rates.len() == chat_ids.len(),
        0 <= i <= rates.len(),
    ensures
        autorecap::ready_chats(chat_ids.push(chat_id), rates.push(rate), i) == match rate {
            Some(known) => autorecap::ready_chats(chat_ids, rates, i).push((chat_id, known)),
            None => autorecap::ready_chats(chat_ids, rates, i),
        },
    decreases rates.len() - i,
{
    let ids = chat_ids.push(chat_id);
    let all = rates.push(rate);
    if i < rates.len() {
        assert(ids[i] == chat_ids[i] && all[i] == rates[i]);
        lemma_queued_from(chat_ids, rates, chat_id, rate, i + 1);
    } else {
        assert(ids[i] == chat_id && all[i] == rate);
        assert(autorecap::ready_chats(ids, all, i + 1) =~= Seq::<(i64, i64)>::empty());
    }
    match rate {
        Some(known) => {
            assert(autorecap::ready_chats(ids, all, i) =~= autorecap::ready_chats(
                chat_ids,
                rates,
                i,
            ).push((chat_id, known)));
        },
        None => {
            assert(autorecap::ready_chats(ids, all, i) =~= autorecap::ready_chats(
                chat_ids,
                rates,
                i,
            ));
        },
    }
}

/// The first permission is issued at once; the next one a period later, unless the
/// limiter was idle for longer than its slack allows, which it then starts from.
pub proof fn lemma_permissions_in_time(limiter: LimiterModel, now: int, issued: int)
    requires
        limiter.per_request >= 0,
        limiter.max_slack >= 0,
        now >= limiter.max_slack,
    ensures
        limiter.issued is None ==> rate_limit::next_issue(limiter, now) == now,
        limiter.issued == Some(issued) && now - issued <= limiter.per_request + limiter.max_slack
            ==> rate_limit::next_issue(limiter, now) == issued + limiter.per_request,
        limiter.issued == Some(issued) && limiter.max_slack > 0 && now - issued
            > limiter.per_request + limiter.max_slack ==> rate_limit::next_issue(limiter, now)
            == now - limiter.max_slack,
        limiter.issued == Some(issued) && limiter.max_slack == 0 ==> rate_limit::next_issue(
            limiter,
            now,
        ) == issued + limiter.per_request,
{
}

/// So many permissions fit into their time, and no more would.
pub proof fn lemma_period_of_a_rate(rate: u32, per: int)
    requires
        per >= 0,
        rate > 0,
    ensures
        rate_limit::period(rate, per) * rate <= per < (rate_limit::period(rate, per) + 1) * rate,
        rate_limit::period(0, per) == per,
{
    let r = rate as int;
    assert((per / r) * r <= per < (per / r + 1) * r) by (nonlinear_arith)
        requires
            r > 0,
    ;
}

} // verus!
