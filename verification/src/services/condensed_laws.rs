//! What the condensed recap guarantees.

use vstd::prelude::*;

use crate::services::completion::ModelsModel;
use crate::services::condensed::{self, CondensedStepModel, EventModel};
use crate::services::detailed;
use crate::text;

verus! {

proof fn lemma_pieces_free(s: Seq<char>, separator: char, start: int, i: int)
    requires
        0 <= start <= i <= s.len(),
        forall|k: int| start <= k < i ==> s[k] != separator,
    ensures
        forall|n: int|
            0 <= n < text::split_from(s, separator, start, i).len() ==> !(
            #[trigger] text::split_from(s, separator, start, i)[n]).contains(separator),
    decreases s.len() - i,
{
    let all = text::split_from(s, separator, start, i);
    if i >= s.len() {
        assert forall|n: int| 0 <= n < all.len()
            implies !(#[trigger] all[n]).contains(separator) by {
            assert(all[n] == s.subrange(start, s.len() as int));
            if all[n].contains(separator) {
                let k = choose|k: int| 0 <= k < all[n].len() && all[n][k] == separator;
                assert(s[start + k] == separator);
            }
        }
    } else if s[i] == separator {
        lemma_pieces_free(s, separator, i + 1, i + 1);
        let head = s.subrange(start, i);
        let rest = text::split_from(s, separator, i + 1, i + 1);
        assert forall|n: int| 0 <= n < all.len()
            implies !(#[trigger] all[n]).contains(separator) by {
            if n == 0 {
                if head.contains(separator) {
                    let k = choose|k: int| 0 <= k < head.len() && head[k] == separator;
                    assert(s[start + k] == separator);
                }
            } else {
                assert(all[n] == rest[n - 1]);
            }
        }
    } else {
        lemma_pieces_free(s, separator, start, i + 1);
        assert(all == text::split_from(s, separator, start, i + 1));
    }
}

proof fn lemma_line_free(s: Seq<char>, n: int)
    requires
        0 <= n < text::lines_spec(s).len(),
    ensures
        !text::lines_spec(s)[n].contains('\n'),
{
    lemma_pieces_free(s, '\n', 0, 0);
    text::lemma_some_piece(s, '\n', 0, 0);
    let piece = text::pieces(s, '\n')[n];
    let line = text::lines_spec(s)[n];
    if line.contains('\n') {
        let k = choose|k: int| 0 <= k < line.len() && line[k] == '\n';
        assert(piece[k] == '\n');
    }
}

proof fn lemma_filled_lines(lines: Seq<Seq<char>>, i: int)
    requires
        0 <= i <= lines.len(),
        forall|n: int| 0 <= n < lines.len() ==> !(#[trigger] lines[n]).contains('\n'),
    ensures
        forall|n: int|
            0 <= n < condensed::filled_lines(lines, i).len() ==> ({
                let line = #[trigger] condensed::filled_lines(lines, i)[n];
                line.len() > 0 && !line.contains('\n') && text::trimmed(line) == line
            }),
    decreases lines.len() - i,
{
    if i < lines.len() {
        lemma_filled_lines(lines, i + 1);
        let all = condensed::filled_lines(lines, i);
        let rest = condensed::filled_lines(lines, i + 1);
        if !text::is_blank(lines[i]) {
            let line = text::trimmed(lines[i]);
            text::lemma_trim_idempotent(lines[i]);
            let (from, to) = text::lemma_trimmed_shape(lines[i]);
            if line.contains('\n') {
                let k = choose|k: int| 0 <= k < line.len() && line[k] == '\n';
                assert(lines[i][from + k] == '\n');
            }
            assert forall|n: int| 0 <= n < all.len() implies ({
                let found = #[trigger] all[n];
                found.len() > 0 && !found.contains('\n') && text::trimmed(found) == found
            }) by {
                if n > 0 {
                    assert(all[n] == rest[n - 1]);
                }
            }
        }
    }
}

/// Whether a line is fit to be shown as the condensed recap.
pub open spec fn presentable(line: Seq<char>) -> bool {
    &&& line.len() > 0
    &&& !line.contains('\n')
    &&& text::trimmed(line) == line
    &&& !"#"@.is_prefix_of(line)
    &&& !"- "@.is_prefix_of(line)
    &&& !"* "@.is_prefix_of(line)
}

/// An output in shape is one trimmed line that is neither a heading nor a list item.
pub proof fn lemma_judged_is_presentable(content: Seq<char>, shape: Option<bool>)
    requires
        condensed::judged(content, shape) is Ok,
    ensures
        presentable(condensed::judged(content, shape)->Ok_0),
{
    let candidate = text::trimmed(content);
    let plain = text::replaced(text::replaced(candidate, "\r\n"@, "\n"@), "\r"@, "\n"@);
    let lines = text::lines_spec(plain);
    assert forall|n: int| 0 <= n < lines.len() implies !(#[trigger] lines[n]).contains('\n') by {
        lemma_line_free(plain, n);
    }
    lemma_filled_lines(lines, 0);
    assert(condensed::output_lines(candidate)[0].len() > 0);
}

proof fn lemma_event_line(event: EventModel)
    ensures
        condensed::event_line(event) is Ok ==> presentable(condensed::event_line(event)->Ok_0),
        condensed::check_line(event) is Ok ==> presentable(condensed::check_line(event)->Ok_0),
{
    let reply = condensed::reply_of(event);
    let content = condensed::outcome_text(event.outcome);
    if condensed::judged(content, event.shape) is Ok {
        lemma_judged_is_presentable(content, event.shape);
    }
}

proof fn lemma_first_line(events: Seq<EventModel>, i: int, end: int)
    ensures
        match condensed::first_line(events, i, end) {
            Some(k) => presentable(condensed::event_line(events[k])->Ok_0),
            None => true,
        },
    decreases end - i,
{
    if !(i < 0 || i >= end || i >= events.len()) {
        if condensed::event_line(events[i]) is Ok {
            lemma_event_line(events[i]);
        } else {
            lemma_first_line(events, i + 1, end);
        }
    }
}

proof fn lemma_first_check(events: Seq<EventModel>, i: int, end: int)
    ensures
        match condensed::first_check(events, i, end) {
            Some(k) => presentable(condensed::check_line(events[k])->Ok_0),
            None => true,
        },
    decreases end - i,
{
    if !(i < 0 || i >= end || i >= events.len()) {
        if condensed::check_line(events[i]) is Ok {
            lemma_event_line(events[i]);
        } else {
            lemma_first_check(events, i + 1, end);
        }
    }
}

/// The most completions that one condensed recap may ask for.
pub open spec fn most_asked(models: ModelsModel) -> nat {
    2 + models.condensed_backups.len() + models.check_backups.len()
}

/// A condensed recap of some text that is handed out is presentable, and only so many
/// completions are ever asked for: the primary model, its backups, the check model and
/// its backups, each at most once.
pub proof fn lemma_condensed_steps(
    models: ModelsModel,
    content: Seq<char>,
    events: Seq<EventModel>,
)
    requires
        content.len() > 0,
    ensures
        match condensed::condensed_step(models, content, events) {
            CondensedStepModel::Ask(_) => events.len() < most_asked(models),
            CondensedStepModel::Finished { content, record, .. } => presentable(content)
                && record is Some,
            CondensedStepModel::Failed { .. } => true,
        },
{
    let count = models.condensed_backups.len() as int;
    if events.len() > 0 {
        lemma_event_line(events[0]);
        let tried = detailed::smaller(events.len() - 1, count);
        lemma_first_line(events, 1, 1 + tried);
        lemma_repair_steps(models, events, 1 + count);
        let text = condensed::outcome_text(events[0].outcome);
        if condensed::judged(text, events[0].shape) is Ok {
            lemma_judged_is_presentable(text, events[0].shape);
        }
    }
}

proof fn lemma_repair_steps(models: ModelsModel, events: Seq<EventModel>, from: int)
    requires
        from >= 1,
    ensures
        forall|reply, by_backup, raw, error, trace|
            match #[trigger] condensed::repaired(
                models,
                reply,
                by_backup,
                raw,
                error,
                trace,
                events,
                from,
            ) {
                CondensedStepModel::Ask(_) => events.len() < from + 1 + models.check_backups.len(),
                CondensedStepModel::Finished { content, record, .. } => presentable(content)
                    && record is Some,
                CondensedStepModel::Failed { .. } => true,
            },
{
    if events.len() > from {
        lemma_event_line(events[from]);
    }
    let backups = models.check_backups.len() as int;
    let start = if models.force_check_failure {
        from
    } else {
        from + 1
    };
    let tried = detailed::smaller(
        if events.len() <= start {
            0
        } else {
            events.len() - start
        },
        backups,
    );
    lemma_first_check(events, start, start + tried);
}

} // verus!
