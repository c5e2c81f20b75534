//! What holds of the visible part of a recap: the chat, the hours, the one who asked, the
//! condensed recap and the models stand in it.

use vstd::prelude::*;

use crate::numeral;
use crate::services::rich_recap::{self, RecapStyle, SummaryInputs};
use crate::services::traces::{CondensedTrace, GenerationTrace};
use crate::text;

verus! {

/// The blocks that a recap is opened with.
pub open spec fn blocks_of(inputs: SummaryInputs) -> Seq<Seq<char>> {
    rich_recap::summary_blocks(
        inputs,
        rich_recap::styled(
            rich_recap::defused(rich_recap::displayed_summary(inputs.condensed_summary)),
            RecapStyle::Condensed,
        ),
    )
}

/// Where blocks are joined, the first comes first and the last comes last.
proof fn lemma_join_ends(parts: Seq<Seq<char>>, separator: Seq<char>)
    requires
        parts.len() > 0,
    ensures
        parts[0].is_prefix_of(text::join_spec(parts, separator)),
        parts.last().is_suffix_of(text::join_spec(parts, separator)),
    decreases parts.len(),
{
    let joined = text::join_spec(parts, separator);
    if parts.len() > 1 {
        let front = parts.drop_last();
        lemma_join_ends(front, separator);
        let head = text::join_spec(front, separator);
        assert(front[0] == parts[0]);
        assert(joined.subrange(0, parts[0].len() as int) =~= head.subrange(
            0,
            parts[0].len() as int,
        ));
        assert(joined.subrange(joined.len() - parts.last().len(), joined.len() as int)
            =~= parts.last());
    }
}

/// A recap is headed with the title of its chat, in brackets where it has none.
pub proof fn lemma_headed_with_the_title(inputs: SummaryInputs)
    ensures
        ({
            let title = text::trimmed(inputs.title);
            let opened = rich_recap::visible_prefix(inputs);
            &&& title.len() == 0 ==> "# 聊天回顧"@.is_prefix_of(opened)
            &&& title.len() > 0 && "【"@.is_prefix_of(title) && "】"@.is_suffix_of(title) ==> ("# "@
                + rich_recap::escaped(title) + "聊天回顧"@).is_prefix_of(opened)
            &&& title.len() > 0 && !("【"@.is_prefix_of(title) && "】"@.is_suffix_of(title)) ==> (
            "# 【"@ + rich_recap::escaped(title) + "】聊天回顧"@).is_prefix_of(opened)
        }),
{
    let blocks = blocks_of(inputs);
    lemma_join_ends(blocks, "\n\n"@);
    assert(blocks[0] == rich_recap::heading(inputs.title));
}

/// An automatic recap says so, with the hours that it covers.
pub proof fn lemma_says_automatic(inputs: SummaryInputs)
    requires
        inputs.automatic,
    ensures
        text::occurs(
            rich_recap::visible_prefix(inputs),
            if inputs.hours > 0 {
                "_自動產生 **"@ + numeral::decimal(inputs.hours as int) + " 小時**總結_"@
            } else {
                "_自動產生_"@
            },
        ),
{
    let blocks = blocks_of(inputs);
    text::lemma_join_holds(blocks, "\n\n"@, 1);
}

/// How someone is named: by name, and with a link to the account where its number is
/// known.
pub open spec fn mention_of(name: Seq<char>, user_id: int) -> Seq<char> {
    if user_id > 0 {
        "["@ + rich_recap::escaped(text::trimmed(name)) + "](tg://user?id="@ + numeral::decimal(
            user_id,
        ) + ")"@
    } else {
        rich_recap::escaped(text::trimmed(name))
    }
}

/// A recap on demand says who asked for it, and for how many hours.
pub proof fn lemma_says_who_asked(inputs: SummaryInputs)
    requires
        !inputs.automatic,
        !text::is_blank(inputs.initiator_name),
    ensures
        text::occurs(
            rich_recap::visible_prefix(inputs),
            if inputs.hours > 0 {
                "_用戶 "@ + mention_of(inputs.initiator_name, inputs.initiator_user_id as int)
                    + " 發起 **"@ + numeral::decimal(inputs.hours as int) + " 小時**總結_"@
            } else {
                "_由用戶 "@ + mention_of(inputs.initiator_name, inputs.initiator_user_id as int)
                    + " 發起_"@
            },
        ),
{
    let blocks = blocks_of(inputs);
    text::lemma_join_holds(blocks, "\n\n"@, 1);
}

/// How many blocks come before the title of the condensed recap.
pub open spec fn introduced(inputs: SummaryInputs) -> int {
    1 + (if inputs.automatic || !text::is_blank(inputs.initiator_name) || inputs.initiator_user_id
        > 0 {
        1int
    } else {
        0
    }) + (if text::is_blank(inputs.subscription_chat_title) {
        0int
    } else {
        1
    })
}

/// A subscriber is told which chat a recap is from, and no one else is.
pub proof fn lemma_says_what_was_subscribed(inputs: SummaryInputs)
    ensures
        !text::is_blank(inputs.subscription_chat_title) ==> text::occurs(
            rich_recap::visible_prefix(inputs),
            "> 📬 這是您訂閱的 **"@ + rich_recap::escaped(inputs.subscription_chat_title)
                + "** 群組定時聊天回顧。"@,
        ),
        blocks_of(inputs).len() >= introduced(inputs) + 3,
        blocks_of(inputs)[introduced(inputs)] == "## 濃縮總結"@,
{
    let blocks = blocks_of(inputs);
    if !text::is_blank(inputs.subscription_chat_title) {
        text::lemma_join_holds(blocks, "\n\n"@, introduced(inputs) - 1);
    }
}

/// The condensed recap stands in the visible part, in its own style, under its title.
pub proof fn lemma_shows_the_condensed_recap(inputs: SummaryInputs)
    ensures
        ({
            let shown = rich_recap::styled(
                rich_recap::defused(rich_recap::displayed_summary(inputs.condensed_summary)),
                RecapStyle::Condensed,
            );
            let blocks = blocks_of(inputs);
            !text::is_blank(shown) ==> text::occurs(rich_recap::visible_prefix(inputs), shown)
                && blocks[introduced(inputs)] == "## 濃縮總結"@ && blocks[introduced(inputs) + 1]
                == shown
        }),
{
    let shown = rich_recap::styled(
        rich_recap::defused(rich_recap::displayed_summary(inputs.condensed_summary)),
        RecapStyle::Condensed,
    );
    let blocks = blocks_of(inputs);
    lemma_says_what_was_subscribed(inputs);
    if !text::is_blank(shown) {
        assert(blocks[introduced(inputs) + 1] == shown);
        text::lemma_join_holds(blocks, "\n\n"@, introduced(inputs) + 1);
    }
}

/// The notice on links that are missing comes where it is asked for, and adds nothing
/// else.
pub proof fn lemma_notice_on_general_groups(inputs: SummaryInputs)
    requires
        !inputs.general_group_notice,
    ensures
        ({
            let noticed = SummaryInputs { general_group_notice: true, ..inputs };
            let notice = "> 💡 一般群組來源暫時不顯示原訊息引用；升級為 supergroup 後即可建立連結。"@;
            &&& text::occurs(rich_recap::visible_prefix(noticed), notice)
            &&& blocks_of(noticed).len() == blocks_of(inputs).len() + 1
            &&& blocks_of(noticed).remove(blocks_of(inputs).len() - 2) == blocks_of(inputs)
        }),
{
    let noticed = SummaryInputs { general_group_notice: true, ..inputs };
    let with = blocks_of(noticed);
    let without = blocks_of(inputs);
    let at = without.len() - 2;
    assert(with[at] == "> 💡 一般群組來源暫時不顯示原訊息引用；升級為 supergroup 後即可建立連結。"@);
    text::lemma_join_holds(with, "\n\n"@, at);
    assert(with.remove(at) =~= without);
}

/// The models stand at the end: those of the condensed recap, those of the detailed one,
/// and those of the check, each in its line.
pub proof fn lemma_models_stand_at_the_end(inputs: SummaryInputs)
    ensures
        ({
            let opened = rich_recap::visible_prefix(inputs);
            let checked = "> - Check："@ + rich_recap::escaped(
                rich_recap::check_models(inputs.condensed_trace),
            );
            &&& text::occurs(
                opened,
                "> - 濃縮總結："@ + rich_recap::escaped(
                    rich_recap::condensed_models(inputs.condensed_trace),
                ),
            )
            &&& text::occurs(
                opened,
                "> - 詳細總結："@ + rich_recap::escaped(
                    rich_recap::detailed_models(inputs.recap_trace),
                ),
            )
            &&& checked.is_suffix_of(opened)
        }),
{
    let blocks = blocks_of(inputs);
    let opened = rich_recap::visible_prefix(inputs);
    lemma_join_ends(blocks, "\n\n"@);
    let info = blocks.last();
    assert(info == rich_recap::model_info(inputs.condensed_trace, inputs.recap_trace));
    let lines = seq![
        "> **模型資訊**"@,
        ">"@,
        "> - 濃縮總結："@ + rich_recap::escaped(
            rich_recap::condensed_models(inputs.condensed_trace),
        ),
        "> - 詳細總結："@ + rich_recap::escaped(rich_recap::detailed_models(inputs.recap_trace)),
        "> - Check："@ + rich_recap::escaped(rich_recap::check_models(inputs.condensed_trace)),
    ];
    lemma_join_ends(lines, "\n"@);
    text::lemma_join_holds(lines, "\n"@, 2);
    text::lemma_join_holds(lines, "\n"@, 3);
    let front = opened.subrange(0, opened.len() - info.len());
    assert(front + info + Seq::<char>::empty() =~= opened);
    text::lemma_occurs_within(front, info, Seq::empty(), lines[2]);
    text::lemma_occurs_within(front, info, Seq::empty(), lines[3]);
    let checked = lines.last();
    assert(opened.subrange(opened.len() - checked.len(), opened.len() as int) =~= info.subrange(
        info.len() - checked.len(),
        info.len() as int,
    ));
}

/// Whether a name says which model was used.
pub open spec fn tells(name: Seq<char>) -> bool {
    !text::is_blank(name) && text::trimmed(name) != "unknown-model"@
}

/// The models that are named are those that did the work: the primary one where it did,
/// and the backup where it was used and succeeded.
pub proof fn lemma_models_that_did_the_work(trace: GenerationTrace)
    requires
        tells(trace.primary_used_model),
    ensures
        ({
            let shown = rich_recap::generation_models(trace);
            let primary = text::trimmed(trace.primary_used_model);
            let backup = text::trimmed(trace.backup_used_model);
            &&& !(trace.backup_used && trace.backup_succeeded) ==> shown == primary
            &&& trace.backup_used && trace.backup_succeeded && tells(trace.backup_used_model)
                && backup != primary ==> shown == primary + "、"@ + backup
            &&& trace.backup_used && trace.backup_succeeded && backup == primary
                && tells(trace.backup_used_model) ==> shown == primary
        }),
{
    let primary = text::trimmed(trace.primary_used_model);
    let backup = text::trimmed(trace.backup_used_model);
    let one = rich_recap::with_model(Seq::empty(), trace.primary_used_model);
    assert(one =~= seq![primary]);
    assert(one.contains(primary)) by {
        assert(one[0] == primary);
    }
    assert(text::join_spec(one, "、"@) == primary);
    if trace.backup_used && trace.backup_succeeded && tells(trace.backup_used_model) {
        if backup != primary {
            assert(!one.contains(backup));
            let two = rich_recap::with_model(one, trace.backup_used_model);
            assert(two =~= seq![primary, backup]);
            assert(two.drop_last() =~= one);
            assert(text::join_spec(two, "、"@) == primary + "、"@ + backup);
        }
    }
}

/// Where nothing worked, that is said; where nothing is known to have been used, the
/// configured model is named.
pub proof fn lemma_models_that_failed(trace: GenerationTrace)
    requires
        trace.primary_used_model.len() == 0,
        !trace.backup_used,
    ensures
        trace.primary_failed ==> rich_recap::generation_models(trace) == "資訊不可用"@,
        !trace.primary_failed && !text::is_blank(trace.primary_model)
            ==> rich_recap::generation_models(trace) == trace.primary_model,
{
    assert(trace.primary_used_model =~= Seq::<char>::empty());
}

/// A backup whose recap the check repaired counts as one that succeeded.
pub proof fn lemma_repaired_backups_count(trace: CondensedTrace)
    requires
        tells(trace.generation.primary_used_model),
        tells(trace.generation.backup_used_model),
        trace.generation.backup_used,
        text::trimmed(trace.generation.backup_used_model) != text::trimmed(
            trace.generation.primary_used_model,
        ),
    ensures
        rich_recap::condensed_models(Some(trace)) == if trace.generation.backup_succeeded
            || trace.check.succeeded {
            text::trimmed(trace.generation.primary_used_model) + "、"@ + text::trimmed(
                trace.generation.backup_used_model,
            )
        } else {
            text::trimmed(trace.generation.primary_used_model)
        },
{
    lemma_models_that_did_the_work(trace.generation);
    lemma_models_that_did_the_work(rich_recap::repaired_generation(trace));
}

/// The check names the model that is set for it, and where it was tried, those that it
/// used.
pub proof fn lemma_check_models(trace: CondensedTrace)
    ensures
        text::is_blank(trace.check.generation.primary_model) ==> rich_recap::check_models(
            Some(trace),
        ) == "未設定"@,
        !text::is_blank(trace.check.generation.primary_model) && !trace.check.attempted
            ==> rich_recap::check_models(Some(trace)) == text::trimmed(
            trace.check.generation.primary_model,
        ),
        !text::is_blank(trace.check.generation.primary_model) && trace.check.attempted && tells(
            trace.check.generation.primary_used_model,
        ) && !trace.check.generation.backup_used ==> rich_recap::check_models(Some(trace))
            == text::trimmed(trace.check.generation.primary_used_model),
{
    if tells(trace.check.generation.primary_used_model) {
        lemma_models_that_did_the_work(trace.check.generation);
    }
}

} // verus!
