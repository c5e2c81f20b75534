//! What holds of recorded messages: whose they are, whom they answer, and what is kept of
//! their text.

use vstd::prelude::*;

use crate::db::models::NewHistoryModel;
use crate::reply::Reply;
use crate::services::message_capture::{
    self, CaptureModel, CapturedEntity, CapturedEntityKind, CapturedMessage, CapturedUser,
    EditedModel, LinkModel, LinkStepModel, PreviewMeta, TextProgress, TextStepModel,
};
use crate::utf16;

verus! {

// ---------------------------------------------------------------------------
// Authors and replies
// ---------------------------------------------------------------------------

/// Whether a row answers nothing.
pub open spec fn answers_nothing(row: NewHistoryModel) -> bool {
    &&& row.replied_to_message_id == 0
    &&& row.replied_to_user_id == 0
    &&& row.replied_to_full_name.len() == 0
    &&& row.replied_to_username.len() == 0
    &&& row.replied_to_text.len() == 0
    &&& row.replied_to_chat_type.len() == 0
}

/// Whether a row answers a message: the message, its author and its chat are named.
pub open spec fn answers(row: NewHistoryModel, reply: CapturedMessage) -> bool {
    &&& row.replied_to_message_id == reply.message_id
    &&& row.replied_to_user_id == reply.from.id
    &&& row.replied_to_username == reply.from.username@
    &&& row.replied_to_full_name == message_capture::full_name(
        reply.from.first_name@,
        reply.from.last_name@,
    )
    &&& row.replied_to_chat_type == reply.chat.kind@
    &&& row.replied_to_text.len() > 0
}

/// Whether two rows answer the same.
pub open spec fn answers_alike(a: NewHistoryModel, b: NewHistoryModel) -> bool {
    &&& a.replied_to_message_id == b.replied_to_message_id
    &&& a.replied_to_user_id == b.replied_to_user_id
    &&& a.replied_to_full_name == b.replied_to_full_name
    &&& a.replied_to_username == b.replied_to_username
    &&& a.replied_to_text == b.replied_to_text
    &&& a.replied_to_chat_type == b.replied_to_chat_type
}

/// Whether two rows have the same author, place, time and text.
pub open spec fn says_alike(a: NewHistoryModel, b: NewHistoryModel) -> bool {
    &&& a.chat_id == b.chat_id
    &&& a.chat_type == b.chat_type
    &&& a.chat_title == b.chat_title
    &&& a.message_id == b.message_id
    &&& a.user_id == b.user_id
    &&& a.username == b.username
    &&& a.full_name == b.full_name
    &&& a.text == b.text
    &&& a.chatted_at == b.chatted_at
}

/// A recorded message is its author's, in its own chat and at its own time, and a reply
/// is recorded as one to the author of the message that it answers: to a message without
/// text it counts as none.
pub proof fn lemma_rows_name_author_and_answered(
    message: CapturedMessage,
    progress: TextProgress,
    reply_progress: TextProgress,
)
    ensures
        message_capture::capture_step(message, progress, reply_progress) matches CaptureModel::Row(
            row,
        ) ==> {
            &&& row.chat_id == message.chat.id
            &&& row.chat_type == message.chat.kind@
            &&& row.chat_title == message.chat.title@
            &&& row.message_id == message.message_id
            &&& row.user_id == message.from.id
            &&& row.username == message.from.username@
            &&& row.full_name == message_capture::full_name(
                message.from.first_name@,
                message.from.last_name@,
            )
            &&& i64::MIN <= message.date * 1_000 <= i64::MAX ==> row.chatted_at == message.date
                * 1_000
            &&& message.reply_to_message is None ==> answers_nothing(row)
            &&& message.reply_to_message matches Some(reply) ==> match message_capture::text_step(
                *reply,
                reply_progress,
            ) {
                TextStepModel::Text(text) => if text.len() == 0 {
                    answers_nothing(row)
                } else {
                    answers(row, *reply) && row.replied_to_text == text
                },
                _ => false,
            }
        },
{
}

/// What a row says of the answered message does not depend on who answers.
pub proof fn lemma_answered_apart_from_author(
    message: CapturedMessage,
    other: CapturedUser,
    progress: TextProgress,
    reply_progress: TextProgress,
)
    ensures
        ({
            let changed = CapturedMessage { from: other, ..message };
            match (
                message_capture::capture_step(message, progress, reply_progress),
                message_capture::capture_step(changed, progress, reply_progress),
            ) {
                (CaptureModel::Row(a), CaptureModel::Row(b)) => {
                    &&& answers_alike(a, b)
                    &&& b.user_id == other.id
                    &&& b.username == other.username@
                    &&& a.text == b.text
                    &&& a.chatted_at == b.chatted_at
                },
                (CaptureModel::Row(_), _) => false,
                (_, CaptureModel::Row(_)) => false,
                _ => true,
            }
        }),
{
    let changed = CapturedMessage { from: other, ..message };
    assert(message_capture::carried(changed) == message_capture::carried(message));
}

/// What a row says of the message itself does not depend on what it answers.
pub proof fn lemma_author_apart_from_answered(
    message: CapturedMessage,
    other: Option<Box<CapturedMessage>>,
    progress: TextProgress,
    reply_progress: TextProgress,
)
    ensures
        ({
            let changed = CapturedMessage { reply_to_message: other, ..message };
            match (
                message_capture::capture_step(message, progress, reply_progress),
                message_capture::capture_step(changed, progress, reply_progress),
            ) {
                (CaptureModel::Row(a), CaptureModel::Row(b)) => says_alike(a, b),
                _ => true,
            }
        }),
{
    let changed = CapturedMessage { reply_to_message: other, ..message };
    assert(message_capture::carried(changed) == message_capture::carried(message));
}

/// Characters of the common blocks of the Chinese, Japanese and Korean scripts count as
/// such, and those of the alphabets do not.
pub proof fn lemma_scripts(c: char)
    ensures
        '\u{4e00}' <= c <= '\u{9fff}' ==> message_capture::is_cjk(c),
        '\u{3041}' <= c <= '\u{3096}' ==> message_capture::is_cjk(c),
        '\u{30a1}' <= c <= '\u{30fa}' ==> message_capture::is_cjk(c),
        '\u{ac00}' <= c <= '\u{d7a3}' ==> message_capture::is_cjk(c),
        '\u{3001}' <= c <= '\u{303d}' ==> message_capture::is_cjk(c),
        '\u{1100}' > c ==> !message_capture::is_cjk(c),
{
    let n = c as u32;
    assert(message_capture::HAN@[7] == (0x4E00u32, 0x9FFFu32, 1u32));
    assert(message_capture::HIRAGANA@[0] == (0x3041u32, 0x3096u32, 1u32));
    assert(message_capture::KATAKANA@[0] == (0x30A1u32, 0x30FAu32, 1u32));
    assert(message_capture::HANGUL@[6] == (0xAC00u32, 0xD7A3u32, 1u32));
    if '\u{4e00}' <= c <= '\u{9fff}' {
        assert(message_capture::in_range(n, message_capture::HAN@[7]));
    }
    if '\u{3041}' <= c <= '\u{3096}' {
        assert(message_capture::in_range(n, message_capture::HIRAGANA@[0]));
    }
    if '\u{30a1}' <= c <= '\u{30fa}' {
        assert(message_capture::in_range(n, message_capture::KATAKANA@[0]));
    }
    if '\u{ac00}' <= c <= '\u{d7a3}' {
        assert(message_capture::in_range(n, message_capture::HANGUL@[6]));
    }
    if (c as u32) < 0x1100u32 {
        let han = message_capture::HAN@;
        assert forall|i: int| 0 <= i < 20 implies !message_capture::in_range(
            n,
            #[trigger] han[i],
        ) by {
            assert(0x1100 <= han[0].0 && 0x1100 <= han[1].0 && 0x1100 <= han[2].0);
            assert(0x1100 <= han[3].0 && 0x1100 <= han[4].0 && 0x1100 <= han[5].0);
            assert(0x1100 <= han[6].0 && 0x1100 <= han[7].0 && 0x1100 <= han[8].0);
            assert(0x1100 <= han[9].0 && 0x1100 <= han[10].0 && 0x1100 <= han[11].0);
            assert(0x1100 <= han[12].0 && 0x1100 <= han[13].0 && 0x1100 <= han[14].0);
            assert(0x1100 <= han[15].0 && 0x1100 <= han[16].0 && 0x1100 <= han[17].0);
            assert(0x1100 <= han[18].0 && 0x1100 <= han[19].0);
        }
        let hangul = message_capture::HANGUL@;
        assert forall|i: int| 0 <= i < 14 implies !message_capture::in_range(
            n,
            #[trigger] hangul[i],
        ) by {
            assert(0x1100 <= hangul[0].0 && 0x1100 <= hangul[1].0 && 0x1100 <= hangul[2].0);
            assert(0x1100 <= hangul[3].0 && 0x1100 <= hangul[4].0 && 0x1100 <= hangul[5].0);
            assert(0x1100 <= hangul[6].0 && 0x1100 <= hangul[7].0 && 0x1100 <= hangul[8].0);
            assert(0x1100 <= hangul[9].0 && 0x1100 <= hangul[10].0 && 0x1100 <= hangul[11].0);
            assert(0x1100 <= hangul[12].0 && 0x1100 <= hangul[13].0);
        }
        let hiragana = message_capture::HIRAGANA@;
        assert forall|i: int| 0 <= i < 6 implies !message_capture::in_range(
            n,
            #[trigger] hiragana[i],
        ) by {
            assert(0x1100 <= hiragana[0].0 && 0x1100 <= hiragana[1].0 && 0x1100 <= hiragana[2].0);
            assert(0x1100 <= hiragana[3].0 && 0x1100 <= hiragana[4].0 && 0x1100 <= hiragana[5].0);
        }
        let katakana = message_capture::KATAKANA@;
        assert forall|i: int| 0 <= i < 14 implies !message_capture::in_range(
            n,
            #[trigger] katakana[i],
        ) by {
            assert(0x1100 <= katakana[0].0 && 0x1100 <= katakana[1].0 && 0x1100 <= katakana[2].0);
            assert(0x1100 <= katakana[3].0 && 0x1100 <= katakana[4].0 && 0x1100 <= katakana[5].0);
            assert(0x1100 <= katakana[6].0 && 0x1100 <= katakana[7].0 && 0x1100 <= katakana[8].0);
            assert(0x1100 <= katakana[9].0 && 0x1100 <= katakana[10].0 && 0x1100 <= katakana[11].0);
            assert(0x1100 <= katakana[12].0 && 0x1100 <= katakana[13].0);
        }
    }
}

/// Someone with one name goes by it; of two names both are kept, a blank apart, and the
/// last one comes first where it is Chinese, Japanese or Korean.
pub proof fn lemma_full_names(first: Seq<char>, last: Seq<char>)
    ensures
        last.len() == 0 ==> message_capture::full_name(first, last) == first,
        first.len() == 0 ==> message_capture::full_name(first, last) == last,
        first.len() > 0 && last.len() > 0 ==> message_capture::full_name(first, last).len()
            == first.len() + 1 + last.len(),
        first.len() > 0 && last.len() > 0 && !message_capture::has_cjk(last) ==> {
            let name = message_capture::full_name(first, last);
            name.take(first.len() as int) == first && name[first.len() as int] == ' ' && name.skip(
                1 + first.len() as int,
            ) == last
        },
        first.len() > 0 && last.len() > 0 && message_capture::has_cjk(last) ==> {
            let name = message_capture::full_name(first, last);
            name.take(last.len() as int) == last && name[last.len() as int] == ' ' && name.skip(
                1 + last.len() as int,
            ) == first
        },
{
    reveal_strlit(" ");
    let name = message_capture::full_name(first, last);
    if first.len() > 0 && last.len() > 0 {
        if message_capture::has_cjk(last) {
            assert(name.take(last.len() as int) =~= last);
            assert(name.skip(1 + last.len() as int) =~= first);
        } else {
            assert(name.take(first.len() as int) =~= first);
            assert(name.skip(1 + first.len() as int) =~= last);
        }
    } else if last.len() == 0 && first.len() == 0 {
        assert(first =~= last);
    }
}

// ---------------------------------------------------------------------------
// Texts
// ---------------------------------------------------------------------------

/// Who a message was forwarded from stands before its text and nothing else changes: a
/// user counts before a chat, and a message that was not forwarded is recorded as it is.
pub proof fn lemma_forwards_are_named(message: CapturedMessage, text: Seq<char>)
    ensures
        ({
            let out = message_capture::forwarded_text(message, text);
            &&& text.is_suffix_of(out)
            &&& message.forward_from is None && message.forward_from_chat is None ==> out == text
            &&& message.forward_from matches Some(user) ==> out.take(out.len() - text.len())
                == "[forwarded from "@ + message_capture::full_name(
                user.first_name@,
                user.last_name@,
            ) + "]: "@
            &&& message.forward_from is None ==> (message.forward_from_chat matches Some(chat)
                ==> out.take(out.len() - text.len()) == "[forwarded from "@ + chat.title@ + "]: "@)
        }),
{
    let out = message_capture::forwarded_text(message, text);
    let head = out.take(out.len() - text.len());
    assert(out.subrange(out.len() - text.len(), out.len() as int) =~= text);
    match message.forward_from {
        Some(user) => {
            assert(head =~= "[forwarded from "@ + message_capture::full_name(
                user.first_name@,
                user.last_name@,
            ) + "]: "@);
        },
        None => match message.forward_from_chat {
            Some(chat) => {
                assert(head =~= "[forwarded from "@ + chat.title@ + "]: "@);
            },
            None => {},
        },
    }
}

/// What is recorded of a message is its caption, or its text where it has none: what an
/// edit of it records is the same, without the note of a forward.
pub proof fn lemma_edits_record_the_same_text(
    message: CapturedMessage,
    progress: TextProgress,
    reply_progress: TextProgress,
)
    ensures
        message.caption@.len() > 0 ==> message_capture::carried(message) == message.caption@,
        message.caption@.len() == 0 ==> message_capture::carried(message) == message.text@,
        message_capture::edited_step(Some(&message), progress) matches EditedModel::Edited(
            chat_id,
            message_id,
            text,
        ) ==> {
            &&& chat_id == message.chat.id
            &&& message_id == message.message_id
            &&& text.len() > 0
            &&& message_capture::capture_step(message, progress, reply_progress)
                matches CaptureModel::Row(row) ==> row.text == message_capture::forwarded_text(
                message,
                text,
            )
        },
        message_capture::capture_step(message, progress, reply_progress) is Row
            ==> message_capture::edited_step(Some(&message), progress) is Edited,
        message_capture::edited_step(None, progress) == EditedModel::Skip,
{
}

/// A text of fewer than three hundred characters is kept as it is, whatever a summary
/// says; a longer one is replaced by its first summary, and only once that was asked for.
pub proof fn lemma_long_texts_are_shortened(message: CapturedMessage, progress: TextProgress)
    requires
        progress.links is Some,
    ensures
        ({
            let text = message_capture::extracted(
                message,
                message_capture::link_models(progress.links->0@),
            );
            let step = message_capture::text_step(message, progress);
            &&& text.len() < 300 ==> step == TextStepModel::Text(text)
            &&& text.len() >= 300 ==> match progress.choices {
                Reply::Pending => step == TextStepModel::Summarize(text),
                Reply::Failed => step == TextStepModel::Failed,
                Reply::Got(found) => step matches TextStepModel::Text(kept) && (if found@.len()
                    > 0 {
                    kept == found@[0]@
                } else {
                    kept.len() == 0
                }),
            }
        }),
{
}

/// A link is written in place of the stretch of its entity: the stretch is the title of a
/// link that carries its address, and the address of one that does not, which is then
/// titled by the page behind it. Titles of more than two hundred characters are shortened.
pub proof fn lemma_links_keep_title_and_address(
    entity: CapturedEntity,
    units: Seq<u16>,
    preview: Reply<PreviewMeta>,
    choices: Reply<Vec<String>>,
)
    ensures
        message_capture::link_step(entity, units, preview, choices) matches LinkStepModel::Rewrite(
            link,
        ) ==> {
            let stretch = utf16::decoded(
                units.subrange(entity.offset as int, entity.offset + entity.length),
            );
            &&& link.start == entity.offset
            &&& link.end == entity.offset + entity.length <= units.len()
            &&& entity.kind !is Other
            &&& exists|title: Seq<char>, href: Seq<char>|
                {
                    &&& link.markdown == utf16::encoded(#[trigger] linked(title, href))
                    &&& entity.kind matches CapturedEntityKind::TextLink { url } ==> href == url@
                        && shortened(stretch, choices, title)
                    &&& entity.kind is Url ==> href == stretch && (preview matches Reply::Got(meta)
                        && shortened(
                        if meta.title@.len() > 0 {
                            meta.title@
                        } else {
                            meta.open_graph_title@
                        },
                        choices,
                        title,
                    ))
                }
        },
        entity.kind is Other || entity.offset + entity.length > units.len()
            ==> message_capture::link_step(entity, units, preview, choices) == LinkStepModel::Skip,
{
    match message_capture::link_step(entity, units, preview, choices) {
        LinkStepModel::Rewrite(link) => {
            let stretch = utf16::decoded(
                units.subrange(entity.offset as int, entity.offset + entity.length),
            );
            let (whole, href) = match entity.kind {
                CapturedEntityKind::TextLink { url } => (stretch, url@),
                _ => (message_capture::preview_title(preview->Got_0), stretch),
            };
            let title = if whole.len() <= 200 {
                whole
            } else if choices->Got_0@.len() > 0 {
                choices->Got_0@[0]@
            } else {
                whole
            };
            assert(linked(title, href) == message_capture::link_text(title, href));
            assert(link.markdown == utf16::encoded(linked(title, href)));
        },
        _ => {},
    }
}

/// A Markdown link with a title and an address.
pub open spec fn linked(title: Seq<char>, href: Seq<char>) -> Seq<char> {
    "["@ + title + "]("@ + message_capture::readable_href(href) + ")"@
}

/// Whether a title is shown as `shown`: as it is, or shortened where it is too long.
pub open spec fn shortened(title: Seq<char>, choices: Reply<Vec<String>>, shown: Seq<char>) -> bool {
    if title.len() <= 200 {
        shown == title
    } else {
        choices matches Reply::Got(found) && shown == if found@.len() > 0 {
            found@[0]@
        } else {
            title
        }
    }
}

/// One link in the middle of a text: what stands before it and behind it is kept.
pub proof fn lemma_one_link_in_place(units: Seq<u16>, link: LinkModel)
    requires
        0 <= link.start <= link.end <= units.len(),
    ensures
        ({
            let out = message_capture::rewritten(units, seq![Some(link)], 0);
            &&& out.len() == units.len() - (link.end - link.start) + link.markdown.len()
            &&& out.take(link.start) == units.take(link.start)
            &&& out.subrange(link.start, link.start + link.markdown.len()) == link.markdown
            &&& out.skip(link.start + link.markdown.len()) == units.skip(link.end)
        }),
{
    reveal_with_fuel(message_capture::rewritten, 2);
    let links = seq![Some(link)];
    let out = message_capture::rewritten(units, links, 0);
    assert(message_capture::rewritten(units, links, 1) == units);
    assert(out.take(link.start) =~= units.take(link.start));
    assert(out.subrange(link.start, link.start + link.markdown.len()) =~= link.markdown);
    assert(out.skip(link.start + link.markdown.len()) =~= units.skip(link.end));
}

} // verus!
