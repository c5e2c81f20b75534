//! What holds of a delivery: the parts go out in order, in the right form, as replies in
//! one thread, and nothing of them is lost on the way to plain text.

use vstd::prelude::*;

use crate::services::autorecap_delivery;
use crate::services::recap_delivery::{
    self, DeliveryErrorModel, DeliverySettings, PartModel, PendingModel, StateModel,
};
use crate::services::rich_split;
use crate::services::telegram_rich_message::SendErrorModel;
use crate::text;
use crate::utf16;

verus! {

/// Whether a delivery has sent so many rich parts, and nothing went wrong.
pub open spec fn well_so_far(state: StateModel, count: int) -> bool {
    &&& state.next_part == count
    &&& state.error is None
    &&& state.pending.len() == 0
    &&& !state.plain_mode
    &&& state.sent.len() == count
}

/// Where nothing goes wrong, the parts go out as they are, in order, and then the delivery
/// is done. The buttons are under the first alone.
pub proof fn lemma_parts_go_out_in_order(
    settings: DeliverySettings,
    parts: Seq<PartModel>,
    state: StateModel,
    count: int,
    message: i32,
)
    requires
        0 <= count <= parts.len(),
        well_so_far(state, count),
    ensures
        ({
            let action = recap_delivery::next_action(settings, parts, state);
            let after = recap_delivery::after_send(parts, state, Ok(message));
            &&& count == parts.len() ==> action is Finished
            &&& count < parts.len() ==> {
                &&& action is SendRich
                &&& action->markdown == parts[count].markdown
                &&& action->SendRich_with_markup == (count == 0)
                &&& well_so_far(after, count + 1)
                &&& after.sent == state.sent.push(message)
            }
        }),
        well_so_far(recap_delivery::undelivered(), 0),
{
}

/// The first message replies to what the recap replies to, and the others to the first.
pub proof fn lemma_replies_in_one_thread(
    settings: DeliverySettings,
    parts: Seq<PartModel>,
    state: StateModel,
)
    ensures
        ({
            let action = recap_delivery::next_action(settings, parts, state);
            let target = if state.sent.len() == 0 {
                settings.reply_to_message_id
            } else {
                state.sent[0]
            };
            &&& action is SendPlain ==> action->reply_to_message_id == target
            &&& action is SendRich && target == 0 ==> action->reply is None
            &&& action is SendRich && target != 0 ==> action->reply is Some
                && action->reply->0.message_id == target && action->reply->0.chat_id == 0
                && action->reply->0.allow_sending_without_reply
                == settings.allow_sending_without_reply
        }),
{
}

/// Whether Telegram refused a message in these words.
pub open spec fn refused(error: SendErrorModel, said: Seq<char>) -> bool {
    error is Api && error->code == 400 && text::occurs(text::ascii_lower(error->description), said)
}

/// A refusal for the formatting is one that names the entities or the Markdown, and not
/// the buttons or the reply.
pub proof fn lemma_refused_for_formatting(error: SendErrorModel)
    ensures
        !(error is Api && error->code == 400) ==> !recap_delivery::badly_formatted(error)
            && !recap_delivery::too_long(error),
        recap_delivery::too_long(error) <==> refused(error, "message is too long"@),
        refused(error, "reply markup"@) || refused(error, "reply_markup"@) || refused(
            error,
            "reply parameters"@,
        ) || refused(error, "reply_parameters"@) ==> !recap_delivery::badly_formatted(error),
        !(refused(error, "reply markup"@) || refused(error, "reply_markup"@) || refused(
            error,
            "reply parameters"@,
        ) || refused(error, "reply_parameters"@)) && (refused(error, "can't parse entities"@)
            || refused(error, "cannot parse entities"@) || refused(
            error,
            "can't find end of the entity"@,
        ) || refused(error, "unsupported start tag"@) || refused(error, "can't parse markdown"@)
            || refused(error, "cannot parse markdown"@) || refused(
            error,
            "failed to parse markdown"@,
        ) || refused(error, "invalid markdown"@)) ==> recap_delivery::badly_formatted(error),
        !(refused(error, "reply markup"@) || refused(error, "reply_markup"@) || refused(
            error,
            "reply parameters"@,
        ) || refused(error, "reply_parameters"@)) && refused(error, "rich message"@) && (refused(
            error,
            "can't parse rich message"@,
        ) || refused(error, "rich message is too long"@) || refused(
            error,
            "rich message is invalid"@,
        )) ==> recap_delivery::badly_formatted(error),
{
    let said = text::ascii_lower(error->description);
    let payload = recap_delivery::PAYLOAD_SIGNATURES@;
    let markup = recap_delivery::MARKUP_SIGNATURES@;
    let context = recap_delivery::RICH_CONTEXT_SIGNATURES@;
    let rich = recap_delivery::RICH_SIGNATURES@;
    assert(payload =~= seq![
        "reply markup",
        "reply_markup",
        "reply parameters",
        "reply_parameters",
    ]);
    assert(markup =~= seq![
        "can't parse entities",
        "cannot parse entities",
        "can't find end of the entity",
        "unsupported start tag",
        "can't parse markdown",
        "cannot parse markdown",
        "failed to parse markdown",
        "invalid markdown",
    ]);
    assert(context =~= seq!["rich message", "rich_message", "inputrichmessage"]);
    assert(rich =~= seq![
        "can't parse rich message",
        "cannot parse rich message",
        "failed to parse rich message",
        "invalid rich message",
        "rich message is invalid",
        "rich message format",
        "rich message block",
        "rich message nesting",
        "rich message is too long",
    ]);
    assert(payload[0]@ == "reply markup"@ && payload[1]@ == "reply_markup"@ && payload[2]@
        == "reply parameters"@ && payload[3]@ == "reply_parameters"@);
    assert(markup[0]@ == "can't parse entities"@ && markup[1]@ == "cannot parse entities"@
        && markup[2]@ == "can't find end of the entity"@ && markup[3]@
        == "unsupported start tag"@);
    assert(markup[4]@ == "can't parse markdown"@ && markup[5]@ == "cannot parse markdown"@
        && markup[6]@ == "failed to parse markdown"@ && markup[7]@ == "invalid markdown"@);
    assert(context[0]@ == "rich message"@);
    assert(rich[0]@ == "can't parse rich message"@ && rich[4]@ == "rich message is invalid"@
        && rich[8]@ == "rich message is too long"@);
}

/// A rich part that is refused for its formatting or its length goes out in plain text;
/// any other failure ends the delivery, and the part is named.
pub proof fn lemma_refused_parts_go_plain(
    parts: Seq<PartModel>,
    state: StateModel,
    count: int,
    error: SendErrorModel,
)
    requires
        0 <= count < parts.len(),
        well_so_far(state, count),
    ensures
        ({
            let after = recap_delivery::after_send(parts, state, Err(error));
            &&& after.sent == state.sent
            &&& !recap_delivery::badly_formatted(error) && !recap_delivery::too_long(error)
                ==> after.error == Some(
                DeliveryErrorModel::RichPart { part_number: count + 1, source: error },
            ) && !after.plain_mode
            &&& recap_delivery::badly_formatted(error) || recap_delivery::too_long(error)
                ==> after.plain_mode && goes_plain(parts, after, count, Some(error))
        }),
{
    if recap_delivery::badly_formatted(error) || recap_delivery::too_long(error) {
        lemma_goes_plain(parts, state, count, Some(error));
    }
}

/// What is still to be sent in plain text, in the order in which it is sent: what comes
/// first is at the end.
pub open spec fn still_to_say(pending: Seq<PendingModel>) -> Seq<Seq<char>> {
    Seq::new(pending.len(), |i: int| pending[pending.len() - 1 - i].text)
}

/// Whether a state has the plain text of a part to send: all of it, in pieces that fit,
/// with the buttons under the first where the part is the first; or, where there is none,
/// has given up.
pub open spec fn goes_plain(
    parts: Seq<PartModel>,
    state: StateModel,
    part: int,
    source: Option<SendErrorModel>,
) -> bool {
    if state.error is Some {
        &&& state.error == Some(
            DeliveryErrorModel::NoPlainFallback { part_number: part + 1, source },
        )
        &&& rich_split::visible(parts[part].plain).len() == 0
    } else {
        let first = state.pending.len() - 1;
        &&& state.next_part == part + 1
        &&& state.pending.len() > 0
        &&& rich_split::visible_all(still_to_say(state.pending)) == rich_split::visible(
            parts[part].plain,
        )
        &&& forall|i: int|
            0 <= i < state.pending.len() ==> {
                let piece = #[trigger] state.pending[i];
                &&& utf16::units(piece.text) <= 4096
                &&& piece.part_number == part + 1
                &&& piece.plain_part_number == first - i + 1
                &&& piece.with_markup == (part == 0 && i == first)
            }
    }
}

proof fn lemma_goes_plain(
    parts: Seq<PartModel>,
    state: StateModel,
    part: int,
    source: Option<SendErrorModel>,
)
    requires
        0 <= part < parts.len(),
        state.next_part == part,
        state.error is None,
    ensures
        goes_plain(parts, recap_delivery::in_plain_text(parts, state, source), part, source),
{
    let plain = parts[part].plain;
    let limit = recap_delivery::PLAIN_MESSAGE_UTF16_UNIT_LIMIT as int;
    let pieces = recap_delivery::plain_pieces(plain, limit);
    let after = recap_delivery::in_plain_text(parts, state, source);
    rich_split::lemma_parts_keep_text_within_limit(text::trimmed(plain), limit);
    rich_split::lemma_visible_trimmed(plain);
    if pieces.len() == 0 {
        assert(rich_split::visible_all(pieces) =~= Seq::<char>::empty());
    } else {
        assert(still_to_say(after.pending) =~= pieces);
        assert forall|i: int| 0 <= i < after.pending.len() implies {
            let piece = #[trigger] after.pending[i];
            &&& utf16::units(piece.text) <= 4096
            &&& piece.part_number == part + 1
            &&& piece.plain_part_number == after.pending.len() - 1 - i + 1
            &&& piece.with_markup == (part == 0 && i == after.pending.len() - 1)
        } by {
            assert(after.pending[i].text == pieces[pieces.len() - 1 - i]);
        }
    }
}

/// A plain text that is still too long is sent in halves: nothing of it is lost, the rest
/// waits, and the limit shrinks. Any other failure ends the delivery.
pub proof fn lemma_halves_keep_the_text(
    parts: Seq<PartModel>,
    state: StateModel,
    error: SendErrorModel,
)
    requires
        state.pending.len() > 0,
        state.pending.last().limit >= 0,
        state.error is None,
    ensures
        ({
            let after = recap_delivery::after_send(parts, state, Err(error));
            let last = state.pending.last();
            &&& after.sent == state.sent
            &&& after.error is Some ==> after.pending == state.pending && after.error == Some(
                DeliveryErrorModel::PlainFallbackPart {
                    part_number: last.part_number,
                    plain_part_number: last.plain_part_number,
                    source: error,
                },
            )
            &&& !recap_delivery::too_long(error) ==> after.error is Some
            &&& after.error is None ==> {
                &&& after.pending.len() > state.pending.len()
                &&& rich_split::visible_all(still_to_say(after.pending))
                    == rich_split::visible_all(still_to_say(state.pending))
                &&& after.pending.take(state.pending.len() - 1) == state.pending.drop_last()
                &&& forall|i: int|
                    state.pending.len() - 1 <= i < after.pending.len() ==> {
                        let piece = #[trigger] after.pending[i];
                        &&& piece.limit == last.limit / 2
                        &&& piece.part_number == last.part_number
                        &&& piece.plain_part_number == last.plain_part_number
                        &&& piece.with_markup == (last.with_markup && i == after.pending.len() - 1)
                    }
            }
        }),
{
    let after = recap_delivery::after_send(parts, state, Err(error));
    let last = state.pending.last();
    let rest = state.pending.drop_last();
    if after.error is None {
        let halved = last.limit / 2;
        let pieces = recap_delivery::plain_pieces(last.text, halved);
        rich_split::lemma_parts_keep_text_within_limit(text::trimmed(last.text), halved);
        rich_split::lemma_visible_trimmed(last.text);
        assert(still_to_say(after.pending) =~= pieces + still_to_say(rest));
        assert(still_to_say(state.pending) =~= seq![last.text] + still_to_say(rest));
        rich_split::lemma_visible_all_add(pieces, still_to_say(rest));
        rich_split::lemma_visible_all_add(seq![last.text], still_to_say(rest));
        rich_split::lemma_visible_all_one(last.text);
        assert(after.pending.take(state.pending.len() - 1) =~= rest);
    }
}

/// What is sent in plain text is what waits, in order; once a part is out, the next one
/// follows in plain text too, until all are out.
pub proof fn lemma_plain_text_goes_on(
    settings: DeliverySettings,
    parts: Seq<PartModel>,
    state: StateModel,
    message: i32,
)
    requires
        state.pending.len() > 0,
        state.error is None,
        state.plain_mode,
        0 <= state.next_part <= parts.len(),
    ensures
        ({
            let action = recap_delivery::next_action(settings, parts, state);
            let after = recap_delivery::after_send(parts, state, Ok(message));
            &&& action is SendPlain
            &&& action->SendPlain_text == still_to_say(state.pending)[0]
            &&& action->SendPlain_with_markup == state.pending.last().with_markup
            &&& after.sent == state.sent.push(message)
            &&& state.pending.len() > 1 ==> after.pending == state.pending.drop_last()
                && after.error is None && after.next_part == state.next_part
            &&& state.pending.len() == 1 && state.next_part < parts.len() ==> goes_plain(
                parts,
                after,
                state.next_part,
                None,
            )
            &&& state.pending.len() == 1 && state.next_part == parts.len()
                ==> recap_delivery::next_action(settings, parts, after) is Finished
        }),
{
    if state.pending.len() == 1 && state.next_part < parts.len() {
        let middle = StateModel {
            pending: state.pending.drop_last(),
            sent: state.sent.push(message),
            ..state
        };
        lemma_goes_plain(parts, middle, state.next_part, None);
    }
}

/// The pinned message is replaced by the new one: the one before is unpinned where its
/// number fits, and is no longer remembered as pinned.
pub proof fn lemma_pin_is_replaced(previous: Option<(i64, i64)>, new_message_id: i32)
    ensures
        ({
            let change = autorecap_delivery::replacement(previous, new_message_id);
            &&& change.pin == new_message_id
            &&& change.forget == previous
            &&& previous is None ==> change.unpin is None
            &&& change.unpin is Some ==> previous is Some && (previous->0).1 == change.unpin->0
            &&& previous is Some && i32::MIN <= (previous->0).1 <= i32::MAX
                ==> change.unpin is Some
        }),
{
}

} // verus!
