//! After an automatic recap was sent: pinning it, and remembering what was sent.

use vstd::prelude::*;

use crate::bot::keyboards::{KeyboardModel, KeyboardPlan};
use crate::services::recap_delivery::RecapDeliveryError;
use crate::text;

verus! {

/// One destination of an automatic recap. Only the group that a recap is about has its
/// first message pinned.
#[derive(Debug, PartialEq, Eq)]
pub struct AutoRecapDeliveryTarget {
    pub chat_id: i64,
    pub parts: Vec<String>,
    pub keyboard: KeyboardPlan,
    pub pin_first: bool,
}

#[verifier::ext_equal]
pub struct TargetModel {
    pub chat_id: i64,
    pub parts: Seq<Seq<char>>,
    pub keyboard: KeyboardModel,
    pub pin_first: bool,
}

impl View for AutoRecapDeliveryTarget {
    type V = TargetModel;

    open spec fn view(&self) -> TargetModel {
        TargetModel {
            chat_id: self.chat_id,
            parts: text::texts(self.parts@),
            keyboard: self.keyboard@,
            pin_first: self.pin_first,
        }
    }
}

pub open spec fn targets_model(targets: Seq<AutoRecapDeliveryTarget>) -> Seq<TargetModel> {
    Seq::new(targets.len(), |i: int| targets[i]@)
}

/// What became of one target.
#[derive(Debug, PartialEq, Eq)]
pub struct AutoRecapTargetReport {
    pub chat_id: i64,
    pub messages: Vec<i32>,
    pub delivery_error: Option<RecapDeliveryError>,
    pub pin_succeeded: bool,
}

/// What became of all targets, in order.
#[derive(Debug, PartialEq, Eq)]
pub struct AutoRecapDeliveryReport {
    pub targets: Vec<AutoRecapTargetReport>,
}

/// The message to be pinned: the first of a complete delivery, where pinning is asked
/// for.
pub fn message_to_pin(complete: bool, sent: &Vec<i32>, pin_first: bool) -> (r: Option<i32>)
    ensures
        r == if complete && pin_first && sent@.len() > 0 {
            Some(sent@[0])
        } else {
            None
        },
{
    if complete && pin_first && sent.len() > 0 {
        Some(sent[0])
    } else {
        None
    }
}

/// How the pinned message is replaced: the previous one is unpinned where its number
/// fits Telegram, it is forgotten in any case, and then the new one is pinned. A failure
/// of one step does not stop the next.
#[derive(Debug, Clone, Copy, PartialEq, Eq)]
pub struct PinReplacement {
    pub unpin: Option<i32>,
    /// The stored message that is no longer pinned.
    pub forget: Option<(i64, i64)>,
    pub pin: i32,
}

pub open spec fn replacement(previous: Option<(i64, i64)>, new_message_id: i32) -> PinReplacement {
    PinReplacement {
        unpin: match previous {
            Some((_, message_id)) => if i32::MIN <= message_id <= i32::MAX {
                Some(message_id as i32)
            } else {
                None
            },
            None => None,
        },
        forget: previous,
        pin: new_message_id,
    }
}

/// How the pinned message, if one is known with its chat, is replaced.
pub fn replace_pinned_message(previous: Option<(i64, i64)>, new_message_id: i32) -> (r:
    PinReplacement)
    ensures
        r == replacement(previous, new_message_id),
{
    let unpin: Option<i32> = match previous {
        Some((_, message_id)) => if -2_147_483_648 <= message_id && message_id <= 2_147_483_647 {
            Some(message_id as i32)
        } else {
            None
        },
        None => None,
    };
    PinReplacement { unpin, forget: previous, pin: new_message_id }
}

/// Which of the sent messages are stored as pinned: the first, where pinning succeeded.
pub fn pinned_flags(sent: usize, pin_succeeded: bool) -> (flags: Vec<bool>)
    ensures
        flags@ == Seq::new(sent as nat, |i: int| pin_succeeded && i == 0),
{
    let mut flags: Vec<bool> = Vec::new();
    let mut i: usize = 0;
    while i < sent
        invariant
            i <= sent,
            flags@ == Seq::new(i as nat, |i: int| pin_succeeded && i == 0),
        decreases sent - i,
    {
        flags.push(pin_succeeded && i == 0);
        i = i + 1;
        assert(flags@ =~= Seq::new(i as nat, |i: int| pin_succeeded && i == 0));
    }
    flags
}

/// The report of one target: a delivery that failed is never reported as pinned.
pub fn target_report(
    chat_id: i64,
    sent: Vec<i32>,
    delivery_error: Option<RecapDeliveryError>,
    pinned: bool,
) -> (report: AutoRecapTargetReport)
    ensures
        report.chat_id == chat_id,
        report.messages@ == sent@,
        report.delivery_error == delivery_error,
        report.pin_succeeded == (pinned && delivery_error is None && sent@.len() > 0),
{
    let pin_succeeded: bool = pinned && delivery_error.is_none() && sent.len() > 0;
    AutoRecapTargetReport { chat_id, messages: sent, delivery_error, pin_succeeded }
}

} // verus!
