//! Keyboards: their buttons, and what is stored for them. Every payload is stored, in
//! order, before the keyboard is shown.

use vstd::prelude::*;

use crate::bot::payloads::{
    self, FeedbackRecapReactionActionData, SelectHourCallbackData, UnsubscribeRecapActionData,
};
use crate::db::models::ReactionCounts;
use crate::numeral::{self, format_i64, format_u64};
use crate::redis::keys;
use crate::text::{joined2, joined3};

verus! {

/// One button.
#[derive(Debug, PartialEq, Eq)]
pub struct Button {
    pub label: String,
    /// What Telegram hands back when it is pressed.
    pub wire: String,
}

#[verifier::ext_equal]
pub struct ButtonModel {
    pub label: Seq<char>,
    pub wire: Seq<char>,
}

impl View for Button {
    type V = ButtonModel;

    open spec fn view(&self) -> ButtonModel {
        ButtonModel { label: self.label@, wire: self.wire@ }
    }
}

/// A payload that is stored under a route.
#[derive(Debug, PartialEq, Eq)]
pub struct StoredPayload {
    pub route: &'static str,
    pub payload: String,
}

#[verifier::ext_equal]
pub struct PayloadModel {
    pub route: Seq<char>,
    pub payload: Seq<char>,
}

impl View for StoredPayload {
    type V = PayloadModel;

    open spec fn view(&self) -> PayloadModel {
        PayloadModel { route: self.route@, payload: self.payload@ }
    }
}

/// A keyboard, and what is stored for it.
#[derive(Debug, PartialEq, Eq)]
pub struct KeyboardPlan {
    pub rows: Vec<Vec<Button>>,
    pub stores: Vec<StoredPayload>,
}

#[verifier::ext_equal]
pub struct KeyboardModel {
    pub rows: Seq<Seq<ButtonModel>>,
    pub stores: Seq<PayloadModel>,
}

pub open spec fn row_model(row: Seq<Button>) -> Seq<ButtonModel> {
    Seq::new(row.len(), |i: int| row[i]@)
}

pub open spec fn rows_model(rows: Seq<Vec<Button>>) -> Seq<Seq<ButtonModel>> {
    Seq::new(rows.len(), |i: int| row_model(rows[i]@))
}

pub open spec fn stores_model(stores: Seq<StoredPayload>) -> Seq<PayloadModel> {
    Seq::new(stores.len(), |i: int| stores[i]@)
}

impl View for KeyboardPlan {
    type V = KeyboardModel;

    open spec fn view(&self) -> KeyboardModel {
        KeyboardModel { rows: rows_model(self.rows@), stores: stores_model(self.stores@) }
    }
}

/// The button that stands for a payload under a route.
pub open spec fn button_for(label: Seq<char>, store: PayloadModel) -> ButtonModel {
    ButtonModel { label, wire: keys::wire_value(store.route, store.payload) }
}

/// Every button stands for a payload that is stored.
pub open spec fn answered(keyboard: KeyboardModel) -> bool {
    forall|r: int, c: int|
        #![trigger keyboard.rows[r][c]]
        0 <= r < keyboard.rows.len() && 0 <= c < keyboard.rows[r].len() ==> stands_for_some(
            keyboard.rows[r][c],
            keyboard.stores,
        )
}

pub open spec fn stands_for_some(button: ButtonModel, stores: Seq<PayloadModel>) -> bool {
    exists|i: int|
        0 <= i < stores.len() && button.wire == keys::wire_value(
            (#[trigger] stores[i]).route,
            stores[i].payload,
        )
}

/// The button that stands for a payload under a route.
pub fn button(label: &str, store: &StoredPayload) -> (b: Button)
    ensures
        b@ == button_for(label@, store@),
{
    Button {
        label: label.to_owned(),
        wire: keys::callback_wire_value(store.route, store.payload.as_str()),
    }
}

/// A row of one button.
pub fn row_of_one(a: Button) -> (row: Vec<Button>)
    ensures
        row_model(row@) == seq![a@],
{
    vec![a]
}

/// A row of two buttons.
pub fn row_of_two(a: Button, b: Button) -> (row: Vec<Button>)
    ensures
        row_model(row@) == seq![a@, b@],
{
    vec![a, b]
}

/// A row of three buttons.
pub fn row_of_three(a: Button, b: Button, c: Button) -> (row: Vec<Button>)
    ensures
        row_model(row@) == seq![a@, b@, c@],
{
    vec![a, b, c]
}

// ---------------------------------------------------------------------------
// Hours
// ---------------------------------------------------------------------------

/// The payload of an hour.
pub open spec fn hour_store(
    hour: i64,
    chat_id: i64,
    chat_title: Seq<char>,
    mode: i64,
) -> PayloadModel {
    PayloadModel {
        route: keys::ROUTE_SELECT_HOUR@,
        payload: payloads::html_safe(
            "{\"hour\":"@ + numeral::decimal(hour as int) + ",\"chat_id\":"@ + numeral::decimal(
                chat_id as int,
            ) + ",\"chat_title\":"@ + crate::services::telegram_rich_message::json_string(
                chat_title,
            ) + ",\"recap_mode\":"@ + numeral::decimal(mode as int) + "}"@,
        ),
    }
}

pub open spec fn hour_button(
    hour: i64,
    chat_id: i64,
    chat_title: Seq<char>,
    mode: i64,
) -> ButtonModel {
    button_for(
        numeral::decimal(hour as int) + " 小时"@,
        hour_store(hour, chat_id, chat_title, mode),
    )
}

/// The choice of hours: two rows of three.
pub open spec fn hour_keyboard(chat_id: i64, chat_title: Seq<char>, mode: i64) -> KeyboardModel {
    KeyboardModel {
        rows: seq![
            seq![
                hour_button(1, chat_id, chat_title, mode),
                hour_button(2, chat_id, chat_title, mode),
                hour_button(4, chat_id, chat_title, mode),
            ],
            seq![
                hour_button(6, chat_id, chat_title, mode),
                hour_button(12, chat_id, chat_title, mode),
                hour_button(24, chat_id, chat_title, mode),
            ],
        ],
        stores: seq![
            hour_store(1, chat_id, chat_title, mode),
            hour_store(2, chat_id, chat_title, mode),
            hour_store(4, chat_id, chat_title, mode),
            hour_store(6, chat_id, chat_title, mode),
            hour_store(12, chat_id, chat_title, mode),
            hour_store(24, chat_id, chat_title, mode),
        ],
    }
}

fn store_hour(hour: i64, chat_id: i64, chat_title: &str, recap_mode: i64) -> (s: StoredPayload)
    ensures
        s@ == hour_store(hour, chat_id, chat_title@, recap_mode),
{
    let data = SelectHourCallbackData {
        hour,
        chat_id,
        chat_title: chat_title.to_owned(),
        recap_mode,
    };
    StoredPayload { route: keys::ROUTE_SELECT_HOUR, payload: data.to_json() }
}

fn press_hour(hour: i64, store: &StoredPayload) -> (b: Button)
    ensures
        b@ == button_for(numeral::decimal(hour as int) + " 小时"@, store@),
{
    let number: String = format_i64(hour);
    let label: String = joined2(number.as_str(), " 小时");
    button(label.as_str(), store)
}

/// The choice of hours.
pub fn build_select_hour_keyboard(chat_id: i64, chat_title: &str, recap_mode: i64) -> (plan:
    KeyboardPlan)
    ensures
        plan@ == hour_keyboard(chat_id, chat_title@, recap_mode),
{
    let one: StoredPayload = store_hour(1, chat_id, chat_title, recap_mode);
    let two: StoredPayload = store_hour(2, chat_id, chat_title, recap_mode);
    let four: StoredPayload = store_hour(4, chat_id, chat_title, recap_mode);
    let six: StoredPayload = store_hour(6, chat_id, chat_title, recap_mode);
    let twelve: StoredPayload = store_hour(12, chat_id, chat_title, recap_mode);
    let day: StoredPayload = store_hour(24, chat_id, chat_title, recap_mode);
    let rows: Vec<Vec<Button>> = vec![
        row_of_three(press_hour(1, &one), press_hour(2, &two), press_hour(4, &four)),
        row_of_three(press_hour(6, &six), press_hour(12, &twelve), press_hour(24, &day)),
    ];
    let stores: Vec<StoredPayload> = vec![one, two, four, six, twelve, day];
    let plan = KeyboardPlan { rows, stores };
    let ghost wanted = hour_keyboard(chat_id, chat_title@, recap_mode);
    assert(plan@.rows =~= wanted.rows);
    assert(plan@.stores =~= wanted.stores);
    plan
}

// ---------------------------------------------------------------------------
// Votes
// ---------------------------------------------------------------------------

/// The payload of a reaction.
pub open spec fn vote_store(chat_id: i64, log_id: Seq<char>, reaction: Seq<char>) -> PayloadModel {
    PayloadModel {
        route: keys::ROUTE_SMR_SUMMARIZATION_FEEDBACK_REACT@,
        payload: payloads::html_safe(
            "{\"chatId\":"@ + numeral::decimal(chat_id as int) + ",\"logId\":"@
                + crate::services::telegram_rich_message::json_string(log_id) + ",\"type\":"@
                + crate::services::telegram_rich_message::json_string(reaction) + "}"@,
        ),
    }
}

/// The label of a reaction: its sign, and how many there are where there are any.
pub open spec fn vote_label(emoji: Seq<char>, count: usize) -> Seq<char> {
    if count == 0 {
        emoji
    } else {
        emoji + " "@ + numeral::decimal(count as int)
    }
}

/// The row of reactions.
pub open spec fn vote_row(chat_id: i64, log_id: Seq<char>, counts: ReactionCounts) -> Seq<
    ButtonModel,
> {
    seq![
        button_for(vote_label("👍"@, counts.up_votes), vote_store(chat_id, log_id, "up_vote"@)),
        button_for(
            vote_label("👎"@, counts.down_votes),
            vote_store(chat_id, log_id, "down_vote"@),
        ),
        button_for(vote_label("🤣"@, counts.lmao), vote_store(chat_id, log_id, "lmao"@)),
    ]
}

pub open spec fn vote_stores(chat_id: i64, log_id: Seq<char>) -> Seq<PayloadModel> {
    seq![
        vote_store(chat_id, log_id, "up_vote"@),
        vote_store(chat_id, log_id, "down_vote"@),
        vote_store(chat_id, log_id, "lmao"@),
    ]
}

/// The keyboard under a recap.
pub open spec fn vote_keyboard(
    chat_id: i64,
    log_id: Seq<char>,
    counts: ReactionCounts,
) -> KeyboardModel {
    KeyboardModel {
        rows: seq![vote_row(chat_id, log_id, counts)],
        stores: vote_stores(chat_id, log_id),
    }
}

fn store_vote(chat_id: i64, log_id: &str, reaction: &str) -> (s: StoredPayload)
    ensures
        s@ == vote_store(chat_id, log_id@, reaction@),
{
    let data = FeedbackRecapReactionActionData {
        chat_id,
        log_id: log_id.to_owned(),
        reaction_type: reaction.to_owned(),
    };
    StoredPayload { route: keys::ROUTE_SMR_SUMMARIZATION_FEEDBACK_REACT, payload: data.to_json() }
}

fn press_vote(emoji: &str, count: usize, store: &StoredPayload) -> (b: Button)
    ensures
        b@ == button_for(vote_label(emoji@, count), store@),
{
    if count == 0 {
        button(emoji, store)
    } else {
        let number: String = format_u64(count as u64);
        let label: String = joined3(emoji, " ", number.as_str());
        button(label.as_str(), store)
    }
}

/// The keyboard under a recap: three reactions.
pub fn build_vote_keyboard(chat_id: i64, log_id: &str, counts: ReactionCounts) -> (plan:
    KeyboardPlan)
    ensures
        plan@ == vote_keyboard(chat_id, log_id@, counts),
{
    let up: StoredPayload = store_vote(chat_id, log_id, "up_vote");
    let down: StoredPayload = store_vote(chat_id, log_id, "down_vote");
    let lmao: StoredPayload = store_vote(chat_id, log_id, "lmao");
    let rows: Vec<Vec<Button>> = vec![
        row_of_three(
            press_vote("👍", counts.up_votes, &up),
            press_vote("👎", counts.down_votes, &down),
            press_vote("🤣", counts.lmao, &lmao),
        ),
    ];
    let stores: Vec<StoredPayload> = vec![up, down, lmao];
    let plan = KeyboardPlan { rows, stores };
    let ghost wanted = vote_keyboard(chat_id, log_id@, counts);
    assert(plan@.rows =~= wanted.rows);
    assert(plan@.stores =~= wanted.stores);
    plan
}

/// The payload of unsubscribing.
pub open spec fn unsubscribe_store(
    chat_id: i64,
    chat_title: Seq<char>,
    from_id: i64,
) -> PayloadModel {
    PayloadModel {
        route: keys::ROUTE_UNSUBSCRIBE_RECAP@,
        payload: payloads::html_safe(
            "{\"chatId\":"@ + numeral::decimal(chat_id as int) + ",\"chatTitle\":"@
                + crate::services::telegram_rich_message::json_string(chat_title)
                + ",\"fromId\":"@ + numeral::decimal(from_id as int) + "}"@,
        ),
    }
}

/// The keyboard under a recap for a subscriber.
pub open spec fn subscriber_keyboard(
    chat_id: i64,
    chat_title: Seq<char>,
    from_id: i64,
    log_id: Seq<char>,
    counts: ReactionCounts,
) -> KeyboardModel {
    KeyboardModel {
        rows: seq![
            vote_row(chat_id, log_id, counts),
            seq![button_for("取消订阅"@, unsubscribe_store(chat_id, chat_title, from_id))],
        ],
        stores: vote_stores(chat_id, log_id) + seq![
            unsubscribe_store(chat_id, chat_title, from_id),
        ],
    }
}

/// The keyboard under a recap for a subscriber: the reactions, then the way out.
pub fn build_subscriber_vote_keyboard(
    chat_id: i64,
    chat_title: &str,
    from_id: i64,
    log_id: &str,
    counts: ReactionCounts,
) -> (plan: KeyboardPlan)
    ensures
        plan@ == subscriber_keyboard(chat_id, chat_title@, from_id, log_id@, counts),
{
    let votes: KeyboardPlan = build_vote_keyboard(chat_id, log_id, counts);
    let data = UnsubscribeRecapActionData {
        chat_id,
        chat_title: chat_title.to_owned(),
        from_id,
    };
    let leave = StoredPayload { route: keys::ROUTE_UNSUBSCRIBE_RECAP, payload: data.to_json() };
    let ghost vote_rows = rows_model(votes.rows@);
    let ghost vote_saves = stores_model(votes.stores@);
    let last: Vec<Button> = row_of_one(button("取消订阅", &leave));
    let mut rows: Vec<Vec<Button>> = votes.rows;
    rows.push(last);
    let mut stores: Vec<StoredPayload> = votes.stores;
    stores.push(leave);
    let plan = KeyboardPlan { rows, stores };
    let ghost wanted = subscriber_keyboard(chat_id, chat_title@, from_id, log_id@, counts);
    assert(rows_model(rows@) =~= vote_rows.push(row_model(last@)));
    assert(stores_model(stores@) =~= vote_saves.push(leave@));
    assert(plan@.rows =~= wanted.rows);
    assert(plan@.stores =~= wanted.stores);
    plan
}

/// Every button of the choice of hours stands for a payload that is stored.
pub proof fn lemma_hours_answered(chat_id: i64, chat_title: Seq<char>, mode: i64)
    ensures
        answered(hour_keyboard(chat_id, chat_title, mode)),
{
    let keyboard = hour_keyboard(chat_id, chat_title, mode);
    assert forall|r: int, c: int|
        #![trigger keyboard.rows[r][c]]
        0 <= r < keyboard.rows.len() && 0 <= c
            < keyboard.rows[r].len()
                implies stands_for_some(keyboard.rows[r][c], keyboard.stores) by {
        let store = keyboard.stores[3 * r + c];
        assert(keyboard.rows[r][c].wire == keys::wire_value(store.route, store.payload));
    }
}

/// Every button under a recap stands for a payload that is stored.
pub proof fn lemma_votes_answered(
    chat_id: i64,
    chat_title: Seq<char>,
    from_id: i64,
    log_id: Seq<char>,
    counts: ReactionCounts,
)
    ensures
        answered(vote_keyboard(chat_id, log_id, counts)),
        answered(subscriber_keyboard(chat_id, chat_title, from_id, log_id, counts)),
{
    let votes = vote_keyboard(chat_id, log_id, counts);
    assert forall|r: int, c: int|
        #![trigger votes.rows[r][c]]
        0 <= r < votes.rows.len() && 0 <= c < votes.rows[r].len() implies stands_for_some(
        votes.rows[r][c],
        votes.stores,
    ) by {
        let store = votes.stores[c];
        assert(votes.rows[r][c].wire == keys::wire_value(store.route, store.payload));
    }
    let all = subscriber_keyboard(chat_id, chat_title, from_id, log_id, counts);
    assert forall|r: int, c: int|
        #![trigger all.rows[r][c]]
        0 <= r < all.rows.len() && 0 <= c < all.rows[r].len() implies stands_for_some(
        all.rows[r][c],
        all.stores,
    ) by {
        let store = all.stores[3 * r + c];
        assert(all.rows[r][c].wire == keys::wire_value(store.route, store.payload));
    }
}

} // verus!
