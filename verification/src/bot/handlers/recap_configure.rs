//! The keyboard that configures recaps, and what its buttons lead to.

use vstd::prelude::*;

use crate::bot::keyboards::{
    self, button, row_of_one, row_of_three, row_of_two, Button, ButtonModel, KeyboardModel,
    KeyboardPlan, PayloadModel, StoredPayload,
};
use crate::bot::payloads::{
    self, AssignModeActionData, CompleteActionData, PinActionData, RatesActionData,
    ToggleActionData,
};
use crate::db::models::{self, AutoRecapSendMode};
use crate::redis::keys;
use crate::reply::Reply;
use crate::text::joined2;

verus! {

/// The route of headings, which do nothing.
pub const ROUTE_NOP: &'static str = "nop";

/// What the keyboard shows.
#[derive(Debug, Clone, Copy, PartialEq, Eq, Structural)]
pub struct ConfigureRecapView {
    pub chat_id: i64,
    pub from_id: i64,
    pub recap_enabled: bool,
    pub send_mode: i64,
    pub rates_per_day: i64,
    pub pin_enabled: bool,
}

pub open spec fn nop_store() -> PayloadModel {
    PayloadModel { route: ROUTE_NOP@, payload: "\"\""@ }
}

pub open spec fn toggle_store(view: ConfigureRecapView, status: bool) -> PayloadModel {
    PayloadModel {
        route: keys::ROUTE_CONFIGURE_TOGGLE@,
        payload: payloads::toggle_json(
            ToggleActionData { status, chat_id: view.chat_id, from_id: view.from_id },
        ),
    }
}

pub open spec fn mode_store(view: ConfigureRecapView, mode: i64) -> PayloadModel {
    PayloadModel {
        route: keys::ROUTE_CONFIGURE_ASSIGN_MODE@,
        payload: payloads::assign_mode_json(
            AssignModeActionData { mode, chat_id: view.chat_id, from_id: view.from_id },
        ),
    }
}

pub open spec fn complete_store(view: ConfigureRecapView) -> PayloadModel {
    PayloadModel {
        route: keys::ROUTE_CONFIGURE_COMPLETE@,
        payload: payloads::complete_json(
            CompleteActionData { chat_id: view.chat_id, from_id: view.from_id },
        ),
    }
}

pub open spec fn pin_store(view: ConfigureRecapView, status: bool) -> PayloadModel {
    PayloadModel {
        route: keys::ROUTE_CONFIGURE_PIN@,
        payload: payloads::pin_json(PinActionData { status, chat_id: view.chat_id }),
    }
}

pub open spec fn rate_store(view: ConfigureRecapView, rates: i64) -> PayloadModel {
    PayloadModel {
        route: keys::ROUTE_CONFIGURE_AUTO_RECAP_RATES_PER_DAY@,
        payload: payloads::rates_json(
            RatesActionData { rates, chat_id: view.chat_id, from_id: view.from_id },
        ),
    }
}

/// A label, marked where it is what is chosen.
pub open spec fn marked(chosen: bool, label: Seq<char>) -> Seq<char> {
    if chosen {
        "🔘 "@ + label
    } else {
        label
    }
}

/// The rows that are always there.
pub open spec fn basic_rows(view: ConfigureRecapView) -> Seq<Seq<ButtonModel>> {
    seq![
        seq![keyboards::button_for("🔈 聊天记录回顾"@, nop_store())],
        seq![
            keyboards::button_for(marked(view.recap_enabled, "开启"@), toggle_store(view, true)),
            keyboards::button_for(marked(!view.recap_enabled, "关闭"@), toggle_store(view, false)),
        ],
        seq![keyboards::button_for("📩 聊天记录回顾投递方式"@, nop_store())],
        seq![
            keyboards::button_for(marked(view.send_mode == 0, "公开"@), mode_store(view, 0)),
            keyboards::button_for(marked(view.send_mode == 1, "私聊"@), mode_store(view, 1)),
        ],
    ]
}

/// The rows that come with recaps switched on.
pub open spec fn enabled_rows(view: ConfigureRecapView) -> Seq<Seq<ButtonModel>> {
    seq![
        seq![keyboards::button_for("🛎️ 每天自动创建回顾次数"@, nop_store())],
        seq![
            keyboards::button_for(marked(view.rates_per_day == 2, "2 次"@), rate_store(view, 2)),
            keyboards::button_for(marked(view.rates_per_day == 3, "3 次"@), rate_store(view, 3)),
            keyboards::button_for(marked(view.rates_per_day == 4, "4 次"@), rate_store(view, 4)),
        ],
        seq![keyboards::button_for("🪧 置顶聊天记录回顾"@, nop_store())],
        seq![
            keyboards::button_for(marked(view.pin_enabled, "开启"@), pin_store(view, true)),
            keyboards::button_for(marked(!view.pin_enabled, "关闭"@), pin_store(view, false)),
        ],
    ]
}

pub open spec fn last_row(view: ConfigureRecapView) -> Seq<ButtonModel> {
    seq![keyboards::button_for("✅ 完成"@, complete_store(view))]
}

/// What is stored in any case, the pins of a keyboard that does not show them included.
pub open spec fn basic_stores(view: ConfigureRecapView) -> Seq<PayloadModel> {
    seq![
        nop_store(),
        toggle_store(view, true),
        toggle_store(view, false),
        mode_store(view, 0),
        mode_store(view, 1),
        complete_store(view),
        pin_store(view, true),
        pin_store(view, false),
    ]
}

pub open spec fn rate_stores(view: ConfigureRecapView) -> Seq<PayloadModel> {
    seq![rate_store(view, 2), rate_store(view, 3), rate_store(view, 4)]
}

/// The keyboard: five rows with recaps off, nine with recaps on.
pub open spec fn configure_keyboard(view: ConfigureRecapView) -> KeyboardModel {
    if view.recap_enabled {
        KeyboardModel {
            rows: basic_rows(view) + enabled_rows(view) + seq![last_row(view)],
            stores: basic_stores(view) + rate_stores(view),
        }
    } else {
        KeyboardModel { rows: basic_rows(view) + seq![last_row(view)], stores: basic_stores(view) }
    }
}

fn mark(chosen: bool, label: &str) -> (out: String)
    ensures
        out@ == marked(chosen, label@),
{
    if chosen {
        joined2("🔘 ", label)
    } else {
        label.to_owned()
    }
}

fn choice(chosen: bool, label: &str, store: &StoredPayload) -> (b: Button)
    ensures
        b@ == keyboards::button_for(marked(chosen, label@), store@),
{
    let shown: String = mark(chosen, label);
    button(shown.as_str(), store)
}

fn store_nop() -> (s: StoredPayload)
    ensures
        s@ == nop_store(),
{
    StoredPayload { route: ROUTE_NOP, payload: "\"\"".to_owned() }
}

fn store_toggle(view: ConfigureRecapView, status: bool) -> (s: StoredPayload)
    ensures
        s@ == toggle_store(view, status),
{
    let data = ToggleActionData { status, chat_id: view.chat_id, from_id: view.from_id };
    StoredPayload { route: keys::ROUTE_CONFIGURE_TOGGLE, payload: data.to_json() }
}

fn store_mode(view: ConfigureRecapView, mode: i64) -> (s: StoredPayload)
    ensures
        s@ == mode_store(view, mode),
{
    let data = AssignModeActionData { mode, chat_id: view.chat_id, from_id: view.from_id };
    StoredPayload { route: keys::ROUTE_CONFIGURE_ASSIGN_MODE, payload: data.to_json() }
}

fn store_complete(view: ConfigureRecapView) -> (s: StoredPayload)
    ensures
        s@ == complete_store(view),
{
    let data = CompleteActionData { chat_id: view.chat_id, from_id: view.from_id };
    StoredPayload { route: keys::ROUTE_CONFIGURE_COMPLETE, payload: data.to_json() }
}

fn store_pin(view: ConfigureRecapView, status: bool) -> (s: StoredPayload)
    ensures
        s@ == pin_store(view, status),
{
    let data = PinActionData { status, chat_id: view.chat_id };
    StoredPayload { route: keys::ROUTE_CONFIGURE_PIN, payload: data.to_json() }
}

fn store_rate(view: ConfigureRecapView, rates: i64) -> (s: StoredPayload)
    ensures
        s@ == rate_store(view, rates),
{
    let data = RatesActionData { rates, chat_id: view.chat_id, from_id: view.from_id };
    StoredPayload { route: keys::ROUTE_CONFIGURE_AUTO_RECAP_RATES_PER_DAY, payload: data.to_json() }
}

/// The keyboard that configures recaps.
pub fn build_configure_keyboard(view: ConfigureRecapView) -> (plan: KeyboardPlan)
    ensures
        plan@ == configure_keyboard(view),
{
    let nop: StoredPayload = store_nop();
    let on: StoredPayload = store_toggle(view, true);
    let off: StoredPayload = store_toggle(view, false);
    let public: StoredPayload = store_mode(view, 0);
    let private: StoredPayload = store_mode(view, 1);
    let complete: StoredPayload = store_complete(view);
    let pin_on: StoredPayload = store_pin(view, true);
    let pin_off: StoredPayload = store_pin(view, false);
    let mut rows: Vec<Vec<Button>> = Vec::new();
    rows.push(row_of_one(button("🔈 聊天记录回顾", &nop)));
    rows.push(
        row_of_two(
            choice(view.recap_enabled, "开启", &on),
            choice(!view.recap_enabled, "关闭", &off),
        ),
    );
    rows.push(row_of_one(button("📩 聊天记录回顾投递方式", &nop)));
    rows.push(
        row_of_two(
            choice(view.send_mode == 0, "公开", &public),
            choice(view.send_mode == 1, "私聊", &private),
        ),
    );
    assert(keyboards::rows_model(rows@) =~= basic_rows(view));
    let last: Vec<Button> = row_of_one(button("✅ 完成", &complete));
    if !view.recap_enabled {
        rows.push(last);
        let stores: Vec<StoredPayload> = vec![
            nop,
            on,
            off,
            public,
            private,
            complete,
            pin_on,
            pin_off,
        ];
        let plan = KeyboardPlan { rows, stores };
        assert(plan@.rows =~= configure_keyboard(view).rows);
        assert(plan@.stores =~= configure_keyboard(view).stores);
        return plan;
    }
    let two: StoredPayload = store_rate(view, 2);
    let three: StoredPayload = store_rate(view, 3);
    let four: StoredPayload = store_rate(view, 4);
    rows.push(row_of_one(button("🛎️ 每天自动创建回顾次数", &nop)));
    rows.push(
        row_of_three(
            choice(view.rates_per_day == 2, "2 次", &two),
            choice(view.rates_per_day == 3, "3 次", &three),
            choice(view.rates_per_day == 4, "4 次", &four),
        ),
    );
    rows.push(row_of_one(button("🪧 置顶聊天记录回顾", &nop)));
    rows.push(
        row_of_two(
            choice(view.pin_enabled, "开启", &pin_on),
            choice(!view.pin_enabled, "关闭", &pin_off),
        ),
    );
    rows.push(last);
    let stores: Vec<StoredPayload> = vec![
        nop,
        on,
        off,
        public,
        private,
        complete,
        pin_on,
        pin_off,
        two,
        three,
        four,
    ];
    let plan = KeyboardPlan { rows, stores };
    assert(plan@.rows =~= configure_keyboard(view).rows);
    assert(plan@.stores =~= configure_keyboard(view).stores);
    plan
}

/// Every button of the configuration stands for a payload that is stored.
pub proof fn lemma_configuration_answered(view: ConfigureRecapView)
    ensures
        keyboards::answered(configure_keyboard(view)),
{
    let keyboard = configure_keyboard(view);
    assert forall|r: int, c: int|
        #![trigger keyboard.rows[r][c]]
        0 <= r < keyboard.rows.len() && 0 <= c
            < keyboard.rows[r].len() implies keyboards::stands_for_some(
        keyboard.rows[r][c],
        keyboard.stores,
    ) by {
        let at = if r == 1 {
            1 + c
        } else if r == 3 {
            3 + c
        } else if r == 5 {
            8 + c
        } else if r == 7 {
            6 + c
        } else if r == keyboard.rows.len() - 1 {
            5
        } else {
            0
        };
        let store = keyboard.stores[at];
        assert(keyboard.rows[r][c].wire == keys::wire_value(store.route, store.payload));
    }
}

// ---------------------------------------------------------------------------
// Buttons
// ---------------------------------------------------------------------------

/// A button of the configuration as it was pressed, with what its payload holds.
#[derive(Debug, Clone, Copy, PartialEq, Eq, Structural)]
pub struct PressedButton {
    /// Who pressed it.
    pub user_id: i64,
    /// Whom the keyboard was made for, where the payload says so.
    pub owner_id: Option<i64>,
    /// Whether the button is about pinning recaps.
    pub about_pins: bool,
    pub status: Option<bool>,
    pub mode: Option<i64>,
    pub rates: Option<i64>,
}

/// A change of the configuration.
#[derive(Debug, Clone, Copy, PartialEq, Eq, Structural)]
pub enum ConfigureChange {
    Pin(bool),
    Enable(bool),
    Mode(AutoRecapSendMode),
    Rates(i64),
    /// The payload names nothing that is known.
    Nothing,
}

/// What a button changes: the status that it names, or else the mode, or else the rate.
pub open spec fn change_of(pressed: PressedButton) -> ConfigureChange {
    match (pressed.status, pressed.mode, pressed.rates) {
        (Some(on), _, _) => if pressed.about_pins {
            ConfigureChange::Pin(on)
        } else {
            ConfigureChange::Enable(on)
        },
        (None, Some(mode), _) => match models::mode_of(mode) {
            Some(known) => ConfigureChange::Mode(known),
            None => ConfigureChange::Nothing,
        },
        (None, None, Some(rates)) => ConfigureChange::Rates(rates),
        (None, None, None) => ConfigureChange::Nothing,
    }
}

fn change_asked(pressed: &PressedButton) -> (change: ConfigureChange)
    ensures
        change == change_of(*pressed),
{
    match pressed.status {
        Some(on) => {
            return if pressed.about_pins {
                ConfigureChange::Pin(on)
            } else {
                ConfigureChange::Enable(on)
            };
        },
        None => {},
    }
    match pressed.mode {
        Some(mode) => {
            return match AutoRecapSendMode::from_stored(mode) {
                Some(known) => ConfigureChange::Mode(known),
                None => ConfigureChange::Nothing,
            };
        },
        None => {},
    }
    match pressed.rates {
        Some(rates) => ConfigureChange::Rates(rates),
        None => ConfigureChange::Nothing,
    }
}

/// What is known so far of a pressed button.
#[derive(Debug, PartialEq, Eq)]
pub struct PressState {
    /// Whether who pressed it runs the chat.
    pub privileged: Reply<bool>,
    pub applied: Reply<()>,
    /// The configuration after the change.
    pub view: Reply<ConfigureRecapView>,
    pub stored: Reply<()>,
}

impl PressState {
    /// Nothing is known yet.
    pub fn new() -> (r: Self)
        ensures
            r.privileged is Pending,
            r.applied is Pending,
            r.view is Pending,
            r.stored is Pending,
    {
        PressState {
            privileged: Reply::Pending,
            applied: Reply::Pending,
            view: Reply::Pending,
            stored: Reply::Pending,
        }
    }
}

/// What to do next for a pressed button.
#[derive(Debug, PartialEq, Eq)]
pub enum PressStep {
    /// Nothing more is done.
    Ignore,
    /// Ask whether who pressed it runs the chat.
    LookUpMember,
    Apply(ConfigureChange),
    /// Read the configuration.
    Read,
    StoreKeyboard(KeyboardPlan),
    EditKeyboard(KeyboardPlan),
}

#[verifier::ext_equal]
pub enum PressModel {
    Ignore,
    LookUpMember,
    Apply(ConfigureChange),
    Read,
    StoreKeyboard(KeyboardModel),
    EditKeyboard(KeyboardModel),
}

impl View for PressStep {
    type V = PressModel;

    open spec fn view(&self) -> PressModel {
        match *self {
            PressStep::Ignore => PressModel::Ignore,
            PressStep::LookUpMember => PressModel::LookUpMember,
            PressStep::Apply(change) => PressModel::Apply(change),
            PressStep::Read => PressModel::Read,
            PressStep::StoreKeyboard(plan) => PressModel::StoreKeyboard(plan@),
            PressStep::EditKeyboard(plan) => PressModel::EditKeyboard(plan@),
        }
    }
}

/// What to do next for a pressed button. Only the keyboard's owner is heard, and only
/// while they run the chat; the keyboard then shows the configuration after the change.
pub open spec fn press_step(pressed: PressedButton, state: PressState) -> PressModel {
    if pressed.owner_id is Some && pressed.owner_id != Some(pressed.user_id) {
        PressModel::Ignore
    } else {
        match state.privileged {
            Reply::Pending => PressModel::LookUpMember,
            Reply::Failed | Reply::Got(false) => PressModel::Ignore,
            Reply::Got(true) => match state.applied {
                Reply::Pending => PressModel::Apply(change_of(pressed)),
                Reply::Failed => PressModel::Ignore,
                Reply::Got(_) => match state.view {
                    Reply::Pending => PressModel::Read,
                    Reply::Failed => PressModel::Ignore,
                    Reply::Got(view) => match state.stored {
                        Reply::Pending => PressModel::StoreKeyboard(configure_keyboard(view)),
                        Reply::Failed => PressModel::Ignore,
                        Reply::Got(_) => PressModel::EditKeyboard(configure_keyboard(view)),
                    },
                },
            },
        }
    }
}

/// What to do next for a pressed button of the configuration.
pub fn handle_configure_button_step(pressed: &PressedButton, state: &PressState) -> (step:
    PressStep)
    ensures
        step@ == press_step(*pressed, *state),
{
    match pressed.owner_id {
        Some(owner) => {
            if owner != pressed.user_id {
                return PressStep::Ignore;
            }
        },
        None => {},
    }
    match &state.privileged {
        Reply::Pending => {
            return PressStep::LookUpMember;
        },
        Reply::Failed => {
            return PressStep::Ignore;
        },
        Reply::Got(privileged) => {
            if !*privileged {
                return PressStep::Ignore;
            }
        },
    }
    match &state.applied {
        Reply::Pending => {
            return PressStep::Apply(change_asked(pressed));
        },
        Reply::Failed => {
            return PressStep::Ignore;
        },
        Reply::Got(_) => {},
    }
    match &state.view {
        Reply::Pending => PressStep::Read,
        Reply::Failed => PressStep::Ignore,
        Reply::Got(view) => match &state.stored {
            Reply::Pending => PressStep::StoreKeyboard(build_configure_keyboard(*view)),
            Reply::Failed => PressStep::Ignore,
            Reply::Got(_) => PressStep::EditKeyboard(build_configure_keyboard(*view)),
        },
    }
}

/// Nothing is changed for someone who does not run the chat, nor for someone else than
/// the keyboard was made for, and no keyboard is shown before the change was made and its
/// payloads were stored.
pub proof fn lemma_configuration_is_guarded(pressed: PressedButton, state: PressState)
    ensures
        press_step(pressed, state) is Apply ==> state.privileged == Reply::Got(true) && (
        pressed.owner_id is None || pressed.owner_id == Some(pressed.user_id)),
        press_step(pressed, state) is EditKeyboard ==> state.privileged == Reply::Got(true)
            && state.applied is Got && state.stored is Got,
{
}

} // verus!
