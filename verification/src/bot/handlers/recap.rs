//! Where the press of a button leads.

use vstd::prelude::*;

use crate::bot::handlers::recap_configure::ROUTE_NOP;
use crate::redis::keys;
use crate::redis::recap_state::{
    self, dispatch, CallbackResolution, CallbackRoute, CallbackRouteRegistry, ResolutionModel,
    RouteModel,
};
use crate::reply::Reply;
use crate::text::{self, same};

verus! {

/// What is said where a button leads nowhere.
pub const INVALID_ACTION: &'static str = "抱歉，因为操作无效，此操作无法进行，请重新发起操作后再试。";

/// What is to be done for a press.
#[derive(Debug, PartialEq, Eq)]
pub enum CallbackStep {
    Ignore,
    /// Say in the message that the button leads nowhere.
    Invalid,
    /// Look up the payload.
    LookUp { route: &'static str, action_hash: String },
    /// Hand the payload over; it is empty where it has expired.
    Handle { handler: CallbackHandler, payload_json: String },
}

#[verifier::ext_equal]
pub enum CallbackModel {
    Ignore,
    Invalid,
    LookUp(Seq<char>, Seq<char>),
    Handle(CallbackHandler, Seq<char>),
}

impl View for CallbackStep {
    type V = CallbackModel;

    open spec fn view(&self) -> CallbackModel {
        match self {
            CallbackStep::Ignore => CallbackModel::Ignore,
            CallbackStep::Invalid => CallbackModel::Invalid,
            CallbackStep::LookUp { route, action_hash } => CallbackModel::LookUp(
                route@,
                action_hash@,
            ),
            CallbackStep::Handle { handler, payload_json } => CallbackModel::Handle(
                *handler,
                payload_json@,
            ),
        }
    }
}

/// A heading was pressed, which does nothing.
pub open spec fn is_heading(wire: Seq<char>) -> bool {
    match keys::decoded_wire(wire) {
        Some((route_hash, _)) => route_hash == keys::wire_hash(ROUTE_NOP@),
        None => false,
    }
}

/// Which handler a press is for.
#[derive(Debug, Clone, Copy, PartialEq, Eq, Structural)]
pub enum CallbackHandler {
    SelectHour,
    RecapFeedback,
    SummarizationFeedback,
    Unsubscribe,
    Toggle,
    AssignMode,
    Rates,
    Pin,
    Complete,
    /// The bot does not know itself yet, and the handler would need it.
    Ignore,
    Invalid,
}

/// The handler of a route. Switches need the bot to know itself.
pub open spec fn handler_of(route: Seq<char>, knows_itself: bool) -> CallbackHandler {
    if route == keys::ROUTE_SELECT_HOUR@ {
        CallbackHandler::SelectHour
    } else if route == keys::ROUTE_RECAP_FEEDBACK_REACT@ {
        CallbackHandler::RecapFeedback
    } else if route == keys::ROUTE_SMR_SUMMARIZATION_FEEDBACK_REACT@ {
        CallbackHandler::SummarizationFeedback
    } else if route == keys::ROUTE_UNSUBSCRIBE_RECAP@ {
        CallbackHandler::Unsubscribe
    } else if route == keys::ROUTE_CONFIGURE_TOGGLE@ {
        if knows_itself {
            CallbackHandler::Toggle
        } else {
            CallbackHandler::Ignore
        }
    } else if route == keys::ROUTE_CONFIGURE_ASSIGN_MODE@ {
        if knows_itself {
            CallbackHandler::AssignMode
        } else {
            CallbackHandler::Ignore
        }
    } else if route == keys::ROUTE_CONFIGURE_AUTO_RECAP_RATES_PER_DAY@ {
        if knows_itself {
            CallbackHandler::Rates
        } else {
            CallbackHandler::Ignore
        }
    } else if route == keys::ROUTE_CONFIGURE_PIN@ {
        if knows_itself {
            CallbackHandler::Pin
        } else {
            CallbackHandler::Ignore
        }
    } else if route == keys::ROUTE_CONFIGURE_COMPLETE@ {
        CallbackHandler::Complete
    } else {
        CallbackHandler::Invalid
    }
}

/// The handler of a route.
pub fn handler_for(route: &str, knows_itself: bool) -> (r: CallbackHandler)
    ensures
        r == handler_of(route@, knows_itself),
{
    if same(route, keys::ROUTE_SELECT_HOUR) {
        return CallbackHandler::SelectHour;
    }
    if same(route, keys::ROUTE_RECAP_FEEDBACK_REACT) {
        return CallbackHandler::RecapFeedback;
    }
    if same(route, keys::ROUTE_SMR_SUMMARIZATION_FEEDBACK_REACT) {
        return CallbackHandler::SummarizationFeedback;
    }
    if same(route, keys::ROUTE_UNSUBSCRIBE_RECAP) {
        return CallbackHandler::Unsubscribe;
    }
    let switch: CallbackHandler = if same(route, keys::ROUTE_CONFIGURE_TOGGLE) {
        CallbackHandler::Toggle
    } else if same(route, keys::ROUTE_CONFIGURE_ASSIGN_MODE) {
        CallbackHandler::AssignMode
    } else if same(route, keys::ROUTE_CONFIGURE_AUTO_RECAP_RATES_PER_DAY) {
        CallbackHandler::Rates
    } else if same(route, keys::ROUTE_CONFIGURE_PIN) {
        CallbackHandler::Pin
    } else if same(route, keys::ROUTE_CONFIGURE_COMPLETE) {
        return CallbackHandler::Complete;
    } else {
        return CallbackHandler::Invalid;
    };
    if knows_itself {
        switch
    } else {
        CallbackHandler::Ignore
    }
}

/// What is to be done once the payload of a press is known.
pub open spec fn handed_over(
    resolution: ResolutionModel,
    knows_itself: bool,
) -> CallbackModel {
    match resolution {
        ResolutionModel::UnknownRoute => CallbackModel::Ignore,
        ResolutionModel::Malformed => CallbackModel::Invalid,
        ResolutionModel::MissingHandler { .. } => CallbackModel::Invalid,
        ResolutionModel::Dispatch { route, payload_json, .. } => match handler_of(
            route,
            knows_itself,
        ) {
            CallbackHandler::Ignore => CallbackModel::Ignore,
            CallbackHandler::Invalid => CallbackModel::Invalid,
            handler => CallbackModel::Handle(handler, payload_json),
        },
    }
}

/// What is to be done for a press, where `wire` is what the button carries and `payload`
/// what was found for it.
pub open spec fn callback_step(
    wire: Seq<char>,
    store_available: bool,
    knows_itself: bool,
    payload: Reply<Option<String>>,
) -> CallbackModel {
    if is_heading(wire) || !store_available {
        CallbackModel::Ignore
    } else {
        match recap_state::routed(keys::registered_routes().to_set(), wire) {
            RouteModel::Lookup { route, action_hash } => match payload {
                Reply::Pending => CallbackModel::LookUp(route, action_hash),
                Reply::Failed => CallbackModel::Ignore,
                Reply::Got(found) => handed_over(
                    recap_state::resolved(
                        RouteModel::Lookup { route, action_hash },
                        text::viewed(found),
                    ),
                    knows_itself,
                ),
            },
            other => handed_over(recap_state::resolved(other, None), knows_itself),
        }
    }
}

fn hand_over(resolution: CallbackResolution, knows_itself: bool) -> (step: CallbackStep)
    ensures
        step@ == handed_over(resolution@, knows_itself),
{
    match resolution {
        CallbackResolution::UnknownRoute => CallbackStep::Ignore,
        CallbackResolution::Malformed => CallbackStep::Invalid,
        CallbackResolution::MissingHandler { .. } => CallbackStep::Invalid,
        CallbackResolution::Dispatch { route, payload_json, .. } => {
            match handler_for(route, knows_itself) {
                CallbackHandler::Ignore => CallbackStep::Ignore,
                CallbackHandler::Invalid => CallbackStep::Invalid,
                handler => CallbackStep::Handle { handler, payload_json },
            }
        },
    }
}

/// What is to be done for a press: headings and unknown buttons are passed over, a button
/// that leads nowhere is said to be invalid, and the others lead to their handlers.
pub fn handle_callback_query_step(
    wire: &str,
    store_available: bool,
    knows_itself: bool,
    payload: &Reply<Option<String>>,
) -> (step: CallbackStep)
    ensures
        step@ == callback_step(wire@, store_available, knows_itself, *payload),
{
    match keys::decode_callback_wire(wire) {
        Some((route_hash, _)) => {
            let heading: String = keys::callback_route_hash(ROUTE_NOP);
            if same(route_hash, heading.as_str()) {
                return CallbackStep::Ignore;
            }
        },
        None => {},
    }
    if !store_available {
        return CallbackStep::Ignore;
    }
    let registry = CallbackRouteRegistry::with_all_registered_routes();
    match registry.route(wire) {
        CallbackRoute::Lookup { route, action_hash } => match payload {
            Reply::Pending => CallbackStep::LookUp { route, action_hash },
            Reply::Failed => CallbackStep::Ignore,
            Reply::Got(found) => {
                let found: Option<String> = match found {
                    Some(payload) => Some(payload.clone()),
                    None => None,
                };
                hand_over(dispatch(CallbackRoute::Lookup { route, action_hash }, found), knows_itself)
            },
        },
        other => hand_over(dispatch(other, None), knows_itself),
    }
}

/// Every press that has its payload looked up is handed over to a handler, whatever is
/// found, once the bot knows itself.
pub proof fn lemma_every_route_is_handled(wire: Seq<char>, found: Option<String>)
    requires
        callback_step(wire, true, true, Reply::Pending) is LookUp,
    ensures
        callback_step(wire, true, true, Reply::Got(found)) is Handle,
{
    match recap_state::routed(keys::registered_routes().to_set(), wire) {
        RouteModel::Lookup { route, .. } => {
            assert(keys::registered_routes().contains(route));
            let i = choose|i: int|
                0 <= i < keys::registered_routes().len() && keys::registered_routes()[i] == route;
            assert(keys::REGISTERED_CALLBACK_ROUTES@ =~= seq![
                keys::ROUTE_SELECT_HOUR,
                keys::ROUTE_CONFIGURE_TOGGLE,
                keys::ROUTE_CONFIGURE_ASSIGN_MODE,
                keys::ROUTE_CONFIGURE_COMPLETE,
                keys::ROUTE_UNSUBSCRIBE_RECAP,
                keys::ROUTE_RECAP_FEEDBACK_REACT,
                keys::ROUTE_CONFIGURE_AUTO_RECAP_RATES_PER_DAY,
                keys::ROUTE_CONFIGURE_PIN,
                keys::ROUTE_SMR_SUMMARIZATION_FEEDBACK_REACT,
            ]);
            assert(keys::registered_routes()[i] == route);
        },
        _ => {},
    }
}

} // verus!
