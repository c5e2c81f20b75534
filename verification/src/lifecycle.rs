//! How far the process got in starting up.

use vstd::prelude::*;

verus! {

/// Readiness flags. Each is raised once and stays up.
#[derive(Debug, Clone, Copy, PartialEq, Eq, Structural)]
pub struct LifecycleFlags {
    bot_authorized: bool,
    poller_started: bool,
    auto_recap_started: bool,
}

/// The model of the flags.
pub struct Readiness {
    pub bot_authorized: bool,
    pub poller_started: bool,
    pub auto_recap_started: bool,
}

impl View for LifecycleFlags {
    type V = Readiness;

    closed spec fn view(&self) -> Readiness {
        Readiness {
            bot_authorized: self.bot_authorized,
            poller_started: self.poller_started,
            auto_recap_started: self.auto_recap_started,
        }
    }
}

/// Nothing is up yet.
pub open spec fn nothing_ready() -> Readiness {
    Readiness { bot_authorized: false, poller_started: false, auto_recap_started: false }
}

/// Whether `later` has every flag that `earlier` has.
pub open spec fn keeps(earlier: Readiness, later: Readiness) -> bool {
    &&& earlier.bot_authorized ==> later.bot_authorized
    &&& earlier.poller_started ==> later.poller_started
    &&& earlier.auto_recap_started ==> later.auto_recap_started
}

impl Default for LifecycleFlags {
    fn default() -> (r: Self)
        ensures
            r@ == nothing_ready(),
    {
        LifecycleFlags::new()
    }
}

impl LifecycleFlags {
    pub fn new() -> (r: Self)
        ensures
            r@ == nothing_ready(),
    {
        LifecycleFlags {
            bot_authorized: false,
            poller_started: false,
            auto_recap_started: false,
        }
    }

    /// The bot was authorized.
    pub fn mark_bot_authorized(&mut self)
        ensures
            final(self)@ == (Readiness { bot_authorized: true, ..old(self)@ }),
            keeps(old(self)@, final(self)@),
    {
        self.bot_authorized = true;
    }

    /// The queue poller was armed.
    pub fn mark_poller_started(&mut self)
        ensures
            final(self)@ == (Readiness { poller_started: true, ..old(self)@ }),
            keeps(old(self)@, final(self)@),
    {
        self.poller_started = true;
    }

    /// Automatic recaps were armed.
    pub fn mark_auto_recap_started(&mut self)
        ensures
            final(self)@ == (Readiness { auto_recap_started: true, ..old(self)@ }),
            keeps(old(self)@, final(self)@),
    {
        self.auto_recap_started = true;
    }

    pub fn bot_authorized(&self) -> (r: bool)
        ensures
            r == self@.bot_authorized,
    {
        self.bot_authorized
    }

    pub fn poller_started(&self) -> (r: bool)
        ensures
            r == self@.poller_started,
    {
        self.poller_started
    }

    pub fn auto_recap_started(&self) -> (r: bool)
        ensures
            r == self@.auto_recap_started,
    {
        self.auto_recap_started
    }
}

// ---------------------------------------------------------------------------
// Health
// ---------------------------------------------------------------------------

pub open spec fn label(up: bool) -> Seq<char> {
    if up {
        "up"@
    } else {
        "down"@
    }
}

pub fn status_label(up: bool) -> (out: &'static str)
    ensures
        out@ == label(up),
{
    if up {
        "up"
    } else {
        "down"
    }
}

/// What the health endpoint answers.
#[derive(Debug, PartialEq, Eq)]
pub struct HealthReport {
    /// The HTTP status.
    pub code: u16,
    pub status: &'static str,
    pub telegram_bot: &'static str,
    pub auto_recap_timecapsule_digger: &'static str,
    pub auto_recap: &'static str,
}

/// Whether everything is up.
pub open spec fn all_up(flags: Readiness) -> bool {
    flags.bot_authorized && flags.poller_started && flags.auto_recap_started
}

/// What the health endpoint answers: up and 200 once every check is up, else down and
/// 503, with each check on its own.
pub fn health_report(flags: &LifecycleFlags) -> (r: HealthReport)
    ensures
        r.code == if all_up(flags@) {
            200u16
        } else {
            503u16
        },
        r.status@ == label(all_up(flags@)),
        r.telegram_bot@ == label(flags@.bot_authorized),
        r.auto_recap_timecapsule_digger@ == label(flags@.poller_started),
        r.auto_recap@ == label(flags@.auto_recap_started),
{
    let up: bool = flags.bot_authorized() && flags.poller_started() && flags.auto_recap_started();
    HealthReport {
        code: if up {
            200
        } else {
            503
        },
        status: status_label(up),
        telegram_bot: status_label(flags.bot_authorized()),
        auto_recap_timecapsule_digger: status_label(flags.poller_started()),
        auto_recap: status_label(flags.auto_recap_started()),
    }
}

} // verus!
