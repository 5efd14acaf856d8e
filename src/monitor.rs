use vstd::prelude::*;
use crate::health::{HealthState, HealthSample, poll_state, classify};

verus! {

/// What a monitor is, abstractly: the state it last reported and whether it
/// still polls.
pub struct MonitorView {
    pub last: HealthState,
    pub active: bool,
}

/// The decisions of the health polling loop.
///
/// The loop that owns it asks `continue_polling` at the top of each cycle,
/// polls the endpoint, and hands the result to `observe`, which says whether
/// the presentation must be updated.
pub struct HealthMonitor {
    last: HealthState,
    active: bool,
}

impl View for HealthMonitor {
    type V = MonitorView;

    closed spec fn view(&self) -> MonitorView {
        MonitorView { last: self.last, active: self.active }
    }
}

/// A monitor before its first poll: it reports `Stopped` and is active.
pub open spec fn initial_monitor() -> MonitorView {
    MonitorView { last: HealthState::Stopped, active: true }
}

/// The monitor after the check at the top of a cycle; once shutdown has been
/// seen it stays inactive.
pub open spec fn after_check(m: MonitorView, shutdown_requested: bool) -> MonitorView {
    MonitorView { last: m.last, active: m.active && !shutdown_requested }
}

/// The callback that a poll triggers: the new state where it differs from the
/// last one and the monitor is active, else none.
pub open spec fn callback_of(m: MonitorView, poll: Option<HealthSample>) -> Option<HealthState> {
    if m.active && poll_state(poll) != m.last {
        Some(poll_state(poll))
    } else {
        None
    }
}

/// The monitor after a poll.
pub open spec fn after_poll(m: MonitorView, poll: Option<HealthSample>) -> MonitorView {
    if m.active {
        MonitorView { last: poll_state(poll), active: true }
    } else {
        m
    }
}

/// The monitor after a run of polls.
pub open spec fn monitor_after(m: MonitorView, polls: Seq<Option<HealthSample>>) -> MonitorView
    decreases polls.len(),
{
    if polls.len() == 0 {
        m
    } else {
        after_poll(monitor_after(m, polls.drop_last()), polls.last())
    }
}

/// A callback as a sequence of zero or one states.
pub open spec fn callback_seq(c: Option<HealthState>) -> Seq<HealthState> {
    match c {
        Some(s) => seq![s],
        None => Seq::empty(),
    }
}

/// The callbacks that a run of polls triggers, in order.
pub open spec fn callbacks(m: MonitorView, polls: Seq<Option<HealthSample>>) -> Seq<HealthState>
    decreases polls.len(),
{
    if polls.len() == 0 {
        Seq::empty()
    } else {
        callbacks(m, polls.drop_last()) + callback_seq(
            callback_of(monitor_after(m, polls.drop_last()), polls.last()),
        )
    }
}

/// Two polls that carry the same status and connection flag (or are both
/// absent).
pub open spec fn same_signal(a: Option<HealthSample>, b: Option<HealthSample>) -> bool {
    match (a, b) {
        (None, None) => true,
        (Some(x), Some(y)) => x.status@ == y.status@ && x.plugin_connected == y.plugin_connected,
        _ => false,
    }
}

impl HealthMonitor {
    /// A monitor that has not polled yet.
    pub fn new() -> (r: HealthMonitor)
        ensures
            r@ == initial_monitor(),
    {
        HealthMonitor { last: HealthState::Stopped, active: true }
    }

    /// The state last reported.
    pub fn last_state(&self) -> (r: HealthState)
        ensures
            r == self@.last,
    {
        self.last
    }

    /// Whether the monitor still polls.
    pub fn is_active(&self) -> (r: bool)
        ensures
            r == self@.active,
    {
        self.active
    }

    /// The check at the top of a cycle: returns whether to poll again.
    pub fn continue_polling(&mut self, shutdown_requested: bool) -> (r: bool)
        ensures
            final(self)@ == after_check(old(self)@, shutdown_requested),
            r == final(self)@.active,
    {
        if shutdown_requested {
            self.active = false;
        }
        self.active
    }

    /// Takes the result of one poll; returns the state to present where it
    /// changed.
    pub fn observe(&mut self, poll: &Option<HealthSample>) -> (r: Option<HealthState>)
        ensures
            r == callback_of(old(self)@, *poll),
            final(self)@ == after_poll(old(self)@, *poll),
    {
        if !self.active {
            return None;
        }
        let next = classify(poll);
        if next != self.last {
            self.last = next;
            Some(next)
        } else {
            None
        }
    }
}

/// Polling never turns an active monitor inactive, nor the reverse.
pub proof fn lemma_polls_keep_activity(m: MonitorView, polls: Seq<Option<HealthSample>>)
    ensures
        monitor_after(m, polls).active == m.active,
        !m.active ==> monitor_after(m, polls) == m,
    decreases polls.len(),
{
    if polls.len() > 0 {
        lemma_polls_keep_activity(m, polls.drop_last());
    }
}

/// The state after a run of polls is determined by the status and connection
/// flag of the latest poll alone: neither earlier polls nor the state the
/// monitor started from play a part.
pub proof fn lemma_state_from_latest_poll(
    m1: MonitorView,
    m2: MonitorView,
    polls1: Seq<Option<HealthSample>>,
    polls2: Seq<Option<HealthSample>>,
)
    requires
        m1.active,
        m2.active,
        polls1.len() > 0,
        polls2.len() > 0,
        same_signal(polls1.last(), polls2.last()),
    ensures
        monitor_after(m1, polls1).last == monitor_after(m2, polls2).last,
        monitor_after(m1, polls1).last == poll_state(polls1.last()),
{
    lemma_polls_keep_activity(m1, polls1.drop_last());
    lemma_polls_keep_activity(m2, polls2.drop_last());
}

/// A poll that repeats the current state triggers no callback; one that
/// changes it triggers exactly one, carrying the new state.
pub proof fn lemma_one_callback_per_change(
    m: MonitorView,
    polls: Seq<Option<HealthSample>>,
    next: Option<HealthSample>,
)
    requires
        m.active,
    ensures
        poll_state(next) == monitor_after(m, polls).last ==> callbacks(m, polls.push(next))
            == callbacks(m, polls),
        poll_state(next) != monitor_after(m, polls).last ==> callbacks(m, polls.push(next))
            == callbacks(m, polls).push(poll_state(next)),
{
    lemma_polls_keep_activity(m, polls);
    assert(polls.push(next).drop_last() =~= polls);
    assert(callbacks(m, polls) + Seq::<HealthState>::empty() =~= callbacks(m, polls));
    assert(callbacks(m, polls) + seq![poll_state(next)] =~= callbacks(m, polls).push(
        poll_state(next),
    ));
}

/// Once a cycle check has seen the shutdown request, no poll triggers a
/// callback any more.
pub proof fn lemma_silent_after_shutdown(m: MonitorView, polls: Seq<Option<HealthSample>>)
    ensures
        !after_check(m, true).active,
        callbacks(after_check(m, true), polls) == Seq::<HealthState>::empty(),
    decreases polls.len(),
{
    let s = after_check(m, true);
    if polls.len() > 0 {
        lemma_silent_after_shutdown(m, polls.drop_last());
        lemma_polls_keep_activity(s, polls.drop_last());
        assert(callbacks(s, polls) =~= Seq::<HealthState>::empty());
    }
}

} // verus!
