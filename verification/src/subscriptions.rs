//! The sources of events, as state machines: the ticker and the two
//! listeners for the system's signals.
//!
//! A source's task waits on its timer or its connection and sleeps; after
//! each of these it reports here what it saw and is told what to do next.
//! The sources share nothing, so the failure of one is nothing to the
//! others.

use crate::ticker::{TickGranularity, Ticker, TimerCommand};
use crate::window::Message;
use vstd::prelude::*;

verus! {

/// Seconds that the time zone listener waits after a failure before it
/// connects again.
pub const RETRY_BACKOFF_SECONDS: u64 = 60;

/// Where a listener stands.
#[derive(Clone, Copy, Debug, PartialEq, Eq, Structural)]
pub enum ListenerState {
    /// It is opening its connection and subscribing.
    Connecting,
    /// It is subscribed and waits for the next notification.
    Listening,
    /// It failed and waits before it tries again.
    Waiting,
    /// It has ended for good.
    Done,
}

/// What a listener's task saw last.
#[derive(Debug)]
pub enum Outcome {
    /// The connection stands and the subscription is made.
    Connected,
    /// The time service announced the zone of this name.
    Timezone(String),
    /// The power manager announced that the system is about to sleep
    /// (`true`) or has woken up (`false`).
    PrepareForSleep(bool),
    /// The stream of notifications ended.
    Ended,
    /// Connecting, subscribing or reading failed.
    Failed,
    /// The wait after a failure is over.
    Slept,
}

/// What a listener's task does next.
#[derive(Debug)]
pub enum Action {
    /// Open the connection and subscribe.
    Connect,
    /// Wait for the next notification.
    Listen,
    /// Hand the event to the state's owner, then wait for the next
    /// notification.
    Emit(Message),
    /// Sleep this many seconds, then report `Slept`.
    Sleep(u64),
    /// Stop; there is nothing more to do.
    Stop,
}

/// The listener for changes of the system's time zone.
#[derive(Clone, Copy, Debug, PartialEq, Eq, Structural)]
pub struct TimezoneListener {
    pub state: ListenerState,
}

/// The listener for the system waking from sleep.
#[derive(Clone, Copy, Debug, PartialEq, Eq, Structural)]
pub struct WakeListener {
    pub state: ListenerState,
}

/// What a listener in a state waits for with no news: the action that
/// brought it there.
pub open spec fn pending_action(state: ListenerState) -> Action {
    match state {
        ListenerState::Connecting => Action::Connect,
        ListenerState::Listening => Action::Listen,
        ListenerState::Waiting => Action::Sleep(RETRY_BACKOFF_SECONDS),
        ListenerState::Done => Action::Stop,
    }
}

impl TimezoneListener {
    /// The state after an outcome, and the next action.
    ///
    /// Every announced zone is handed on as it comes, the first one too:
    /// each is the zone in force, not a change. A failure is followed by
    /// the fixed wait and a new connection, however often it happens. The
    /// end of the stream ends the listener.
    pub open spec fn next(self, outcome: Outcome) -> (TimezoneListener, Action) {
        match (self.state, outcome) {
            (ListenerState::Connecting, Outcome::Connected) => (
                TimezoneListener { state: ListenerState::Listening },
                Action::Listen,
            ),
            (ListenerState::Listening, Outcome::Timezone(name)) => (
                self,
                Action::Emit(Message::TimezoneUpdate(name)),
            ),
            (ListenerState::Listening, Outcome::Ended) => (
                TimezoneListener { state: ListenerState::Done },
                Action::Stop,
            ),
            (ListenerState::Connecting, Outcome::Failed) | (
                ListenerState::Listening,
                Outcome::Failed,
            ) => (
                TimezoneListener { state: ListenerState::Waiting },
                Action::Sleep(RETRY_BACKOFF_SECONDS),
            ),
            (ListenerState::Waiting, Outcome::Slept) => (
                TimezoneListener { state: ListenerState::Connecting },
                Action::Connect,
            ),
            _ => (self, pending_action(self.state)),
        }
    }

    /// A listener that is about to connect.
    pub fn start() -> (r: (TimezoneListener, Action))
        ensures
            r.0.state == ListenerState::Connecting,
            r.1 == Action::Connect,
    {
        (TimezoneListener { state: ListenerState::Connecting }, Action::Connect)
    }
}

impl WakeListener {
    /// The state after an outcome, and the next action.
    ///
    /// The power manager announces a sleep twice: before it, and after
    /// it. Every announcement that the system has woken asks for a tick,
    /// whatever was announced before it; an announcement that it is about
    /// to sleep asks for nothing. Any failure ends the listener: the
    /// clock then lags after a sleep until the next tick of its own.
    pub open spec fn next(self, outcome: Outcome) -> (WakeListener, Action) {
        match (self.state, outcome) {
            (ListenerState::Connecting, Outcome::Connected) => (
                WakeListener { state: ListenerState::Listening },
                Action::Listen,
            ),
            (ListenerState::Listening, Outcome::PrepareForSleep(entering)) => (
                self,
                if entering {
                    Action::Listen
                } else {
                    Action::Emit(Message::Tick)
                },
            ),
            (ListenerState::Connecting, Outcome::Failed) | (
                ListenerState::Listening,
                Outcome::Failed,
            ) | (ListenerState::Listening, Outcome::Ended) => (
                WakeListener { state: ListenerState::Done },
                Action::Stop,
            ),
            _ => (self, pending_action(self.state)),
        }
    }

    /// A listener that is about to connect.
    pub fn start() -> (r: (WakeListener, Action))
        ensures
            r.0.state == ListenerState::Connecting,
            r.1 == Action::Connect,
    {
        (WakeListener { state: ListenerState::Connecting }, Action::Connect)
    }
}

/// What the ticker's task saw last.
#[derive(Clone, Copy, Debug, PartialEq, Eq, Structural)]
pub enum TickerEvent {
    /// The timer fired.
    Fired,
    /// This granularity was asked for.
    Requested(TickGranularity),
}

/// What the ticker's task does next.
#[derive(Clone, Copy, Debug, PartialEq, Eq, Structural)]
pub struct TickerStep {
    /// Send a tick to the state's owner.
    pub tick: bool,
    /// What to do with the timer.
    pub timer: TimerCommand,
}

/// The ticker and the step after an event seen at second `second` of a
/// minute: every firing of the timer sends one tick and keeps per-minute
/// ticks on the minute; a request rebuilds the timer where it changes the
/// granularity, and sends nothing.
pub open spec fn ticker_step(ticker: Ticker, event: TickerEvent, second: int) -> (
    Ticker,
    TickerStep,
) {
    match event {
        TickerEvent::Fired => (ticker, TickerStep { tick: true, timer: ticker.after_tick(second) }),
        TickerEvent::Requested(granularity) => {
            let (next, timer) = ticker.after_request(granularity, second);
            (next, TickerStep { tick: false, timer })
        },
    }
}

/// Time ticking subscription: takes what the ticker's task saw last, at a
/// moment whose second of the minute is `second`, and says what it does
/// next.
pub fn time_subscription(ticker: &mut Ticker, event: TickerEvent, second: u32) -> (step: TickerStep)
    ensures
        (*final(ticker), step) == ticker_step(*old(ticker), event, second as int),
{
    match event {
        TickerEvent::Fired => TickerStep { tick: true, timer: ticker.realign(second) },
        TickerEvent::Requested(granularity) => TickerStep {
            tick: false,
            timer: ticker.set_granularity(granularity, second),
        },
    }
}

/// Timezone change subscription: takes what the listener's task saw last
/// and says what it does next.
pub fn timezone_subscription(listener: &mut TimezoneListener, outcome: Outcome) -> (action:
    Action)
    ensures
        (*final(listener), action) == old(listener).next(outcome),
{
    match (listener.state, outcome) {
        (ListenerState::Connecting, Outcome::Connected) => {
            listener.state = ListenerState::Listening;
            Action::Listen
        },
        (ListenerState::Listening, Outcome::Timezone(name)) => Action::Emit(
            Message::TimezoneUpdate(name),
        ),
        (ListenerState::Listening, Outcome::Ended) => {
            listener.state = ListenerState::Done;
            Action::Stop
        },
        (ListenerState::Connecting, Outcome::Failed) => {
            listener.state = ListenerState::Waiting;
            Action::Sleep(RETRY_BACKOFF_SECONDS)
        },
        (ListenerState::Listening, Outcome::Failed) => {
            listener.state = ListenerState::Waiting;
            Action::Sleep(RETRY_BACKOFF_SECONDS)
        },
        (ListenerState::Waiting, Outcome::Slept) => {
            listener.state = ListenerState::Connecting;
            Action::Connect
        },
        (state, _) => pending(state),
    }
}

/// Wake from sleep subscription: takes what the listener's task saw last
/// and says what it does next.
pub fn wake_from_sleep_subscription(listener: &mut WakeListener, outcome: Outcome) -> (action:
    Action)
    ensures
        (*final(listener), action) == old(listener).next(outcome),
{
    match (listener.state, outcome) {
        (ListenerState::Connecting, Outcome::Connected) => {
            listener.state = ListenerState::Listening;
            Action::Listen
        },
        (ListenerState::Listening, Outcome::PrepareForSleep(entering)) => {
            if entering {
                Action::Listen
            } else {
                Action::Emit(Message::Tick)
            }
        },
        (ListenerState::Connecting, Outcome::Failed) => {
            listener.state = ListenerState::Done;
            Action::Stop
        },
        (ListenerState::Listening, Outcome::Failed) => {
            listener.state = ListenerState::Done;
            Action::Stop
        },
        (ListenerState::Listening, Outcome::Ended) => {
            listener.state = ListenerState::Done;
            Action::Stop
        },
        (state, _) => pending(state),
    }
}

/// What a listener in a state waits for with no news.
fn pending(state: ListenerState) -> (action: Action)
    ensures
        action == pending_action(state),
{
    match state {
        ListenerState::Connecting => Action::Connect,
        ListenerState::Listening => Action::Listen,
        ListenerState::Waiting => Action::Sleep(RETRY_BACKOFF_SECONDS),
        ListenerState::Done => Action::Stop,
    }
}

/// However often the time zone listener fails, it waits the fixed time
/// and connects again: a failure never ends it.
pub proof fn lemma_timezone_listener_retries(listener: TimezoneListener)
    requires
        listener.state == ListenerState::Connecting || listener.state == ListenerState::Listening,
    ensures
        ({
            let (failed, wait) = listener.next(Outcome::Failed);
            let (again, connect) = failed.next(Outcome::Slept);
            &&& wait == Action::Sleep(RETRY_BACKOFF_SECONDS)
            &&& connect == Action::Connect
            &&& again.state == ListenerState::Connecting
        }),
{
}

/// A listener that has ended stays ended, whatever is reported to it.
pub proof fn lemma_done_is_final(timezone: TimezoneListener, wake: WakeListener, outcome: Outcome)
    requires
        timezone.state == ListenerState::Done,
        wake.state == ListenerState::Done,
    ensures
        timezone.next(outcome) == (timezone, Action::Stop),
        wake.next(outcome) == (wake, Action::Stop),
{
}

/// What a listener does in turn for a run of announcements of the power
/// manager, each `true` before a sleep and `false` after it.
pub open spec fn wake_actions(listener: WakeListener, signals: Seq<bool>) -> Seq<Action>
    decreases signals.len(),
{
    if signals.len() == 0 {
        Seq::empty()
    } else {
        let (next, action) = listener.next(Outcome::PrepareForSleep(signals[0]));
        seq![action] + wake_actions(next, signals.drop_first())
    }
}

/// A listening listener asks for one tick for each announcement that the
/// system has woken, in the order of the announcements, and for nothing
/// else: as many ticks as wakings, whatever was announced in between.
pub proof fn lemma_one_tick_per_wake(listener: WakeListener, signals: Seq<bool>)
    requires
        listener.state == ListenerState::Listening,
    ensures
        wake_actions(listener, signals).len() == signals.len(),
        forall|i: int|
            0 <= i < signals.len() ==> #[trigger] wake_actions(listener, signals)[i] == (
            if signals[i] {
                Action::Listen
            } else {
                Action::Emit(Message::Tick)
            }),
    decreases signals.len(),
{
    if signals.len() > 0 {
        let rest = signals.drop_first();
        lemma_one_tick_per_wake(listener, rest);
        assert forall|i: int| 0 <= i < signals.len() implies #[trigger] wake_actions(
            listener,
            signals,
        )[i] == (if signals[i] {
            Action::Listen
        } else {
            Action::Emit(Message::Tick)
        }) by {
            if i > 0 {
                assert(wake_actions(listener, signals)[i] == wake_actions(listener, rest)[i - 1]);
                assert(rest[i - 1] == signals[i]);
            }
        }
    }
}

} // verus!
