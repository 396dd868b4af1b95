//! Adaptive clock ticker: per-second or per-minute ticks, the latter
//! aligned to wall-clock minute boundaries.
//!
//! The timer itself belongs to whoever runs the event loop. This module
//! decides when it has to be rebuilt and with which delays.

use crate::text::chars_of;
use vstd::prelude::*;

verus! {

/// How often the clock ticks.
#[derive(Clone, Copy, Debug, PartialEq, Eq, Structural)]
pub enum TickGranularity {
    PerSecond,
    PerMinute,
}

/// Whether the character after a `%` makes a template show seconds.
pub open spec fn is_seconds_char(c: char) -> bool {
    c == 'S' || c == 'T' || c == '+' || c == 's'
}

/// Whether a seconds specifier starts at position `i` of the template.
pub open spec fn seconds_specifier_at(template: Seq<char>, i: int) -> bool {
    &&& 0 <= i
    &&& i + 1 < template.len()
    &&& template[i] == '%'
    &&& is_seconds_char(template[i + 1])
}

/// Whether the template holds one of `%S`, `%T`, `%+`, `%s`.
pub open spec fn has_seconds_specifier(template: Seq<char>) -> bool {
    exists|i: int| seconds_specifier_at(template, i)
}

/// The granularity that a configuration asks for, given the one in force.
///
/// With no template, `show_seconds` decides. A template that holds a
/// seconds specifier needs a tick every second whatever `show_seconds`
/// says. Any other template leaves the granularity as it is.
pub open spec fn effective_granularity(
    current: TickGranularity,
    show_seconds: bool,
    template: Seq<char>,
) -> TickGranularity {
    if template.len() > 0 {
        if has_seconds_specifier(template) {
            TickGranularity::PerSecond
        } else {
            current
        }
    } else if show_seconds {
        TickGranularity::PerSecond
    } else {
        TickGranularity::PerMinute
    }
}

/// Seconds from a moment whose second of the minute is `second` to the
/// next minute boundary.
pub open spec fn seconds_to_next_minute(second: int) -> int {
    60 - second % 60
}

/// What to do with the recurring timer.
#[derive(Clone, Copy, Debug, PartialEq, Eq, Structural)]
pub enum TimerCommand {
    /// Leave the running timer alone.
    Keep,
    /// Cancel the timer and start one that first fires after
    /// `first_after` seconds and then every `period` seconds.
    Restart { first_after: u64, period: u64 },
    /// Keep the timer, but let it fire next after this many seconds and
    /// go on from there.
    ResetAfter(u64),
}

/// The timer that a granularity asks for when it is set up at a moment
/// whose second of the minute is `second`.
pub open spec fn timer_for(granularity: TickGranularity, second: int) -> TimerCommand {
    match granularity {
        TickGranularity::PerSecond => TimerCommand::Restart { first_after: 1, period: 1 },
        TickGranularity::PerMinute => TimerCommand::Restart {
            first_after: seconds_to_next_minute(second) as u64,
            period: 60,
        },
    }
}

/// The clock ticker's state: the granularity its timer was built for.
#[derive(Clone, Copy, Debug, PartialEq, Eq, Structural)]
pub struct Ticker {
    pub granularity: TickGranularity,
}

/// Whether the template holds a seconds specifier.
pub fn template_shows_seconds(template: &str) -> (found: bool)
    ensures
        found == has_seconds_specifier(template@),
{
    let chars = chars_of(template);
    let n: usize = chars.len();
    if n < 2 {
        return false;
    }
    let mut i: usize = 0;
    while i < n - 1
        invariant
            chars@ == template@,
            n == chars.len(),
            2 <= n,
            i <= n - 1,
            forall|j: int| 0 <= j < i ==> !seconds_specifier_at(template@, j),
        decreases n - i,
    {
        let next: char = chars[i + 1];
        if chars[i] == '%' && (next == 'S' || next == 'T' || next == '+' || next == 's') {
            assert(seconds_specifier_at(template@, i as int));
            return true;
        }
        i += 1;
    }
    false
}

/// The granularity to tick at once a configuration with these settings
/// has arrived.
pub fn reconcile_granularity(current: TickGranularity, show_seconds: bool, template: &str) -> (next:
    TickGranularity)
    ensures
        next == effective_granularity(current, show_seconds, template@),
        has_seconds_specifier(template@) ==> next == TickGranularity::PerSecond,
{
    if !template.is_empty() {
        if template_shows_seconds(template) {
            TickGranularity::PerSecond
        } else {
            current
        }
    } else {
        assert(!has_seconds_specifier(template@));
        if show_seconds {
            TickGranularity::PerSecond
        } else {
            TickGranularity::PerMinute
        }
    }
}

/// Delay, in whole seconds, until the next wall-clock minute boundary.
/// The moment reached after it is the start of a minute.
pub fn delay_to_next_minute(second: u32) -> (delay: u64)
    ensures
        delay == seconds_to_next_minute(second as int),
        1 <= delay <= 60,
        (second + delay) % 60 == 0,
{
    let within: u32 = second % 60;
    (60 - within) as u64
}

impl Ticker {
    /// Seconds between two ticks.
    pub open spec fn spec_period(self) -> int {
        match self.granularity {
            TickGranularity::PerSecond => 1,
            TickGranularity::PerMinute => 60,
        }
    }

    /// The ticker after a request for `requested`, and what the request
    /// does to the timer: nothing when that granularity is in force.
    pub open spec fn after_request(self, requested: TickGranularity, second: int) -> (
        Ticker,
        TimerCommand,
    ) {
        if requested == self.granularity {
            (self, TimerCommand::Keep)
        } else {
            (Ticker { granularity: requested }, timer_for(requested, second))
        }
    }

    /// Starts ticking at `granularity`, at a moment whose second of the
    /// minute is `second`. The first timer is always built.
    pub fn start(granularity: TickGranularity, second: u32) -> (r: (Ticker, TimerCommand))
        ensures
            r.0.granularity == granularity,
            r.1 == timer_for(granularity, second as int),
            r.1 is Restart,
    {
        (Ticker { granularity }, build_timer(granularity, second))
    }

    /// Seconds between two ticks.
    pub fn period(&self) -> (period: u64)
        ensures
            period == self.spec_period(),
    {
        match self.granularity {
            TickGranularity::PerSecond => 1,
            TickGranularity::PerMinute => 60,
        }
    }

    /// Handles a request to tick at `requested`, made at a moment whose
    /// second of the minute is `second`. The timer is rebuilt only where
    /// the granularity changes.
    pub fn set_granularity(&mut self, requested: TickGranularity, second: u32) -> (command:
        TimerCommand)
        ensures
            (*final(self), command) == old(self).after_request(requested, second as int),
            requested == old(self).granularity ==> command is Keep && *final(self) == *old(self),
            final(self).granularity == requested,
    {
        if requested == self.granularity {
            TimerCommand::Keep
        } else {
            self.granularity = requested;
            build_timer(requested, second)
        }
    }

    /// What a tick that fired at second `second` of a minute does to the
    /// timer: a per-minute tick that came off the minute boundary puts
    /// the next one back on it.
    pub open spec fn after_tick(self, second: int) -> TimerCommand {
        if second % 60 == 0 || self.granularity == TickGranularity::PerSecond {
            TimerCommand::Keep
        } else {
            TimerCommand::ResetAfter(seconds_to_next_minute(second) as u64)
        }
    }

    /// After a tick that fired at a moment whose second of the minute is
    /// `second`: puts the next tick back on the minute boundary, if this
    /// one was off it.
    pub fn realign(&self, second: u32) -> (command: TimerCommand)
        ensures
            command == self.after_tick(second as int),
            command matches TimerCommand::ResetAfter(d) ==> 1 <= d < 60 && (second + d) % 60 == 0,
    {
        match self.granularity {
            TickGranularity::PerSecond => TimerCommand::Keep,
            TickGranularity::PerMinute => {
                if second % 60 == 0 {
                    TimerCommand::Keep
                } else {
                    TimerCommand::ResetAfter(delay_to_next_minute(second))
                }
            },
        }
    }
}

/// The timer for a granularity set up at second `second` of a minute.
fn build_timer(granularity: TickGranularity, second: u32) -> (command: TimerCommand)
    ensures
        command == timer_for(granularity, second as int),
        command is Restart,
{
    match granularity {
        TickGranularity::PerSecond => TimerCommand::Restart { first_after: 1, period: 1 },
        TickGranularity::PerMinute => TimerCommand::Restart {
            first_after: delay_to_next_minute(second),
            period: 60,
        },
    }
}

/// A per-minute timer, whenever in the minute it is set up, first fires
/// on a minute boundary and stays on one with every later period.
pub proof fn lemma_minute_ticks_on_boundary(second: int, ticks: nat)
    requires
        0 <= second,
    ensures
        timer_for(TickGranularity::PerMinute, second) matches TimerCommand::Restart {
            first_after,
            period,
        } && 1 <= first_after <= 60 && (second + first_after + ticks * period) % 60 == 0,
{
    let first = seconds_to_next_minute(second);
    assert(1 <= first <= 60);
    assert((second + first + ticks * 60) % 60 == 0) by {
        vstd::arithmetic::div_mod::lemma_mod_multiples_vanish(ticks as int, second + first, 60);
    }
}

/// A per-minute timer fires within one second after a minute boundary,
/// whatever the moment it is set up at: the moment is known to the
/// second, so the part of a second that had passed stays.
pub proof fn lemma_minute_tick_within_a_second(millis: int, ticks: nat)
    requires
        0 <= millis,
    ensures
        ({
            let second = (millis / 1000) % 60;
            let fire = millis + seconds_to_next_minute(second) * 1000 + ticks * 60000;
            0 <= fire % 60000 < 1000
        }),
{
    let whole = millis / 1000;
    let part = millis % 1000;
    let second = whole % 60;
    let minutes = whole / 60;
    assert(millis == (minutes * 60 + second) * 1000 + part);
    let fire = millis + seconds_to_next_minute(second) * 1000 + ticks * 60000;
    assert(seconds_to_next_minute(second) == 60 - second);
    assert(fire == (minutes + 1 + ticks) * 60000 + part);
    assert(fire % 60000 == part) by {
        vstd::arithmetic::div_mod::lemma_fundamental_div_mod_converse(
            fire,
            60000,
            minutes + 1 + ticks,
            part,
        );
    }
}

/// Asking twice for one granularity rebuilds the timer at most once: the
/// second request keeps the timer and leaves the ticker as it is.
pub proof fn lemma_repeated_request_keeps_timer(
    ticker: Ticker,
    requested: TickGranularity,
    first_second: int,
    second_second: int,
)
    ensures
        ({
            let (once, _) = ticker.after_request(requested, first_second);
            once.after_request(requested, second_second) == (once, TimerCommand::Keep)
        }),
{
}

/// Switching to another granularity and back ends at the granularity it
/// started from.
pub proof fn lemma_switch_and_back(
    ticker: Ticker,
    other: TickGranularity,
    first_second: int,
    second_second: int,
)
    ensures
        ({
            let (away, _) = ticker.after_request(other, first_second);
            away.after_request(ticker.granularity, second_second).0 == ticker
        }),
{
}

/// A template that holds `%S` asks for a tick every second, whatever
/// `show_seconds` says and whatever granularity was in force.
pub proof fn lemma_percent_s_forces_seconds(
    current: TickGranularity,
    show_seconds: bool,
    template: Seq<char>,
    i: int,
)
    requires
        0 <= i,
        i + 1 < template.len(),
        template[i] == '%',
        template[i + 1] == 'S',
    ensures
        effective_granularity(current, show_seconds, template) == TickGranularity::PerSecond,
{
    assert(seconds_specifier_at(template, i));
}

} // verus!
