use cosmic_applet_timeplus::ticker::{
    delay_to_next_minute, reconcile_granularity, template_shows_seconds, TickGranularity, Ticker,
    TimerCommand,
};

#[test]
fn delay_reaches_the_minute_boundary() {
    assert_eq!(delay_to_next_minute(0), 60);
    assert_eq!(delay_to_next_minute(1), 59);
    assert_eq!(delay_to_next_minute(59), 1);
    for second in 0..60u32 {
        let delay = delay_to_next_minute(second);
        assert!(1 <= delay && delay <= 60);
        assert_eq!((second as u64 + delay) % 60, 0);
    }
}

#[test]
fn seconds_specifiers_are_found() {
    assert!(template_shows_seconds("%H:%M:%S"));
    assert!(template_shows_seconds("%T"));
    assert!(template_shows_seconds("%+"));
    assert!(template_shows_seconds("at %s"));
    assert!(!template_shows_seconds("%H:%M"));
    assert!(!template_shows_seconds(""));
    assert!(!template_shows_seconds("%"));
    assert!(!template_shows_seconds("S"));
    assert!(!template_shows_seconds("Seconds %M"));
}

#[test]
fn template_with_seconds_forces_per_second_ticks() {
    assert_eq!(
        reconcile_granularity(TickGranularity::PerMinute, false, "%H:%M:%S"),
        TickGranularity::PerSecond
    );
    assert_eq!(
        reconcile_granularity(TickGranularity::PerSecond, false, "%H:%M:%S"),
        TickGranularity::PerSecond
    );
}

#[test]
fn template_without_seconds_leaves_the_granularity() {
    assert_eq!(
        reconcile_granularity(TickGranularity::PerMinute, true, "%H:%M"),
        TickGranularity::PerMinute
    );
    assert_eq!(
        reconcile_granularity(TickGranularity::PerSecond, false, "%H:%M"),
        TickGranularity::PerSecond
    );
}

#[test]
fn without_template_show_seconds_decides() {
    assert_eq!(
        reconcile_granularity(TickGranularity::PerMinute, true, ""),
        TickGranularity::PerSecond
    );
    assert_eq!(
        reconcile_granularity(TickGranularity::PerSecond, false, ""),
        TickGranularity::PerMinute
    );
}

#[test]
fn starting_builds_the_first_timer() {
    let (ticker, command) = Ticker::start(TickGranularity::PerSecond, 17);
    assert_eq!(ticker.granularity, TickGranularity::PerSecond);
    assert_eq!(ticker.period(), 1);
    assert_eq!(command, TimerCommand::Restart { first_after: 1, period: 1 });
    let (ticker, command) = Ticker::start(TickGranularity::PerMinute, 17);
    assert_eq!(ticker.period(), 60);
    assert_eq!(command, TimerCommand::Restart { first_after: 43, period: 60 });
}

#[test]
fn same_granularity_twice_resets_the_timer_once() {
    let (mut ticker, _) = Ticker::start(TickGranularity::PerSecond, 0);
    assert_eq!(
        ticker.set_granularity(TickGranularity::PerMinute, 10),
        TimerCommand::Restart { first_after: 50, period: 60 }
    );
    assert_eq!(ticker.set_granularity(TickGranularity::PerMinute, 11), TimerCommand::Keep);
    assert_eq!(
        ticker.set_granularity(TickGranularity::PerSecond, 12),
        TimerCommand::Restart { first_after: 1, period: 1 }
    );
    assert_eq!(ticker.set_granularity(TickGranularity::PerSecond, 13), TimerCommand::Keep);
    assert_eq!(ticker.granularity, TickGranularity::PerSecond);
}

#[test]
fn late_minute_ticks_are_put_back_on_the_boundary() {
    let minute = Ticker { granularity: TickGranularity::PerMinute };
    assert_eq!(minute.realign(0), TimerCommand::Keep);
    assert_eq!(minute.realign(60), TimerCommand::Keep);
    assert_eq!(minute.realign(2), TimerCommand::ResetAfter(58));
    assert_eq!(minute.realign(59), TimerCommand::ResetAfter(1));
    let second = Ticker { granularity: TickGranularity::PerSecond };
    assert_eq!(second.realign(2), TimerCommand::Keep);
}
