use cosmic_applet_timeplus::subscriptions::{
    time_subscription, timezone_subscription, wake_from_sleep_subscription, Action,
    ListenerState, Outcome, TickerEvent, TickerStep, TimezoneListener, WakeListener,
    RETRY_BACKOFF_SECONDS,
};
use cosmic_applet_timeplus::ticker::{TickGranularity, Ticker, TimerCommand};
use cosmic_applet_timeplus::window::Message;

fn is_connect(action: &Action) -> bool {
    matches!(action, Action::Connect)
}

fn is_listen(action: &Action) -> bool {
    matches!(action, Action::Listen)
}

fn is_stop(action: &Action) -> bool {
    matches!(action, Action::Stop)
}

#[test]
fn timezone_listener_hands_on_every_notification() {
    let (mut listener, action) = TimezoneListener::start();
    assert!(is_connect(&action));
    assert!(is_listen(&timezone_subscription(&mut listener, Outcome::Connected)));
    for name in ["Europe/Paris", "Europe/Paris", "Asia/Tokyo"] {
        match timezone_subscription(&mut listener, Outcome::Timezone(String::from(name))) {
            Action::Emit(Message::TimezoneUpdate(sent)) => assert_eq!(sent, name),
            other => panic!("unexpected action {:?}", other),
        }
        assert_eq!(listener.state, ListenerState::Listening);
    }
}

#[test]
fn timezone_listener_retries_after_a_minute_for_ever() {
    assert_eq!(RETRY_BACKOFF_SECONDS, 60);
    let (mut listener, _) = TimezoneListener::start();
    for round in 0..5 {
        if round % 2 == 1 {
            assert!(is_listen(&timezone_subscription(&mut listener, Outcome::Connected)));
        }
        assert!(matches!(timezone_subscription(&mut listener, Outcome::Failed), Action::Sleep(60)));
        assert_eq!(listener.state, ListenerState::Waiting);
        assert!(matches!(timezone_subscription(&mut listener, Outcome::Failed), Action::Sleep(60)));
        assert!(is_connect(&timezone_subscription(&mut listener, Outcome::Slept)));
        assert_eq!(listener.state, ListenerState::Connecting);
    }
}

#[test]
fn timezone_listener_ends_with_its_stream() {
    let (mut listener, _) = TimezoneListener::start();
    timezone_subscription(&mut listener, Outcome::Connected);
    assert!(is_stop(&timezone_subscription(&mut listener, Outcome::Ended)));
    assert_eq!(listener.state, ListenerState::Done);
    assert!(is_stop(&timezone_subscription(&mut listener, Outcome::Failed)));
    assert!(is_stop(&timezone_subscription(&mut listener, Outcome::Slept)));
    assert!(is_stop(&timezone_subscription(&mut listener, Outcome::Timezone(String::from("UTC")))));
    assert_eq!(listener.state, ListenerState::Done);
}

#[test]
fn wake_listener_ticks_on_every_waking() {
    let (mut listener, action) = WakeListener::start();
    assert!(is_connect(&action));
    assert!(is_listen(&wake_from_sleep_subscription(&mut listener, Outcome::Connected)));
    // A waking is handed on even where no sleep was announced before it.
    let signals = [false, true, false, false, true, true, false];
    let mut ticks = 0;
    for entering in signals {
        match wake_from_sleep_subscription(&mut listener, Outcome::PrepareForSleep(entering)) {
            Action::Emit(Message::Tick) => {
                assert!(!entering);
                ticks += 1;
            }
            Action::Listen => assert!(entering),
            other => panic!("unexpected action {:?}", other),
        }
        assert_eq!(listener.state, ListenerState::Listening);
    }
    assert_eq!(ticks, 4);
}

#[test]
fn wake_listener_gives_up_on_failure() {
    let (mut listener, _) = WakeListener::start();
    assert!(is_stop(&wake_from_sleep_subscription(&mut listener, Outcome::Failed)));
    assert_eq!(listener.state, ListenerState::Done);
    assert!(is_stop(&wake_from_sleep_subscription(&mut listener, Outcome::Connected)));
    assert!(is_stop(&wake_from_sleep_subscription(&mut listener, Outcome::PrepareForSleep(false))));
    let (mut listener, _) = WakeListener::start();
    wake_from_sleep_subscription(&mut listener, Outcome::Connected);
    assert!(is_stop(&wake_from_sleep_subscription(&mut listener, Outcome::Failed)));
    let (mut listener, _) = WakeListener::start();
    wake_from_sleep_subscription(&mut listener, Outcome::Connected);
    assert!(is_stop(&wake_from_sleep_subscription(&mut listener, Outcome::Ended)));
}

#[test]
fn listeners_ignore_what_they_do_not_wait_for() {
    let (mut listener, _) = TimezoneListener::start();
    assert!(is_connect(&timezone_subscription(&mut listener, Outcome::Slept)));
    assert!(is_connect(&timezone_subscription(&mut listener, Outcome::PrepareForSleep(false))));
    timezone_subscription(&mut listener, Outcome::Connected);
    assert!(is_listen(&timezone_subscription(&mut listener, Outcome::PrepareForSleep(false))));
    assert!(is_listen(&timezone_subscription(&mut listener, Outcome::Connected)));
    let (mut wake, _) = WakeListener::start();
    wake_from_sleep_subscription(&mut wake, Outcome::Connected);
    assert!(is_listen(&wake_from_sleep_subscription(&mut wake, Outcome::Timezone(String::from("UTC")))));
    assert!(is_listen(&wake_from_sleep_subscription(&mut wake, Outcome::Slept)));
}

#[test]
fn ticker_sends_a_tick_whenever_the_timer_fires() {
    let (mut ticker, _) = Ticker::start(TickGranularity::PerSecond, 5);
    assert_eq!(
        time_subscription(&mut ticker, TickerEvent::Fired, 6),
        TickerStep { tick: true, timer: TimerCommand::Keep }
    );
    assert_eq!(
        time_subscription(&mut ticker, TickerEvent::Requested(TickGranularity::PerMinute), 7),
        TickerStep { tick: false, timer: TimerCommand::Restart { first_after: 53, period: 60 } }
    );
    assert_eq!(
        time_subscription(&mut ticker, TickerEvent::Requested(TickGranularity::PerMinute), 8),
        TickerStep { tick: false, timer: TimerCommand::Keep }
    );
    assert_eq!(
        time_subscription(&mut ticker, TickerEvent::Fired, 0),
        TickerStep { tick: true, timer: TimerCommand::Keep }
    );
    // A tick that came two seconds late is followed by one after 58 seconds.
    assert_eq!(
        time_subscription(&mut ticker, TickerEvent::Fired, 2),
        TickerStep { tick: true, timer: TimerCommand::ResetAfter(58) }
    );
    assert_eq!(ticker.granularity, TickGranularity::PerMinute);
}
