use server_launcher::events::{
    AppEvent, Closed, EventConfig, Events, Key, Polled, DEFAULT_TICK_RATE_NANOS,
};

#[test]
fn default_tick_rate_is_a_quarter_second() {
    assert_eq!(EventConfig::default().tick_rate_nanos, 250_000_000);
    assert_eq!(DEFAULT_TICK_RATE_NANOS, 250_000_000);
    assert_eq!(Events::new().config().tick_rate_nanos, 250_000_000);
    let custom = Events::with_config(EventConfig { tick_rate_nanos: 1_000 });
    assert_eq!(custom.config().tick_rate_nanos, 1_000);
}

#[test]
fn timer_sleeps_for_the_rest_of_the_interval() {
    let config = EventConfig::default();
    assert_eq!(config.time_until_tick(0), 250_000_000);
    assert_eq!(config.time_until_tick(100_000_000), 150_000_000);
    assert_eq!(config.time_until_tick(249_999_999), 1);
}

#[test]
fn overdue_tick_is_sent_at_once() {
    let config = EventConfig::default();
    assert_eq!(config.time_until_tick(250_000_000), 0);
    assert_eq!(config.time_until_tick(250_000_001), 0);
    assert_eq!(config.time_until_tick(u128::MAX), 0);
    let zero = EventConfig { tick_rate_nanos: 0 };
    assert_eq!(zero.time_until_tick(0), 0);
}

#[test]
fn fresh_channel_is_empty() {
    let mut events = Events::new();
    assert_eq!(events.next(), Ok(Polled::Empty));
    assert_eq!(events.next(), Ok(Polled::Empty));
}

#[test]
fn events_arrive_in_the_order_sent() {
    let mut events = Events::new();
    assert_eq!(events.send(AppEvent::Key(Key::Down)), Ok(()));
    assert_eq!(events.send(AppEvent::Tick), Ok(()));
    assert_eq!(events.send(AppEvent::Key(Key::Char('q'))), Ok(()));
    assert_eq!(events.next(), Ok(Polled::Event(AppEvent::Key(Key::Down))));
    assert_eq!(events.next(), Ok(Polled::Event(AppEvent::Tick)));
    assert_eq!(events.send(AppEvent::Tick), Ok(()));
    assert_eq!(events.next(), Ok(Polled::Event(AppEvent::Key(Key::Char('q')))));
    assert_eq!(events.next(), Ok(Polled::Event(AppEvent::Tick)));
    assert_eq!(events.next(), Ok(Polled::Empty));
}

#[test]
fn a_key_and_a_tick_sent_together_are_both_received() {
    let key = AppEvent::Key(Key::Enter);
    for order in [[key, AppEvent::Tick], [AppEvent::Tick, key]] {
        let mut events = Events::new();
        for event in order {
            assert_eq!(events.send(event), Ok(()));
        }
        let mut seen = Vec::new();
        while let Ok(Polled::Event(event)) = events.next() {
            seen.push(event);
        }
        assert_eq!(seen, order.to_vec());
        assert!(seen.contains(&key));
        assert!(seen.contains(&AppEvent::Tick));
    }
}

#[test]
fn channel_is_unbounded() {
    let mut events = Events::new();
    for _ in 0..10_000 {
        assert_eq!(events.send(AppEvent::Tick), Ok(()));
    }
    for _ in 0..10_000 {
        assert_eq!(events.next(), Ok(Polled::Event(AppEvent::Tick)));
    }
    assert_eq!(events.next(), Ok(Polled::Empty));
}

#[test]
fn closed_channel_refuses_sends_and_gives_nothing() {
    let mut events = Events::new();
    assert_eq!(events.send(AppEvent::Tick), Ok(()));
    events.close();
    assert_eq!(events.send(AppEvent::Tick), Err(Closed));
    assert_eq!(events.send(AppEvent::Key(Key::Up)), Err(Closed));
    assert_eq!(events.next(), Err(Closed));
    assert_eq!(events.next(), Err(Closed));
}
