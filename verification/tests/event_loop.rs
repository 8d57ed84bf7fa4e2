use speedometer::{ButtonConfig, EventLoop, Instant, Key, KeyEvents, Mode, Phase};

const MS: u64 = 1_000;

fn pull_up() -> ButtonConfig {
    ButtonConfig::new(50 * MS, 400 * MS, Mode::PullUp)
}

/// Runs one pass every 10 ms from `from` up to and excluding `until` (both
/// in milliseconds) with the pins at the given levels, and returns the
/// passes that sent a key, with their times in milliseconds.
fn passes(
    event_loop: &mut EventLoop,
    up_high: bool,
    down_high: bool,
    from: u64,
    until: u64,
) -> Vec<(u64, KeyEvents)> {
    let mut sent = Vec::new();
    let mut at = from;
    while at < until {
        let keys = event_loop.poll(up_high, down_high, at * MS, true);
        assert_eq!(event_loop.now(), Instant::from_micros(at * MS));
        if keys.up.is_some() || keys.down.is_some() {
            sent.push((at, keys));
        }
        event_loop.finish();
        at += 10;
    }
    sent
}

#[test]
fn new_event_loop_has_two_idle_buttons() {
    let event_loop = EventLoop::new(pull_up());
    assert_eq!(event_loop.up().phase(), Phase::Idle);
    assert_eq!(event_loop.down().phase(), Phase::Idle);
    assert_eq!(event_loop.up().config(), pull_up());
    assert_eq!(event_loop.down().config(), pull_up());
    assert_eq!(event_loop.now(), Instant::start());
}

#[test]
fn click_of_the_up_button_is_the_up_arrow() {
    let mut event_loop = EventLoop::new(pull_up());
    let mut sent = passes(&mut event_loop, false, true, 0, 100);
    sent.extend(passes(&mut event_loop, true, true, 100, 300));
    assert_eq!(sent, vec![(150, KeyEvents { up: Some(Key::UpArrow), down: None })]);
}

#[test]
fn hold_of_the_up_button_is_the_right_arrow_once() {
    let mut event_loop = EventLoop::new(pull_up());
    let mut sent = passes(&mut event_loop, false, true, 0, 1_000);
    sent.extend(passes(&mut event_loop, true, true, 1_000, 1_200));
    assert_eq!(sent, vec![(400, KeyEvents { up: Some(Key::RightArrow), down: None })]);
}

#[test]
fn repeating_hold_sends_the_right_arrow_again() {
    let mut event_loop = EventLoop::new(pull_up().with_repeat(250 * MS));
    let sent = passes(&mut event_loop, false, true, 0, 1_000);
    let right = KeyEvents { up: Some(Key::RightArrow), down: None };
    assert_eq!(sent, vec![(400, right), (650, right), (900, right)]);
}

#[test]
fn click_of_the_down_button_is_the_down_arrow() {
    let mut event_loop = EventLoop::new(pull_up());
    let mut sent = passes(&mut event_loop, true, false, 0, 100);
    sent.extend(passes(&mut event_loop, true, true, 100, 300));
    assert_eq!(sent, vec![(150, KeyEvents { up: None, down: Some(Key::DownArrow) })]);
}

#[test]
fn hold_of_the_down_button_is_the_left_arrow_once() {
    let mut event_loop = EventLoop::new(pull_up());
    let mut sent = passes(&mut event_loop, true, false, 0, 1_000);
    sent.extend(passes(&mut event_loop, true, true, 1_000, 1_200));
    assert_eq!(sent, vec![(400, KeyEvents { up: None, down: Some(Key::LeftArrow) })]);
}

#[test]
fn both_buttons_report_in_the_same_pass() {
    let mut event_loop = EventLoop::new(pull_up());
    let mut sent = passes(&mut event_loop, false, false, 0, 450);
    sent.extend(passes(&mut event_loop, true, true, 450, 600));
    assert_eq!(
        sent,
        vec![(400, KeyEvents { up: Some(Key::RightArrow), down: Some(Key::LeftArrow) })]
    );
}

#[test]
fn without_a_window_no_key_is_sent_and_the_buttons_still_run() {
    let mut event_loop = EventLoop::new(pull_up());
    let mut at = 0;
    while at < 500 {
        let keys = event_loop.poll(false, true, at * MS, false);
        assert_eq!(keys, KeyEvents { up: None, down: None });
        if at == 400 {
            assert_eq!(event_loop.up().holds(), 1);
        }
        event_loop.finish();
        assert_eq!(event_loop.up().holds(), 0);
        at += 10;
    }
    assert_eq!(event_loop.up().phase(), Phase::Held);
    assert_eq!(event_loop.down().phase(), Phase::Idle);
}

#[test]
fn key_for_prefers_the_click() {
    let mut button = speedometer::Button::new(ButtonConfig::new(0, 100, Mode::PullDown));
    assert_eq!(speedometer::event_loop::key_for(&button, Key::UpArrow, Key::RightArrow), None);
    button.tick(true, Instant::from_micros(0));
    button.tick(true, Instant::from_micros(100));
    assert_eq!(
        speedometer::event_loop::key_for(&button, Key::UpArrow, Key::RightArrow),
        Some(Key::RightArrow)
    );
    button.tick(false, Instant::from_micros(200));
    button.tick(true, Instant::from_micros(300));
    button.tick(false, Instant::from_micros(350));
    assert!(button.is_clicked());
    assert_eq!(button.holds(), 1);
    assert_eq!(
        speedometer::event_loop::key_for(&button, Key::UpArrow, Key::RightArrow),
        Some(Key::UpArrow)
    );
}

#[test]
fn two_holds_that_were_not_consumed_are_no_key() {
    let mut button = speedometer::Button::new(ButtonConfig::new(0, 100, Mode::PullDown));
    button.tick(true, Instant::from_micros(0));
    button.tick(true, Instant::from_micros(100));
    button.tick(false, Instant::from_micros(200));
    button.tick(true, Instant::from_micros(300));
    button.tick(true, Instant::from_micros(400));
    assert_eq!(button.holds(), 2);
    assert_eq!(speedometer::event_loop::key_for(&button, Key::DownArrow, Key::LeftArrow), None);
}

#[test]
fn counter_that_falls_back_stops_the_clock() {
    let mut event_loop = EventLoop::new(pull_up());
    event_loop.poll(false, true, 100 * MS, true);
    event_loop.finish();
    event_loop.poll(false, true, 40 * MS, true);
    event_loop.finish();
    assert_eq!(event_loop.now(), Instant::from_micros(100 * MS));
    assert_eq!(event_loop.up().last_sample(), Instant::from_micros(100 * MS));
    assert_eq!(event_loop.up().phase(), Phase::Idle);
    event_loop.poll(false, true, 150 * MS, true);
    assert_eq!(event_loop.now(), Instant::from_micros(150 * MS));
    assert_eq!(event_loop.up().phase(), Phase::Pressed);
    assert_eq!(event_loop.up().since(), Instant::from_micros(100 * MS));
}
