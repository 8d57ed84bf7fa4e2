use speedometer::button::{DEFAULT_DEBOUNCE, DEFAULT_HOLD};
use speedometer::{Button, ButtonConfig, Instant, Mode, Phase};

const MS: u64 = 1_000;

fn config() -> ButtonConfig {
    ButtonConfig::new(50 * MS, 400 * MS, Mode::PullUp)
}

/// Feeds `button` one pass every 10 ms from `from` up to and excluding
/// `until` (both in milliseconds) with the pin at `high`, and returns the
/// times in milliseconds of the passes in which a click, and those in which
/// a hold, was seen.
fn passes(button: &mut Button, high: bool, from: u64, until: u64) -> (Vec<u64>, Vec<u64>) {
    let mut clicks = Vec::new();
    let mut holds = Vec::new();
    let mut at = from;
    while at < until {
        button.tick(high, Instant::from_micros(at * MS));
        if button.is_clicked() {
            clicks.push(at);
        } else if button.holds() == 1 {
            holds.push(at);
        }
        button.reset();
        at += 10;
    }
    (clicks, holds)
}

#[test]
fn mode_tells_the_active_level() {
    assert!(Mode::PullUp.is_pullup());
    assert!(!Mode::PullUp.is_pulldown());
    assert!(Mode::PullDown.is_pulldown());
    assert!(!Mode::PullDown.is_pullup());
    assert!(Mode::PullUp.is_active(false));
    assert!(!Mode::PullUp.is_active(true));
    assert!(Mode::PullDown.is_active(true));
    assert!(!Mode::PullDown.is_active(false));
    assert_eq!(Mode::default(), Mode::PullUp);
}

#[test]
fn default_config_has_the_documented_intervals() {
    let config = ButtonConfig::default();
    assert_eq!(config.debounce, 900);
    assert_eq!(config.hold, 500_000);
    assert_eq!(config.mode, Mode::PullUp);
    assert_eq!(DEFAULT_DEBOUNCE, 900);
    assert_eq!(DEFAULT_HOLD, 500_000);
    assert_eq!(config.repeat, None);
    assert_eq!(config, ButtonConfig::new(900, 500_000, Mode::PullUp));
}

#[test]
fn default_intervals_are_those_of_the_button_driver_crate() {
    assert_eq!(u128::from(DEFAULT_DEBOUNCE), button_driver::config::DEFAULT_DEBOUNCE.as_micros());
    assert_eq!(u128::from(DEFAULT_HOLD), button_driver::config::DEFAULT_HOLD.as_micros());
    assert!(button_driver::Mode::default().is_pullup());
    assert!(Mode::default().is_pullup());
}

#[test]
fn with_repeat_sets_the_interval_and_nothing_else() {
    let plain = ButtonConfig::new(50 * MS, 400 * MS, Mode::PullDown);
    assert_eq!(plain.repeat, None);
    let repeating = plain.with_repeat(200 * MS);
    assert_eq!(repeating.repeat, Some(200 * MS));
    assert_eq!(repeating.debounce, 50 * MS);
    assert_eq!(repeating.hold, 400 * MS);
    assert_eq!(repeating.mode, Mode::PullDown);
    assert_eq!(repeating.with_repeat(0).repeat, Some(0));
}

#[test]
fn new_button_is_idle_without_events() {
    let button = Button::new(config());
    assert_eq!(button.phase(), Phase::Idle);
    assert!(!button.is_pressed());
    assert!(!button.is_clicked());
    assert_eq!(button.holds(), 0);
    assert_eq!(button.since(), Instant::start());
    assert_eq!(button.last_sample(), Instant::start());
    assert_eq!(button.last_hold(), Instant::start());
    assert_eq!(button.last_click(), None);
    assert_eq!(button.config(), config());
}

#[test]
fn press_of_100_ms_is_one_click_and_no_hold() {
    let mut button = Button::new(config());
    let (clicks_down, holds_down) = passes(&mut button, false, 0, 100);
    let (clicks_up, holds_up) = passes(&mut button, true, 100, 300);
    assert_eq!(clicks_down, Vec::<u64>::new());
    assert_eq!(holds_down, Vec::<u64>::new());
    assert_eq!(clicks_up, vec![150]);
    assert_eq!(holds_up, Vec::<u64>::new());
    assert!(!button.is_clicked());
    assert_eq!(button.holds(), 0);
    assert_eq!(button.phase(), Phase::Idle);
}

#[test]
fn identical_press_after_reset_gives_the_same_result() {
    let mut button = Button::new(config());
    passes(&mut button, false, 0, 100);
    let (first, first_holds) = passes(&mut button, true, 100, 300);
    passes(&mut button, false, 1_000, 1_100);
    let (second, second_holds) = passes(&mut button, true, 1_100, 1_300);
    assert_eq!(first, vec![150]);
    assert_eq!(second, vec![1_150]);
    assert_eq!(first_holds, Vec::<u64>::new());
    assert_eq!(second_holds, Vec::<u64>::new());
    assert_eq!(button.last_click(), Some(Instant::from_micros(1_150 * MS)));
}

#[test]
fn press_of_1000_ms_holds_once_at_the_400_ms_mark() {
    let mut button = Button::new(config());
    let (clicks_down, holds_down) = passes(&mut button, false, 0, 1_000);
    assert_eq!(holds_down, vec![400]);
    assert_eq!(clicks_down, Vec::<u64>::new());
    assert_eq!(button.phase(), Phase::Held);
    let (clicks_up, holds_up) = passes(&mut button, true, 1_000, 1_200);
    assert_eq!(clicks_up, Vec::<u64>::new());
    assert_eq!(holds_up, Vec::<u64>::new());
    assert_eq!(button.phase(), Phase::Idle);
    assert_eq!(button.last_click(), None);
}

#[test]
fn held_button_with_a_repeat_interval_reports_again() {
    let mut button = Button::new(config().with_repeat(200 * MS));
    let (clicks_down, holds_down) = passes(&mut button, false, 0, 1_000);
    assert_eq!(holds_down, vec![400, 600, 800]);
    assert_eq!(clicks_down, Vec::<u64>::new());
    assert_eq!(button.last_hold(), Instant::from_micros(800 * MS));
    let (clicks_up, holds_up) = passes(&mut button, true, 1_000, 1_500);
    assert_eq!(clicks_up, Vec::<u64>::new());
    assert_eq!(holds_up, Vec::<u64>::new());
}

#[test]
fn repeat_interval_counts_from_the_latest_hold_event() {
    let mut button = Button::new(config().with_repeat(200 * MS));
    button.tick(false, Instant::from_micros(0));
    button.tick(false, Instant::from_micros(450 * MS));
    assert_eq!(button.holds(), 1);
    assert_eq!(button.last_hold(), Instant::from_micros(450 * MS));
    button.reset();
    button.tick(false, Instant::from_micros(649 * MS));
    assert_eq!(button.holds(), 0);
    button.tick(false, Instant::from_micros(650 * MS));
    assert_eq!(button.holds(), 1);
    button.reset();
    // however long the gap, one sample brings one hold event
    button.tick(false, Instant::from_micros(5_000 * MS));
    assert_eq!(button.holds(), 1);
}

#[test]
fn repeat_interval_of_zero_reports_a_hold_with_every_sample() {
    let mut button = Button::new(config().with_repeat(0));
    let (_, holds) = passes(&mut button, false, 0, 450);
    assert_eq!(holds, vec![400, 410, 420, 430, 440]);
}

#[test]
fn no_hold_is_repeated_while_a_release_waits() {
    let mut button = Button::new(config().with_repeat(10 * MS));
    let (_, holds_down) = passes(&mut button, false, 0, 420);
    assert_eq!(holds_down, vec![400, 410]);
    let (_, holds_glitch) = passes(&mut button, true, 420, 460);
    assert_eq!(holds_glitch, Vec::<u64>::new());
    assert_eq!(button.phase(), Phase::Held);
    let (_, holds_again) = passes(&mut button, false, 460, 480);
    assert_eq!(holds_again, vec![460, 470]);
}

#[test]
fn hold_is_dated_from_the_first_active_sample() {
    let mut button = Button::new(config());
    passes(&mut button, true, 0, 200);
    let (_, holds) = passes(&mut button, false, 200, 900);
    assert_eq!(holds, vec![600]);
    assert_eq!(button.since(), Instant::from_micros(200 * MS));
}

#[test]
fn phases_of_a_long_press() {
    let mut button = Button::new(config());
    button.tick(false, Instant::from_micros(0));
    assert_eq!(button.phase(), Phase::Idle);
    button.tick(false, Instant::from_micros(49_999));
    assert_eq!(button.phase(), Phase::Idle);
    button.tick(false, Instant::from_micros(50_000));
    assert_eq!(button.phase(), Phase::Pressed);
    assert!(button.is_pressed());
    button.tick(false, Instant::from_micros(399_999));
    assert_eq!(button.phase(), Phase::Pressed);
    assert_eq!(button.holds(), 0);
    button.tick(false, Instant::from_micros(400_000));
    assert_eq!(button.phase(), Phase::Held);
    assert_eq!(button.holds(), 1);
    button.tick(false, Instant::from_micros(900_000));
    assert_eq!(button.phase(), Phase::Held);
    assert_eq!(button.holds(), 1);
    assert_eq!(button.last_sample(), Instant::from_micros(900_000));
}

#[test]
fn bounce_shorter_than_the_debounce_interval_changes_nothing() {
    let mut button = Button::new(config());
    let mut high = true;
    let mut at = 0;
    while at < 2_000 {
        button.tick(high, Instant::from_micros(at * MS));
        assert_eq!(button.phase(), Phase::Idle);
        assert!(!button.is_clicked());
        assert_eq!(button.holds(), 0);
        button.reset();
        // 20 ms low, 10 ms high, over and over
        high = at % 30 >= 20;
        at += 10;
    }
    assert_eq!(button.since(), Instant::start());
}

#[test]
fn glitch_during_a_press_is_no_release() {
    let mut button = Button::new(config());
    passes(&mut button, false, 0, 200);
    let (clicks, _) = passes(&mut button, true, 200, 240);
    assert_eq!(clicks, Vec::<u64>::new());
    assert_eq!(button.phase(), Phase::Pressed);
    let (clicks, holds) = passes(&mut button, false, 240, 500);
    assert_eq!(clicks, Vec::<u64>::new());
    assert_eq!(holds, vec![400]);
    assert_eq!(button.since(), Instant::start());
}

#[test]
fn press_that_ends_while_a_release_waits_is_a_click() {
    let mut button = Button::new(config());
    passes(&mut button, false, 0, 380);
    // the release begins at 380 ms and is honoured at 430 ms, past the hold
    // threshold as counted from the start of the press
    let (clicks, holds) = passes(&mut button, true, 380, 500);
    assert_eq!(clicks, vec![430]);
    assert_eq!(holds, Vec::<u64>::new());
}

#[test]
fn active_high_button_reads_the_other_level() {
    let mut button = Button::new(ButtonConfig::new(50 * MS, 400 * MS, Mode::PullDown));
    let (_, holds) = passes(&mut button, true, 0, 500);
    assert_eq!(holds, vec![400]);
    let mut idle = Button::new(ButtonConfig::new(50 * MS, 400 * MS, Mode::PullDown));
    let (clicks, holds) = passes(&mut idle, false, 0, 500);
    assert_eq!(clicks, Vec::<u64>::new());
    assert_eq!(holds, Vec::<u64>::new());
    assert_eq!(idle.phase(), Phase::Idle);
}

#[test]
fn zero_debounce_honours_a_change_at_once() {
    let mut button = Button::new(ButtonConfig::new(0, 400 * MS, Mode::PullUp));
    button.tick(false, Instant::from_micros(7));
    assert_eq!(button.phase(), Phase::Pressed);
    assert_eq!(button.since(), Instant::from_micros(7));
    button.tick(true, Instant::from_micros(9));
    assert_eq!(button.phase(), Phase::Idle);
    assert!(button.is_clicked());
    assert_eq!(button.last_click(), Some(Instant::from_micros(9)));
    assert_eq!(button.since(), Instant::from_micros(9));
}

#[test]
fn zero_hold_threshold_holds_as_soon_as_the_press_counts() {
    let mut button = Button::new(ButtonConfig::new(50 * MS, 0, Mode::PullUp));
    let (clicks, holds) = passes(&mut button, false, 0, 200);
    assert_eq!(holds, vec![50]);
    assert_eq!(clicks, Vec::<u64>::new());
}

#[test]
fn reset_clears_the_events_and_keeps_the_timers() {
    let mut button = Button::new(config());
    button.tick(false, Instant::from_micros(0));
    button.tick(false, Instant::from_micros(400 * MS));
    assert_eq!(button.holds(), 1);
    button.reset();
    assert_eq!(button.holds(), 0);
    assert!(!button.is_clicked());
    assert_eq!(button.phase(), Phase::Held);
    assert_eq!(button.since(), Instant::start());
    assert_eq!(button.last_sample(), Instant::from_micros(400 * MS));
}

#[test]
fn events_that_are_not_consumed_add_up() {
    let mut button = Button::new(ButtonConfig::new(0, 100, Mode::PullDown));
    button.tick(true, Instant::from_micros(0));
    button.tick(true, Instant::from_micros(100));
    button.tick(false, Instant::from_micros(200));
    button.tick(true, Instant::from_micros(300));
    button.tick(true, Instant::from_micros(400));
    assert_eq!(button.holds(), 2);
    assert!(!button.is_clicked());
    button.tick(false, Instant::from_micros(500));
    button.tick(true, Instant::from_micros(600));
    button.tick(false, Instant::from_micros(650));
    assert!(button.is_clicked());
    assert_eq!(button.holds(), 2);
    button.reset();
    assert_eq!(button.holds(), 0);
    assert!(!button.is_clicked());
}
