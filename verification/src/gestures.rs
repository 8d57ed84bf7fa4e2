//! What the gesture engine makes of whole runs of samples.
//!
//! The event loop feeds a button one sample per pass and consumes its events
//! at the end of the pass. This module follows a button through a sequence
//! of such passes, counts the clicks and holds that the loop gets to see, and
//! proves what these counts are for a short press, for a long press and for
//! a bouncing contact.

use crate::button::{ButtonModel, Mode, Phase};
use vstd::prelude::*;

verus! {

/// One sample of a button's pin: its level at a time in microseconds.
pub struct Sample {
    pub high: bool,
    pub at: nat,
}

/// The samples are dated in the order in which they come, none of them
/// before `from`.
pub open spec fn in_order(from: nat, samples: Seq<Sample>) -> bool {
    &&& forall|i: int| 0 <= i < samples.len() ==> from <= (#[trigger] samples[i]).at
    &&& forall|i: int, j: int|
        0 <= i <= j < samples.len() ==> (#[trigger] samples[i]).at <= (#[trigger] samples[j]).at
}

/// Every sample shows the button down (`active`) or every sample shows it up
/// (not `active`), for a button wired as `mode` says.
pub open spec fn steady(mode: Mode, samples: Seq<Sample>, active: bool) -> bool {
    forall|i: int| 0 <= i < samples.len() ==> mode.active((#[trigger] samples[i]).high) == active
}

/// The samples from the `i`-th to the `j`-th all show the level opposite to
/// `level`.
pub open spec fn stretch(mode: Mode, level: bool, samples: Seq<Sample>, i: int, j: int) -> bool {
    forall|k: int| i <= k <= j ==> mode.active((#[trigger] samples[k]).high) != level
}

/// The pin never stays away from `level` for as long as `debounce`: from
/// the first to the last sample of any stretch at the opposite level, less
/// time than that goes by.
pub open spec fn bouncing(mode: Mode, level: bool, debounce: u64, samples: Seq<Sample>) -> bool {
    forall|i: int, j: int|
        0 <= i <= j < samples.len() && #[trigger] stretch(mode, level, samples, i, j)
            ==> samples[j].at - samples[i].at < debounce
}

impl ButtonModel {
    /// No change of level is waiting and no event is left to consume.
    pub open spec fn settled(self) -> bool {
        &&& self.pending is None
        &&& !self.clicked
        &&& self.holds == 0
    }

    /// The button is up and settled.
    pub open spec fn at_rest(self) -> bool {
        self.phase == Phase::Idle && self.settled()
    }

    /// The button as the event loop sees it in the pass that takes in `x`:
    /// after the sample and before the events are consumed.
    pub open spec fn seen(self, x: Sample) -> ButtonModel {
        self.tick(x.high, x.at)
    }

    /// The button after the pass that takes in `x`.
    pub open spec fn pass(self, x: Sample) -> ButtonModel {
        self.seen(x).reset()
    }

    /// The button after one pass for each of `samples`, in their order.
    pub open spec fn run(self, samples: Seq<Sample>) -> ButtonModel
        decreases samples.len(),
    {
        if samples.len() == 0 {
            self
        } else {
            self.run(samples.drop_last()).pass(samples.last())
        }
    }

    /// In how many of the passes over `samples` the event loop sees a
    /// click.
    pub open spec fn clicks_seen(self, samples: Seq<Sample>) -> nat
        decreases samples.len(),
    {
        if samples.len() == 0 {
            0
        } else {
            let before = self.run(samples.drop_last());
            let click: nat = if before.seen(samples.last()).clicked {
                1
            } else {
                0
            };
            self.clicks_seen(samples.drop_last()) + click
        }
    }

    /// How many hold events the event loop sees over the passes for
    /// `samples`.
    pub open spec fn holds_seen(self, samples: Seq<Sample>) -> nat
        decreases samples.len(),
    {
        if samples.len() == 0 {
            0
        } else {
            let before = self.run(samples.drop_last());
            self.holds_seen(samples.drop_last()) + before.seen(samples.last()).holds
        }
    }

    /// Whether a press that began at `began` counts as a hold at `now`: it
    /// has lasted for the debounce interval and for the hold threshold.
    pub open spec fn ripe(self, began: nat, now: nat) -> bool {
        now - began >= self.config.debounce && now - began >= self.config.hold
    }

    /// A button that was at rest, after the pin has been active in every
    /// sample from `began` to `now`.
    pub open spec fn pressing(self, began: nat, now: nat) -> ButtonModel {
        if now - began < self.config.debounce {
            ButtonModel { pending: Some(began), last: now, ..self }
        } else if now - began < self.config.hold {
            ButtonModel { phase: Phase::Pressed, since: began, pending: None, last: now, ..self }
        } else {
            ButtonModel { phase: Phase::Held, since: began, pending: None, last: now, ..self }
        }
    }

    /// A button that was down, after the pin has been inactive in every
    /// sample from `began` to `now`, but for the time of its latest click.
    pub open spec fn releasing(self, began: nat, now: nat) -> ButtonModel {
        if now - began < self.config.debounce {
            ButtonModel { pending: Some(began), last: now, ..self }
        } else {
            ButtonModel { phase: Phase::Idle, since: began, pending: None, last: now, ..self }
        }
    }

    /// Whether `self` and `other` differ in nothing but the times of the
    /// latest click and of the latest hold event.
    pub open spec fn alike(self, other: ButtonModel) -> bool {
        self == (ButtonModel { last_click: self.last_click, last_hold: self.last_hold, ..other })
    }

    /// Whether a press from `began` to `now` is over before a held button
    /// would report its hold a second time: no repeat interval is
    /// configured, or the press does not outlast both the hold threshold
    /// and the debounce interval by as much.
    pub open spec fn unrepeated(self, began: nat, now: nat) -> bool {
        self.config.repeat matches Some(interval) ==> now - began < self.config.hold + interval
            || now - began < self.config.debounce + interval
    }
}

/// A sample that is not dated before the latest one leaves the button well
/// formed.
pub proof fn lemma_tick_keeps_wf(m: ButtonModel, high: bool, now: nat)
    requires
        m.wf(),
        m.last <= now,
    ensures
        m.tick(high, now).wf(),
        m.tick(high, now).last == now,
        m.tick(high, now).config == m.config,
        m.tick(high, now).reset().wf(),
{
}

/// A pass reports a click or a hold of a button, never both: after a sample
/// that follows a reset, at most one hold event has come in, and none where
/// a click was completed.
pub proof fn lemma_one_event_per_pass(m: ButtonModel, high: bool, now: nat)
    requires
        !m.clicked,
        m.holds == 0,
    ensures
        m.tick(high, now).holds <= 1,
        m.tick(high, now).clicked ==> m.tick(high, now).holds == 0,
        m.tick(high, now).clicked ==> m.phase == Phase::Pressed && m.tick(high, now).phase
            == Phase::Idle,
        m.tick(high, now).holds == 1 ==> m.tick(high, now).phase == Phase::Held
            && m.tick(high, now).last_hold == now,
{
}

/// A button that is held reports its hold again when the repeat interval
/// has gone by since its latest hold event, and not before; without a repeat
/// interval it reports none. It stays `Held` either way.
pub proof fn lemma_hold_repeats_by_interval(m: ButtonModel, high: bool, now: nat)
    requires
        m.phase == Phase::Held,
        m.settled(),
        m.config.mode.active(high),
    ensures
        m.tick(high, now).phase == Phase::Held,
        m.tick(high, now).holds == if m.config.repeat matches Some(interval) && now - m.last_hold
            >= interval {
            1nat
        } else {
            0nat
        },
{
}

/// Passes over samples that are in order leave the button well formed, with
/// its configuration, with no event to consume, and dated at the last of
/// them.
pub proof fn lemma_run_keeps_wf(m: ButtonModel, samples: Seq<Sample>)
    requires
        m.wf(),
        in_order(m.last, samples),
    ensures
        m.run(samples).wf(),
        m.run(samples).config == m.config,
        samples.len() > 0 ==> m.run(samples).last == samples.last().at,
        samples.len() > 0 ==> !m.run(samples).clicked && m.run(samples).holds == 0,
    decreases samples.len(),
{
    if samples.len() > 0 {
        let front = samples.drop_last();
        lemma_run_keeps_wf(m, front);
        let before = m.run(front);
        if front.len() > 0 {
            assert(front.last() == samples[front.len() - 1]);
        }
        lemma_tick_keeps_wf(before, samples.last().high, samples.last().at);
    }
}

/// Passes over one sequence of samples and then over another are passes
/// over the two joined, and the loop sees in the whole what it sees in the
/// two parts.
pub proof fn lemma_run_in_two_parts(m: ButtonModel, first: Seq<Sample>, second: Seq<Sample>)
    ensures
        m.run(first + second) == m.run(first).run(second),
        m.clicks_seen(first + second) == m.clicks_seen(first) + m.run(first).clicks_seen(second),
        m.holds_seen(first + second) == m.holds_seen(first) + m.run(first).holds_seen(second),
    decreases second.len(),
{
    if second.len() == 0 {
        assert(first + second =~= first);
    } else {
        assert((first + second).drop_last() =~= first + second.drop_last());
        assert((first + second).last() == second.last());
        lemma_run_in_two_parts(m, first, second.drop_last());
    }
}

/// What a steady press does to a button at rest, up to the time at which a
/// hold would be reported again. While the pin has not been active for the
/// debounce interval the press waits. From then on the button is `Pressed`,
/// and `Held` once the hold threshold is crossed too. The loop sees no
/// click, and one hold event where the button ends up `Held`.
pub proof fn lemma_steady_press(m: ButtonModel, press: Seq<Sample>)
    requires
        m.wf(),
        m.at_rest(),
        press.len() > 0,
        in_order(m.last, press),
        steady(m.config.mode, press, true),
        m.unrepeated(press[0].at, press.last().at),
    ensures
        m.run(press).alike(m.pressing(press[0].at, press.last().at)),
        m.run(press).phase == Phase::Held ==> m.run(press).last_hold >= press[0].at
            + m.config.hold && m.run(press).last_hold >= press[0].at + m.config.debounce,
        m.clicks_seen(press) == 0,
        m.holds_seen(press) == if m.ripe(press[0].at, press.last().at) {
            1nat
        } else {
            0nat
        },
    decreases press.len(),
{
    let front = press.drop_last();
    let x = press.last();
    assert(m.config.mode.active(x.high));
    assert(press[0].at <= x.at);
    if front.len() == 0 {
        assert(m.run(front) == m);
        assert(m.clicks_seen(front) == 0);
        assert(m.holds_seen(front) == 0);
    } else {
        assert(front[0] == press[0]);
        assert(front.last() == press[front.len() - 1]);
        assert(front.last().at <= x.at);
        lemma_steady_press(m, front);
    }
}

/// What a steady release does to a button that is down. While the pin has
/// not been inactive for the debounce interval the release waits, then the
/// button is `Idle`. The loop sees one click where the release is honoured
/// and the button was `Pressed`, and no hold event.
pub proof fn lemma_steady_release(m: ButtonModel, release: Seq<Sample>)
    requires
        m.wf(),
        m.pressed(),
        m.settled(),
        release.len() > 0,
        in_order(m.last, release),
        steady(m.config.mode, release, false),
    ensures
        m.run(release).alike(m.releasing(release[0].at, release.last().at)),
        m.clicks_seen(release) == if m.phase == Phase::Pressed && release.last().at
            - release[0].at >= m.config.debounce {
            1nat
        } else {
            0nat
        },
        m.holds_seen(release) == 0,
    decreases release.len(),
{
    let front = release.drop_last();
    let x = release.last();
    assert(!m.config.mode.active(x.high));
    assert(release[0].at <= x.at);
    if front.len() == 0 {
        assert(m.run(front) == m);
        assert(m.clicks_seen(front) == 0);
        assert(m.holds_seen(front) == 0);
    } else {
        assert(front[0] == release[0]);
        assert(front.last() == release[front.len() - 1]);
        assert(front.last().at <= x.at);
        lemma_steady_release(m, front);
    }
}

/// A short press is one click. A button at rest whose pin is active for at
/// least the debounce interval and for less than the hold threshold, and is
/// then inactive for at least the debounce interval, lets the loop see a
/// click in exactly one pass and no hold event, and is at rest again
/// afterwards: the next press starts from where this one did.
pub proof fn lemma_short_press_is_one_click(
    m: ButtonModel,
    press: Seq<Sample>,
    release: Seq<Sample>,
)
    requires
        m.wf(),
        m.at_rest(),
        press.len() > 0,
        release.len() > 0,
        in_order(m.last, press + release),
        steady(m.config.mode, press, true),
        steady(m.config.mode, release, false),
        press.last().at - press[0].at >= m.config.debounce,
        press.last().at - press[0].at < m.config.hold,
        release.last().at - release[0].at >= m.config.debounce,
    ensures
        m.clicks_seen(press + release) == 1,
        m.holds_seen(press + release) == 0,
        m.run(press + release).at_rest(),
{
    let all = press + release;
    assert forall|i: int| 0 <= i < press.len() implies press[i] == all[i] by {}
    assert forall|i: int| 0 <= i < release.len() implies release[i] == all[press.len() + i] by {}
    assert(in_order(m.last, press));
    lemma_steady_press(m, press);
    lemma_run_keeps_wf(m, press);
    let down = m.run(press);
    assert(in_order(down.last, release)) by {
        assert(press.last() == all[press.len() - 1]);
    }
    lemma_steady_release(down, release);
    lemma_run_in_two_parts(m, press, release);
}

/// A short press does to the button what the one before it did. Two short
/// presses in a row, each as `lemma_short_press_is_one_click` wants it, let
/// the loop see two clicks and no hold event, and leave the button at rest.
pub proof fn lemma_short_presses_repeat(
    m: ButtonModel,
    press: Seq<Sample>,
    release: Seq<Sample>,
    press_again: Seq<Sample>,
    release_again: Seq<Sample>,
)
    requires
        m.wf(),
        m.at_rest(),
        press.len() > 0,
        release.len() > 0,
        press_again.len() > 0,
        release_again.len() > 0,
        in_order(m.last, (press + release) + (press_again + release_again)),
        steady(m.config.mode, press, true),
        steady(m.config.mode, release, false),
        steady(m.config.mode, press_again, true),
        steady(m.config.mode, release_again, false),
        press.last().at - press[0].at >= m.config.debounce,
        press.last().at - press[0].at < m.config.hold,
        release.last().at - release[0].at >= m.config.debounce,
        press_again.last().at - press_again[0].at >= m.config.debounce,
        press_again.last().at - press_again[0].at < m.config.hold,
        release_again.last().at - release_again[0].at >= m.config.debounce,
    ensures
        m.clicks_seen((press + release) + (press_again + release_again)) == 2,
        m.holds_seen((press + release) + (press_again + release_again)) == 0,
        m.run((press + release) + (press_again + release_again)).at_rest(),
{
    let first = press + release;
    let second = press_again + release_again;
    let all = first + second;
    assert forall|i: int| 0 <= i < first.len() implies first[i] == all[i] by {}
    assert forall|i: int| 0 <= i < second.len() implies second[i] == all[first.len() + i] by {}
    assert(in_order(m.last, first));
    lemma_short_press_is_one_click(m, press, release);
    lemma_run_keeps_wf(m, first);
    let rested = m.run(first);
    assert(in_order(rested.last, second)) by {
        assert(first.last() == all[first.len() - 1]);
    }
    lemma_short_press_is_one_click(rested, press_again, release_again);
    lemma_run_in_two_parts(m, first, second);
}

/// A long press is one hold. A button at rest whose pin is active for at
/// least the debounce interval and at least the hold threshold, and no
/// longer than until the hold would be reported again, lets the loop see
/// exactly one hold event: in the pass of the first sample at which both
/// have gone by since the press began, and in no other. The loop sees no
/// click, neither during the press nor when the pin is inactive again.
pub proof fn lemma_long_press_is_one_hold(m: ButtonModel, press: Seq<Sample>, release: Seq<Sample>)
    requires
        m.wf(),
        m.at_rest(),
        press.len() > 0,
        in_order(m.last, press + release),
        steady(m.config.mode, press, true),
        steady(m.config.mode, release, false),
        m.ripe(press[0].at, press.last().at),
        m.unrepeated(press[0].at, press.last().at),
    ensures
        m.holds_seen(press + release) == 1,
        m.clicks_seen(press + release) == 0,
        forall|i: int|
            0 <= i < press.len() ==> #[trigger] m.run(press.take(i)).seen(press[i]).holds == if m.ripe(
                press[0].at,
                press[i].at,
            ) && (i == 0 || !m.ripe(press[0].at, press[i - 1].at)) {
                1nat
            } else {
                0nat
            },
{
    let all = press + release;
    assert forall|i: int| 0 <= i < press.len() implies press[i] == all[i] by {}
    assert forall|i: int| 0 <= i < release.len() implies release[i] == all[press.len() + i] by {}
    assert(in_order(m.last, press));
    lemma_steady_press(m, press);
    lemma_run_keeps_wf(m, press);
    let down = m.run(press);
    lemma_run_in_two_parts(m, press, release);
    if release.len() == 0 {
        assert(down.run(release) == down);
        assert(down.clicks_seen(release) == 0);
        assert(down.holds_seen(release) == 0);
    } else {
        assert(in_order(down.last, release)) by {
            assert(press.last() == all[press.len() - 1]);
        }
        lemma_steady_release(down, release);
    }
    assert forall|i: int| 0 <= i < press.len() implies #[trigger] m.run(press.take(i)).seen(
        press[i],
    ).holds == if m.ripe(press[0].at, press[i].at) && (i == 0 || !m.ripe(
        press[0].at,
        press[i - 1].at,
    )) {
        1nat
    } else {
        0nat
    } by {
        let front = press.take(i);
        assert(m.config.mode.active(press[i].high));
        assert(press[0].at <= press[i].at);
        if i == 0 {
            assert(m.run(front) == m);
        } else {
            assert forall|k: int| 0 <= k < front.len() implies front[k] == press[k] by {}
            assert(in_order(m.last, front));
            assert(steady(m.config.mode, front, true));
            assert(front.last() == press[i - 1]);
            assert(press[i - 1].at <= press[i].at);
            lemma_steady_press(m, front);
        }
    }
}

/// What holds after every pass over `samples` of a contact that bounces
/// around the level of `m`: the debounced level and its time stand, no click
/// was seen, and a change that waits began with the stretch of samples that
/// the latest one belongs to.
proof fn lemma_bounce_invariant(m: ButtonModel, samples: Seq<Sample>)
    requires
        m.wf(),
        m.settled(),
        in_order(m.last, samples),
        bouncing(m.config.mode, m.pressed(), m.config.debounce, samples),
    ensures
        m.run(samples).pressed() == m.pressed(),
        m.run(samples).since == m.since,
        m.run(samples).config == m.config,
        m.phase == Phase::Idle ==> m.run(samples).phase == Phase::Idle,
        m.clicks_seen(samples) == 0,
        m.phase == Phase::Idle ==> m.holds_seen(samples) == 0,
        m.run(samples).pending matches Some(t) ==> exists|p: int|
            0 <= p < samples.len() && samples[p].at == t && #[trigger] stretch(
                m.config.mode,
                m.pressed(),
                samples,
                p,
                samples.len() - 1,
            ),
    decreases samples.len(),
{
    if samples.len() > 0 {
        let mode = m.config.mode;
        let level = m.pressed();
        let front = samples.drop_last();
        let x = samples.last();
        let n = samples.len() as int;
        assert forall|i: int, j: int|
            0 <= i <= j < front.len() && #[trigger] stretch(mode, level, front, i, j) implies front[j].at
            - front[i].at < m.config.debounce by {
            assert forall|k: int| i <= k <= j implies mode.active((#[trigger] samples[k]).high)
                != level by {
                assert(front[k] == samples[k]);
            }
            assert(stretch(mode, level, samples, i, j));
            assert(front[j] == samples[j]);
            assert(front[i] == samples[i]);
        }
        assert(in_order(m.last, front)) by {
            assert forall|i: int| 0 <= i < front.len() implies front[i] == samples[i] by {}
        }
        lemma_bounce_invariant(m, front);
        lemma_run_keeps_wf(m, front);
        let before = m.run(front);
        if mode.active(x.high) != level {
            match before.pending {
                Some(t) => {
                    let p = choose|p: int|
                        0 <= p < front.len() && front[p].at == t && #[trigger] stretch(
                            mode,
                            level,
                            front,
                            p,
                            front.len() - 1,
                        );
                    assert forall|k: int| p <= k <= n - 1 implies mode.active(
                        (#[trigger] samples[k]).high,
                    ) != level by {
                        if k < n - 1 {
                            assert(front[k] == samples[k]);
                        }
                    }
                    assert(stretch(mode, level, samples, p, n - 1));
                    assert(front[p] == samples[p]);
                    assert(x.at - t < m.config.debounce);
                },
                None => {
                    assert(stretch(mode, level, samples, n - 1, n - 1));
                    assert(x.at - x.at < m.config.debounce);
                },
            }
        }
    }
}

/// Bounce is ignored. While the pin of a settled button never stays away
/// from the debounced level for as long as the debounce interval, however
/// often it flips, the debounced level stays what it was and as old as it
/// was, and the loop sees no click. A button that was up stays `Idle` and the loop sees no hold
/// event either.
pub proof fn lemma_bounce_is_ignored(m: ButtonModel, samples: Seq<Sample>)
    requires
        m.wf(),
        m.settled(),
        in_order(m.last, samples),
        bouncing(m.config.mode, m.pressed(), m.config.debounce, samples),
    ensures
        m.run(samples).pressed() == m.pressed(),
        m.run(samples).since == m.since,
        m.clicks_seen(samples) == 0,
        m.phase == Phase::Idle ==> m.run(samples).phase == Phase::Idle && m.holds_seen(samples)
            == 0,
{
    lemma_bounce_invariant(m, samples);
}

} // verus!
