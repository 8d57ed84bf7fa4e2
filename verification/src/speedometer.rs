//! The gauge: the range it spans, the speed it shows and the tick marks on
//! its dial.

use vstd::prelude::*;

verus! {

/// The distance between two tick marks, in units of speed.
pub const TICK_STEP: u32 = 10;

/// Every tick mark at a multiple of this speed is a long one with a label.
pub const LABEL_STEP: u32 = 20;

/// One tick mark on the dial.
#[derive(Clone, Copy, Debug, PartialEq, Eq, Structural)]
pub struct Tick {
    /// The speed at which the mark stands.
    pub value: u32,
    /// Long marks carry a label, short ones do not.
    pub major: bool,
}

/// How many tick marks a dial from `min_speed` to `max_speed` has.
pub open spec fn tick_count(min_speed: u32, max_speed: u32) -> nat {
    if min_speed > max_speed {
        0
    } else {
        ((max_speed - min_speed) / TICK_STEP as int + 1) as nat
    }
}

/// The `i`-th tick mark of a dial that starts at `min_speed`.
pub open spec fn tick_at(min_speed: u32, i: int) -> Tick {
    let value = min_speed + i * TICK_STEP;
    Tick { value: value as u32, major: value % LABEL_STEP as int == 0 }
}

/// The tick marks of a dial from `min_speed` to `max_speed`: one at
/// `min_speed` and one every `TICK_STEP` from there, as long as `max_speed`
/// is not passed.
pub open spec fn tick_marks(min_speed: u32, max_speed: u32) -> Seq<Tick> {
    Seq::new(tick_count(min_speed, max_speed), |i: int| tick_at(min_speed, i))
}

/// What a gauge holds.
pub struct SpeedometerView {
    pub speed: u32,
    pub min_speed: u32,
    pub max_speed: u32,
}

/// A gauge: a dial from `min_speed` to `max_speed` and a needle at `speed`,
/// which never stands beyond the end of the dial.
#[derive(Clone, Copy, Debug)]
pub struct Speedometer {
    speed: u32,
    min_speed: u32,
    max_speed: u32,
}

impl View for Speedometer {
    type V = SpeedometerView;

    closed spec fn view(&self) -> SpeedometerView {
        SpeedometerView {
            speed: self.speed,
            min_speed: self.min_speed,
            max_speed: self.max_speed,
        }
    }
}

impl Speedometer {
    /// The needle never stands beyond the end of the dial.
    #[verifier::type_invariant]
    pub open spec fn inv(self) -> bool {
        self@.speed <= self@.max_speed
    }

    /// A gauge whose needle stands at `speed`, or at `max_speed` where
    /// `speed` is beyond it.
    pub fn new(min_speed: u32, max_speed: u32, speed: u32) -> (gauge: Speedometer)
        ensures
            gauge@.min_speed == min_speed,
            gauge@.max_speed == max_speed,
            gauge@.speed == if speed <= max_speed { speed } else { max_speed },
    {
        Speedometer {
            speed: if speed <= max_speed { speed } else { max_speed },
            min_speed,
            max_speed,
        }
    }

    /// Where the needle stands.
    pub fn speed(&self) -> (speed: u32)
        ensures
            speed == self@.speed,
            speed <= self@.max_speed,
    {
        proof {
            use_type_invariant(self);
        }
        self.speed
    }

    /// The low end of the dial.
    pub fn min_speed(&self) -> (min_speed: u32)
        ensures
            min_speed == self@.min_speed,
    {
        self.min_speed
    }

    /// The high end of the dial.
    pub fn max_speed(&self) -> (max_speed: u32)
        ensures
            max_speed == self@.max_speed,
    {
        self.max_speed
    }

    /// The tick marks of the dial, from its low end upwards.
    pub fn ticks(&self) -> (marks: Vec<Tick>)
        ensures
            marks@ == tick_marks(self@.min_speed, self@.max_speed),
    {
        let mut marks: Vec<Tick> = Vec::new();
        if self.min_speed > self.max_speed {
            assert(marks@ =~= tick_marks(self@.min_speed, self@.max_speed));
            return marks;
        }
        let min_speed = self.min_speed;
        let max_speed = self.max_speed;
        let mut value: u32 = min_speed;
        loop
            invariant_except_break
                min_speed <= value <= max_speed,
                value == min_speed + marks@.len() * TICK_STEP,
                marks@.len() < tick_count(min_speed, max_speed),
                forall|i: int| 0 <= i < marks@.len() ==> marks@[i] == tick_at(min_speed, i),
            ensures
                marks@.len() == tick_count(min_speed, max_speed),
                forall|i: int| 0 <= i < marks@.len() ==> marks@[i] == tick_at(min_speed, i),
            decreases max_speed - value,
        {
            marks.push(Tick { value, major: value % LABEL_STEP == 0 });
            if max_speed - value < TICK_STEP {
                break ;
            }
            value += TICK_STEP;
        }
        assert(marks@ =~= tick_marks(self@.min_speed, self@.max_speed));
        marks
    }
}

/// A gauge whose needle stands at `speed`, or at `max_speed` where `speed`
/// is beyond it.
pub fn speedometer(min_speed: u32, max_speed: u32, speed: u32) -> (gauge: Speedometer)
    ensures
        gauge@.min_speed == min_speed,
        gauge@.max_speed == max_speed,
        gauge@.speed == if speed <= max_speed { speed } else { max_speed },
{
    Speedometer::new(min_speed, max_speed, speed)
}

} // verus!
