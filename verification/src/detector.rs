//! The fall classification and the hysteresis that moves it.

use vstd::prelude::*;
use crate::sample::Magnitude;

verus! {

/// Whether the device is at rest or in free fall.
#[derive(Clone, Copy, Debug, PartialEq, Eq, Structural)]
pub enum FallState {
    Stable,
    Falling,
}

/// The two magnitudes, in milli-g, at which the classification changes.
///
/// A stable device starts to fall when the magnitude drops below the lower
/// one; a falling device is stable again when the magnitude rises above the
/// upper one. The lower never exceeds the upper. Between them nothing changes,
/// which keeps a noisy signal from flipping the classification back and forth.
#[derive(Clone, Copy, Debug, PartialEq, Eq, Structural)]
pub struct Thresholds {
    low_enter: u32,
    high_exit: u32,
}

impl Thresholds {
    /// The magnitude below which a stable device is taken to fall.
    pub closed spec fn low(&self) -> nat {
        self.low_enter as nat
    }

    /// The magnitude above which a falling device is taken to be stable.
    pub closed spec fn high(&self) -> nat {
        self.high_exit as nat
    }

    /// The lower threshold does not exceed the upper one.
    pub open spec fn wf(&self) -> bool {
        self.low() <= self.high()
    }

    /// Holds of every pair of thresholds at all times.
    #[verifier::type_invariant]
    pub open spec fn inv(&self) -> bool {
        self.wf()
    }

    /// The magnitude with the given square lies strictly between the two
    /// thresholds.
    pub open spec fn in_dead_band(&self, squared: int) -> bool {
        self.low() * self.low() < squared < self.high() * self.high()
    }

    /// The classification that follows `state` once a magnitude with the
    /// given square was measured: a stable device falls when the magnitude is
    /// below the lower threshold, a falling one is stable when it is above
    /// the upper one.
    pub open spec fn step(&self, state: FallState, squared: int) -> FallState {
        match state {
            FallState::Stable => if squared < self.low() * self.low() {
                FallState::Falling
            } else {
                FallState::Stable
            },
            FallState::Falling => if squared > self.high() * self.high() {
                FallState::Stable
            } else {
                FallState::Falling
            },
        }
    }

    /// The classification after magnitudes with the given squares were
    /// measured in turn, starting from `start`.
    pub open spec fn state_after(&self, start: FallState, squares: Seq<int>) -> FallState
        decreases squares.len(),
    {
        if squares.len() == 0 {
            start
        } else {
            self.step(self.state_after(start, squares.drop_last()), squares.last())
        }
    }

    /// The classification after each magnitude: entry `i` is the
    /// classification once `squares[0..=i]` were measured.
    pub open spec fn trace(&self, start: FallState, squares: Seq<int>) -> Seq<FallState> {
        Seq::new(squares.len(), |i: int| self.state_after(start, squares.take(i + 1)))
    }

    /// The thresholds `low_enter_mg` and `high_exit_mg`, unless the lower
    /// exceeds the upper.
    pub fn new(low_enter_mg: u32, high_exit_mg: u32) -> (made: Option<Thresholds>)
        ensures
            made is Some <==> low_enter_mg <= high_exit_mg,
            made matches Some(t) ==> t.low() == low_enter_mg && t.high() == high_exit_mg && t.wf(),
    {
        if low_enter_mg <= high_exit_mg {
            Some(Thresholds { low_enter: low_enter_mg, high_exit: high_exit_mg })
        } else {
            None
        }
    }

    /// Half a g to start falling, one g to be stable again.
    pub fn recommended() -> (t: Thresholds)
        ensures
            t.low() == 500,
            t.high() == 1000,
            t.wf(),
    {
        Thresholds { low_enter: 500, high_exit: 1000 }
    }

    /// The lower threshold in milli-g.
    pub fn low_enter_mg(&self) -> (mg: u32)
        ensures
            mg == self.low(),
            mg <= self.high(),
    {
        proof {
            use_type_invariant(self);
        }
        self.low_enter
    }

    /// The upper threshold in milli-g.
    pub fn high_exit_mg(&self) -> (mg: u32)
        ensures
            mg == self.high(),
            mg >= self.low(),
    {
        proof {
            use_type_invariant(self);
        }
        self.high_exit
    }

    /// Whether the two thresholds differ, so that a band lies between them.
    pub fn has_dead_band(&self) -> (b: bool)
        ensures
            b == (self.low() < self.high()),
    {
        self.low_enter < self.high_exit
    }
}

/// The fall detector: from the classification so far and one measured
/// magnitude to the classification that follows. It holds the thresholds and
/// nothing that changes.
#[derive(Clone, Copy, Debug, PartialEq, Eq, Structural)]
pub struct FallDetector {
    thresholds: Thresholds,
}

impl FallDetector {
    /// The thresholds the detector works with.
    pub closed spec fn thresholds(&self) -> Thresholds {
        self.thresholds
    }

    /// The detector for the given thresholds.
    pub fn new(thresholds: Thresholds) -> (detector: FallDetector)
        ensures
            detector.thresholds() == thresholds,
    {
        FallDetector { thresholds }
    }

    /// Moves the classification by one measured magnitude.
    ///
    /// A stable device falls exactly when the magnitude is below the lower
    /// threshold; a falling device is stable exactly when the magnitude is
    /// above the upper threshold; otherwise the classification stays.
    pub fn next(&self, state: FallState, magnitude: Magnitude) -> (following: FallState)
        ensures
            following == self.thresholds().step(state, magnitude.squared()),
    {
        match state {
            FallState::Stable => if magnitude.is_below(self.thresholds.low_enter) {
                FallState::Falling
            } else {
                FallState::Stable
            },
            FallState::Falling => if magnitude.is_above(self.thresholds.high_exit) {
                FallState::Stable
            } else {
                FallState::Falling
            },
        }
    }

    /// Classifies a whole series of magnitudes, starting from `start`.
    pub fn classify(&self, start: FallState, magnitudes: &Vec<Magnitude>) -> (states: Vec<FallState>)
        ensures
            states@ == self.thresholds().trace(start, squares_of(magnitudes@)),
    {
        let ghost squares = squares_of(magnitudes@);
        let mut states: Vec<FallState> = Vec::new();
        let mut current = start;
        let mut i: usize = 0;
        while i < magnitudes.len()
            invariant
                i <= magnitudes.len(),
                states.len() == i,
                squares == squares_of(magnitudes@),
                current == self.thresholds().state_after(start, squares.take(i as int)),
                forall|k: int| 0 <= k < i ==> states[k] == self.thresholds().state_after(start, #[trigger] squares.take(k + 1)),
            decreases magnitudes.len() - i,
        {
            proof {
                let longer = squares.take(i + 1);
                assert(longer.drop_last() == squares.take(i as int));
                assert(longer.last() == magnitudes[i as int].squared());
            }
            current = self.next(current, magnitudes[i]);
            states.push(current);
            i += 1;
        }
        states
    }
}

/// The squares of a series of magnitudes.
pub open spec fn squares_of(magnitudes: Seq<Magnitude>) -> Seq<int> {
    Seq::new(magnitudes.len(), |i: int| magnitudes[i].squared())
}

/// Outside the band the magnitude alone decides: below the lower threshold
/// the device is falling, above the upper one it is stable, whatever it was
/// before. This is where the order of the two thresholds is needed.
pub proof fn lemma_extremes_decide(thresholds: Thresholds, state: FallState, squared: int)
    requires
        thresholds.wf(),
    ensures
        squared < thresholds.low() * thresholds.low() ==> thresholds.step(state, squared) == FallState::Falling,
        squared > thresholds.high() * thresholds.high() ==> thresholds.step(state, squared) == FallState::Stable,
{
    let low = thresholds.low() as int;
    let high = thresholds.high() as int;
    assert(low * low <= high * high) by (nonlinear_arith)
        requires
            0 <= low <= high,
    ;
}

/// While every magnitude stays strictly between the two thresholds, the
/// classification never moves from where it started.
pub proof fn lemma_no_chatter(thresholds: Thresholds, start: FallState, squares: Seq<int>)
    requires
        forall|i: int| 0 <= i < squares.len() ==> thresholds.in_dead_band(#[trigger] squares[i]),
    ensures
        thresholds.state_after(start, squares) == start,
        thresholds.trace(start, squares).len() == squares.len(),
        forall|i: int| 0 <= i < squares.len() ==> #[trigger] thresholds.trace(start, squares)[i] == start,
    decreases squares.len(),
{
    if squares.len() > 0 {
        lemma_no_chatter(thresholds, start, squares.drop_last());
        assert(thresholds.in_dead_band(squares.last()));
    }
    assert forall|i: int| 0 <= i < squares.len() implies #[trigger] thresholds.trace(start, squares)[i] == start by {
        let prefix = squares.take(i + 1);
        assert forall|k: int| 0 <= k < prefix.len() implies thresholds.in_dead_band(#[trigger] prefix[k]) by {
            assert(prefix[k] == squares[k]);
        }
        if i + 1 < squares.len() {
            lemma_no_chatter(thresholds, start, prefix);
        } else {
            assert(prefix == squares);
        }
    }
}

} // verus!
