//! One-sample memory over a polled digital input.
use vstd::prelude::*;

verus! {

/// What `rising_edge` reports when `previous` was recorded at the last poll
/// and `current` is the level sampled now.
pub open spec fn rises(previous: bool, current: bool) -> bool {
    !previous && current
}

/// What `falling_edge` reports for the same two samples.
pub open spec fn falls(previous: bool, current: bool) -> bool {
    previous && !current
}

/// The edge memory of one input line.  The line itself belongs to the
/// caller, which samples it and hands each level to one of the queries.
pub struct PinState {
    previous_state: bool,
}

impl View for PinState {
    /// The level observed at the last poll.
    type V = bool;

    closed spec fn view(&self) -> bool {
        self.previous_state
    }
}

impl PinState {
    /// A fresh memory records the line as low.
    pub fn new() -> (r: PinState)
        ensures
            r@ == false,
    {
        PinState { previous_state: false }
    }

    /// Reports a low-to-high change between the last poll and `current`,
    /// and records `current` either way.
    pub fn rising_edge(&mut self, current: bool) -> (r: bool)
        ensures
            r == rises(old(self)@, current),
            final(self)@ == current,
    {
        let edge_detected = !self.previous_state && current;
        self.previous_state = current;
        edge_detected
    }

    /// Reports a high-to-low change between the last poll and `current`,
    /// and records `current` either way.
    pub fn falling_edge(&mut self, current: bool) -> (r: bool)
        ensures
            r == falls(old(self)@, current),
            final(self)@ == current,
    {
        let edge_detected = self.previous_state && !current;
        self.previous_state = current;
        edge_detected
    }

    /// Whether the sampled level is high; the sample is recorded.
    pub fn is_high(&mut self, current: bool) -> (r: bool)
        ensures
            r == current,
            final(self)@ == current,
    {
        self.previous_state = current;
        current
    }

    /// Whether the sampled level is low; the sample is recorded.
    pub fn is_low(&mut self, current: bool) -> (r: bool)
        ensures
            r == !current,
            final(self)@ == current,
    {
        self.previous_state = current;
        !current
    }
}

/// The reports of successive `rising_edge` calls on `levels`, starting from
/// a memory that holds `previous`: each call compares with the level that
/// the call before it recorded.
pub open spec fn rising_reports(previous: bool, levels: Seq<bool>) -> Seq<bool>
    decreases levels.len(),
{
    if levels.len() == 0 {
        Seq::empty()
    } else {
        seq![rises(previous, levels[0])] + rising_reports(levels[0], levels.drop_first())
    }
}

/// The reports of successive `falling_edge` calls, as above.
pub open spec fn falling_reports(previous: bool, levels: Seq<bool>) -> Seq<bool>
    decreases levels.len(),
{
    if levels.len() == 0 {
        Seq::empty()
    } else {
        seq![falls(previous, levels[0])] + falling_reports(levels[0], levels.drop_first())
    }
}

/// The level that poll `i` is compared with.
pub open spec fn sample_before(previous: bool, levels: Seq<bool>, i: int) -> bool {
    if i == 0 {
        previous
    } else {
        levels[i - 1]
    }
}

/// Over any sequence of polls, `rising_edge` reports true exactly at the
/// polls that see the line high after it was low at the poll before, so
/// once per low-to-high change and never on a repeated high sample.
pub proof fn rising_edge_once_per_transition(previous: bool, levels: Seq<bool>)
    ensures
        rising_reports(previous, levels).len() == levels.len(),
        forall|i: int|
            0 <= i < levels.len() ==> #[trigger] rising_reports(previous, levels)[i] == (
            !sample_before(previous, levels, i) && levels[i]),
        forall|i: int|
            0 < i < levels.len() && levels[i - 1] && levels[i] ==> !#[trigger] rising_reports(
                previous,
                levels,
            )[i],
    decreases levels.len(),
{
    if levels.len() > 0 {
        let rest = levels.drop_first();
        rising_edge_once_per_transition(levels[0], rest);
        assert forall|i: int| 0 < i < levels.len() implies #[trigger] rising_reports(
            previous,
            levels,
        )[i] == (!sample_before(previous, levels, i) && levels[i]) by {
            assert(rising_reports(previous, levels)[i] == rising_reports(levels[0], rest)[i - 1]);
            assert(sample_before(levels[0], rest, i - 1) == sample_before(previous, levels, i));
        }
    }
}

/// `falling_edge` is the dual of `rising_edge`: over any sequence of polls
/// it reports what `rising_edge` would report on the inverted line.
pub proof fn falling_edge_is_dual(previous: bool, levels: Seq<bool>)
    ensures
        falling_reports(previous, levels) == rising_reports(!previous, levels.map_values(|b: bool| !b)),
    decreases levels.len(),
{
    let inverted = levels.map_values(|b: bool| !b);
    if levels.len() > 0 {
        falling_edge_is_dual(levels[0], levels.drop_first());
        assert(inverted.drop_first() =~= levels.drop_first().map_values(|b: bool| !b));
    }
    assert(falling_reports(previous, levels) =~= rising_reports(!previous, inverted));
}

} // verus!
