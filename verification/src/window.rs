use vstd::prelude::*;

verus! {

/// How many points go into one candle, before the lower bound applies.
pub const CANDLE_SIZE_DIVIDER: usize = 65;

/// The fewest points a candle, and a plotted window, ever holds.
pub const MIN_CANDLE_SIZE: usize = 2;

/// Points per candle for a series of `points` points.
pub open spec fn candle_for(points: nat) -> nat {
    let c = points / (CANDLE_SIZE_DIVIDER as nat);
    if c <= MIN_CANDLE_SIZE {
        MIN_CANDLE_SIZE as nat
    } else {
        c
    }
}

/// Points per candle for a series of `points` points: one candle per
/// sixty-fifth of the series, and never fewer than two points.
pub fn candle_size(points: usize) -> (c: usize)
    ensures
        c == candle_for(points as nat),
        c >= MIN_CANDLE_SIZE,
{
    let c = points / CANDLE_SIZE_DIVIDER;
    if c <= MIN_CANDLE_SIZE {
        MIN_CANDLE_SIZE
    } else {
        c
    }
}

/// A longer series never gets smaller candles.
pub proof fn lemma_candle_monotone(a: nat, b: nat)
    requires
        a <= b,
    ensures
        candle_for(a) <= candle_for(b),
{
    assert(a / 65 <= b / 65) by (nonlinear_arith)
        requires
            a <= b,
    ;
}

/// A series of fewer than 195 points gets candles of two points; a longer one
/// gets the largest `c` with `65 * c` points or fewer, so a series of `65 * k`
/// points with `k > 2` gets candles of exactly `k` points.
pub proof fn lemma_candle_values(n: nat, k: nat)
    ensures
        n < 195 ==> candle_for(n) == 2,
        n >= 195 ==> 65 * candle_for(n) <= n < 65 * candle_for(n) + 65,
        k > 2 ==> candle_for(65 * k) == k,
{
}

/// What has to be written back to the sliders so that they show the window that is plotted.
#[derive(Clone, Copy, Debug, PartialEq, Eq, Structural)]
pub enum ScaleFix {
    /// The sliders already show the plotted window.
    Keep,
    /// The start slider must be set to this value.
    SetStart(usize),
    /// The end slider must be set to this value.
    SetEnd(usize),
}

/// The window of points that a panel plots, and how to bring the sliders in line with it.
#[derive(Clone, Copy, Debug, PartialEq, Eq, Structural)]
pub struct Settled {
    pub start: usize,
    pub end: usize,
    pub fix: ScaleFix,
}

/// Whether the window from `start` to `end` is too narrow to plot as it is.
pub open spec fn too_narrow(start: int, end: int) -> bool {
    start + 1 >= end
}

/// The window that is plotted when the sliders read `start` and `end`:
/// a window of fewer than two points is widened to exactly two, by moving
/// the slider that was not the last one moved.
pub open spec fn settled_window(start: int, end: int, start_changing: bool) -> (int, int) {
    if !too_narrow(start, end) {
        (start, end)
    } else if start_changing {
        (start, start + 2)
    } else {
        (end - 2, end)
    }
}

/// The inputs on which widening the window stays within `usize`.
pub open spec fn settle_in_range(start: int, end: int, start_changing: bool) -> bool {
    &&& start + 1 <= usize::MAX
    &&& (too_narrow(start, end) && start_changing) ==> start + 2 <= usize::MAX
    &&& (too_narrow(start, end) && !start_changing) ==> end >= 2
}

/// The full description of a settled window.
pub open spec fn settles_as(s: Settled, start: int, end: int, start_changing: bool) -> bool {
    let (ws, we) = settled_window(start, end, start_changing);
    &&& s.start == ws
    &&& s.end == we
    &&& s.fix == (if !too_narrow(start, end) {
        ScaleFix::Keep
    } else if start_changing {
        ScaleFix::SetEnd(s.end)
    } else {
        ScaleFix::SetStart(s.start)
    })
}

/// Which of the two sliders the user moved last; the plots share it.
#[derive(Clone, Copy, Debug, PartialEq, Eq, Structural)]
pub struct RangeControl {
    pub start_changing: bool,
}

/// What a price panel needs to draw: the window and the candle size for it.
#[derive(Clone, Copy, Debug, PartialEq, Eq, Structural)]
pub struct PricePlan {
    pub window: Settled,
    pub candle: usize,
}

impl RangeControl {
    /// The state before any slider moved: the start slider counts as the last one moved.
    pub fn new() -> (r: Self)
        ensures
            r.start_changing,
    {
        RangeControl { start_changing: true }
    }

    /// The start slider moved.
    pub fn start_moved(&mut self)
        ensures
            final(self).start_changing,
    {
        self.start_changing = true;
    }

    /// The end slider moved.
    pub fn end_moved(&mut self)
        ensures
            !final(self).start_changing,
    {
        self.start_changing = false;
    }

    /// Whether the sliders reading `start` and `end` can be settled within `usize`.
    pub fn can_settle(&self, start: usize, end: usize) -> (b: bool)
        ensures
            b == settle_in_range(start as int, end as int, self.start_changing),
    {
        if start == usize::MAX {
            false
        } else if start + 1 >= end {
            if self.start_changing {
                start < usize::MAX - 1
            } else {
                end >= 2
            }
        } else {
            true
        }
    }

    /// The window to plot when the sliders read `start` and `end`.
    pub fn settle(&self, start: usize, end: usize) -> (s: Settled)
        requires
            settle_in_range(start as int, end as int, self.start_changing),
        ensures
            settles_as(s, start as int, end as int, self.start_changing),
            s.end >= s.start + 2,
    {
        if start + 1 >= end {
            if self.start_changing {
                let e = start + 2;
                Settled { start, end: e, fix: ScaleFix::SetEnd(e) }
            } else {
                let s = end - 2;
                Settled { start: s, end, fix: ScaleFix::SetStart(s) }
            }
        } else {
            Settled { start, end, fix: ScaleFix::Keep }
        }
    }

    /// The window and the candle size with which a price panel draws.
    pub fn plan_price_draw(&self, start: usize, end: usize) -> (p: PricePlan)
        requires
            settle_in_range(start as int, end as int, self.start_changing),
        ensures
            settles_as(p.window, start as int, end as int, self.start_changing),
            p.candle == candle_for((p.window.end - p.window.start) as nat),
    {
        let window = self.settle(start, end);
        let candle = candle_size(window.end - window.start);
        PricePlan { window, candle }
    }
}

/// A window that was settled once is left as it is when it is settled again,
/// whichever slider moved last.
pub proof fn lemma_settle_idempotent(start: int, end: int, first: bool, second: bool)
    ensures
        ({
            let (s, e) = settled_window(start, end, first);
            &&& !too_narrow(s, e)
            &&& settled_window(s, e, second) == (s, e)
        }),
{
}

/// Settling never moves the slider that the user moved last.
pub proof fn lemma_settle_keeps_moved_slider(start: int, end: int, start_changing: bool)
    ensures
        start_changing ==> settled_window(start, end, start_changing).0 == start,
        !start_changing ==> settled_window(start, end, start_changing).1 == end,
{
}

/// A window of at least two points is plotted as it is and nothing is written
/// back, whatever its width; a narrower one becomes exactly two points, ending
/// two after the start if the start slider moved last and starting two before
/// the end otherwise, and the slider that was not moved is set to match.
pub proof fn lemma_settle_cases(s: Settled, start: int, end: int, start_changing: bool)
    requires
        settles_as(s, start, end, start_changing),
    ensures
        start + 2 <= end ==> s == (Settled { start: start as usize, end: end as usize, fix: ScaleFix::Keep }),
        start + 1 >= end && start_changing ==> s.start == start && s.end == start + 2 && s.fix == ScaleFix::SetEnd(
            s.end,
        ),
        start + 1 >= end && !start_changing ==> s.start == end - 2 && s.end == end && s.fix == ScaleFix::SetStart(
            s.start,
        ),
{
}

/// The sliders can be settled exactly where the original arithmetic stays
/// within `usize`: any window with a start below `usize::MAX - 1`, and any
/// window whose end is at least two when the end slider moved last, but no
/// window starting at `usize::MAX` and no narrow window ending below two when
/// the end slider moved last.
pub proof fn lemma_settle_range(start: int, end: int, start_changing: bool)
    requires
        0 <= start <= usize::MAX,
        0 <= end <= usize::MAX,
    ensures
        start + 2 <= usize::MAX && (start_changing || end >= 2) ==> settle_in_range(start, end, start_changing),
        start + 2 <= end && start < usize::MAX ==> settle_in_range(start, end, start_changing),
        start == usize::MAX ==> !settle_in_range(start, end, start_changing),
        start + 1 >= end && end < 2 && !start_changing ==> !settle_in_range(start, end, start_changing),
{
}

} // verus!
