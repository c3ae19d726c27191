//! Wheel events: direction only, one scroll unit per event.

use vstd::prelude::*;
use crate::protocol::WheelEvent;

verus! {

/// Which way a scroll unit goes.
#[derive(Clone, Copy, Debug, PartialEq, Eq)]
pub enum ScrollDirection {
    Up,
    Down,
}

/// One scroll call: a direction and a number of units.
#[derive(Clone, Copy, Debug, PartialEq, Eq)]
pub struct Scroll {
    pub direction: ScrollDirection,
    pub clicks: u32,
}

/// The number of units that one wheel event scrolls, whatever its magnitude.
pub const SCROLL_UNIT: u32 = 1;

/// The scroll call that a wheel delta asks for: up for a positive delta, down
/// for a negative one, none for zero. The magnitude is not preserved.
pub open spec fn scroll_of(dy: int) -> Option<Scroll> {
    if dy > 0 {
        Some(Scroll { direction: ScrollDirection::Up, clicks: SCROLL_UNIT })
    } else if dy < 0 {
        Some(Scroll { direction: ScrollDirection::Down, clicks: SCROLL_UNIT })
    } else {
        None
    }
}

/// Decides the scroll call for a wheel event.
pub fn wheel_scroll(event: &WheelEvent) -> (scroll: Option<Scroll>)
    ensures
        scroll == scroll_of(event.dy as int),
{
    if event.dy > 0 {
        Some(Scroll { direction: ScrollDirection::Up, clicks: SCROLL_UNIT })
    } else if event.dy < 0 {
        Some(Scroll { direction: ScrollDirection::Down, clicks: SCROLL_UNIT })
    } else {
        None
    }
}

/// Only the sign of a delta counts: two deltas of the same sign ask for the
/// same scroll call, and a scroll call is always of one unit.
pub proof fn lemma_scroll_depends_on_sign_only(first: int, second: int)
    requires
        (first > 0) == (second > 0),
        (first < 0) == (second < 0),
    ensures
        scroll_of(first) == scroll_of(second),
        scroll_of(first) matches Some(scroll) ==> scroll.clicks == 1,
{
}

} // verus!
