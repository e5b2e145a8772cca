//! The post-edit remeasure step: after a field edit, an instance's rendered
//! size is recomputed from its measured content box. The decision is pure;
//! the waiting and the measuring stay with the UI layer. Overlapping
//! remeasures of one instance are coalesced by a guard: at most one is in
//! flight, and a request arriving while one is pending is dropped, not
//! queued.

use vstd::prelude::*;

use crate::model::Size;

verus! {

/// Minimum rendered width of a block, in pixels.
pub const MIN_BLOCK_WIDTH: i64 = 150;

/// Minimum rendered height of a block, in pixels.
pub const MIN_BLOCK_HEIGHT: i64 = 60;

/// Padding added around the measured content box, in pixels.
pub const CONTENT_PADDING: i64 = 40;

/// A measured change of at most this many pixels is ignored.
pub const RESIZE_THRESHOLD: i64 = 1;

/// The extent that fits a measured dimension: the dimension plus padding,
/// never below the given minimum.
pub open spec fn fitted(measured: int, minimum: int) -> int {
    if measured + CONTENT_PADDING > minimum {
        measured + CONTENT_PADDING
    } else {
        minimum
    }
}

/// What a completed measurement decides: a degenerate content box decides
/// nothing; otherwise the fitted size is adopted exactly when some dimension
/// moved from the current size by more than the threshold.
pub open spec fn remeasure_decision(current: Size, content_width: int, content_height: int) -> Option<
    Size,
> {
    if content_width <= 0 || content_height <= 0 {
        Option::None
    } else {
        let w = fitted(content_width, MIN_BLOCK_WIDTH as int);
        let h = fitted(content_height, MIN_BLOCK_HEIGHT as int);
        if w - current.width > RESIZE_THRESHOLD || current.width - w > RESIZE_THRESHOLD || h
            - current.height > RESIZE_THRESHOLD || current.height - h > RESIZE_THRESHOLD {
            Option::Some(Size { width: w as i64, height: h as i64 })
        } else {
            Option::None
        }
    }
}

/// Applies the remeasure decision to a measured content box.
pub fn remeasured_size(current: Size, content_width: i64, content_height: i64) -> (r: Option<Size>)
    requires
        current.width >= 0,
        current.height >= 0,
        content_width <= i64::MAX - CONTENT_PADDING,
        content_height <= i64::MAX - CONTENT_PADDING,
    ensures
        r == remeasure_decision(current, content_width as int, content_height as int),
{
    if content_width <= 0 || content_height <= 0 {
        return Option::None;
    }
    let w = if content_width + CONTENT_PADDING > MIN_BLOCK_WIDTH {
        content_width + CONTENT_PADDING
    } else {
        MIN_BLOCK_WIDTH
    };
    let h = if content_height + CONTENT_PADDING > MIN_BLOCK_HEIGHT {
        content_height + CONTENT_PADDING
    } else {
        MIN_BLOCK_HEIGHT
    };
    let changed = w - current.width > RESIZE_THRESHOLD || current.width - w > RESIZE_THRESHOLD || h
        - current.height > RESIZE_THRESHOLD || current.height - h > RESIZE_THRESHOLD;
    if changed {
        Option::Some(Size { width: w, height: h })
    } else {
        Option::None
    }
}

/// The per-instance coalescing guard for in-flight remeasures.
#[derive(Clone, Copy, PartialEq, Eq, Structural, Debug)]
pub struct RemeasureGuard {
    pub busy: bool,
}

impl RemeasureGuard {
    /// A fresh guard with no remeasure in flight.
    pub fn new() -> (r: RemeasureGuard)
        ensures
            !r.busy,
    {
        RemeasureGuard { busy: false }
    }

    /// Tries to start a remeasure: it may begin only when none is in flight,
    /// so a request arriving while one is pending is dropped.
    pub fn try_begin(&mut self) -> (r: bool)
        ensures
            r == !old(self).busy,
            final(self).busy,
    {
        let r = !self.busy;
        self.busy = true;
        r
    }

    /// Marks the in-flight remeasure complete.
    pub fn finish(&mut self)
        ensures
            !final(self).busy,
    {
        self.busy = false;
    }
}

} // verus!
