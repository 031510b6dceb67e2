//! Viewport windowing: which contiguous slice of a filtered list is
//! visible, given the viewport height and the current selection.  The
//! selection is centered when possible without running past either end
//! of the list.

use vstd::prelude::*;

verus! {

/// First visible index when `sel` is selected out of `total` items in a
/// viewport `height` rows tall.
pub open spec fn range_start(sel: int, total: int, height: int) -> int {
    let half = height / 2;
    if sel + half >= total {
        if total >= height {
            total - height
        } else {
            0
        }
    } else {
        if sel >= half {
            sel - half
        } else {
            0
        }
    }
}

/// One past the last visible index for the same configuration.
pub open spec fn range_end(sel: int, total: int, height: int) -> int {
    let s = range_start(sel, total, height);
    if s + height <= total {
        s + height
    } else {
        total
    }
}

/// Computes the visible slice `[start, end)` of a list of `total` items
/// in a viewport of `visible_height` rows.  Without a selection the
/// list is shown from the top.
pub fn visible_range(selected: Option<usize>, total: usize, visible_height: usize) -> (r: (
    usize,
    usize,
))
    ensures
        r.0 <= r.1 <= total,
        r.1 - r.0 <= visible_height,
        selected is None ==> r.0 == 0 && (r.1 == if visible_height <= total {
            visible_height as int
        } else {
            total as int
        }),
        selected matches Some(sel) ==> r.0 == range_start(sel as int, total as int, visible_height as int)
            && r.1 == range_end(sel as int, total as int, visible_height as int),
        selected matches Some(sel) ==> (sel < total && visible_height >= 1 ==> r.0 <= sel
            < r.1),
{
    match selected {
        None => {
            let end = if visible_height < total {
                visible_height
            } else {
                total
            };
            (0, end)
        },
        Some(sel) => {
            let half = visible_height / 2;
            let near_tail = half >= total || sel >= total - half;
            let start = if near_tail {
                // close to the tail: pin the window to the end
                if total >= visible_height {
                    total - visible_height
                } else {
                    0
                }
            } else {
                // center the selection when there is room above it
                if sel >= half {
                    sel - half
                } else {
                    0
                }
            };
            let end = if visible_height <= total && start <= total - visible_height {
                start + visible_height
            } else {
                total
            };
            (start, end)
        },
    }
}

/// Whenever a selection exists and is in range, it lies inside the
/// visible slice, and the slice never exceeds the viewport height.
pub proof fn lemma_visible_range_contains_selection(sel: int, total: int, height: int)
    requires
        0 <= sel < total,
        height >= 1,
    ensures
        range_start(sel, total, height) <= sel < range_end(sel, total, height),
        range_end(sel, total, height) - range_start(sel, total, height) <= height,
        range_end(sel, total, height) <= total,
{
}

} // verus!
