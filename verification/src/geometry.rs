//! Geometry of the two panes.
//!
//! All lengths are whole logical (DPI-independent) units.

use vstd::prelude::*;

verus! {

/// The least height a content pane is ever given, so that a surface never
/// degenerates to an empty one.
pub const MIN_VISIBLE: u32 = 1;

/// An axis-aligned rectangle: origin and size.
#[derive(Clone, Copy, Debug, PartialEq, Eq, Structural)]
pub struct Rect {
    pub x: u32,
    pub y: u32,
    pub width: u32,
    pub height: u32,
}

impl Rect {
    /// The first row below the rectangle.
    pub open spec fn bottom(self) -> int {
        self.y + self.height
    }

    /// The rows `[y, bottom)` of `self` and of `other` have none in common.
    pub open spec fn vertically_disjoint(self, other: Rect) -> bool {
        self.bottom() <= other.y || other.bottom() <= self.y
    }
}

/// The height left for the content pane: what remains of the window below
/// the toolbar, but never less than [`MIN_VISIBLE`].
pub open spec fn content_height(window_height: int, toolbar_height: int) -> int {
    if window_height - toolbar_height >= MIN_VISIBLE {
        window_height - toolbar_height
    } else {
        MIN_VISIBLE as int
    }
}

/// The toolbar pane: the top `toolbar_height` rows over the full width.
pub open spec fn toolbar_rect(window_width: u32, toolbar_height: u32) -> Rect {
    Rect { x: 0, y: 0, width: window_width, height: toolbar_height }
}

/// The content pane: the full width, from the toolbar's bottom edge down.
pub open spec fn content_rect(window_width: u32, window_height: u32, toolbar_height: u32) -> Rect {
    Rect {
        x: 0,
        y: toolbar_height,
        width: window_width,
        height: content_height(window_height as int, toolbar_height as int) as u32,
    }
}

/// Splits a window into the toolbar pane and the content pane.
///
/// The result depends on the three arguments alone, so it is recomputed from
/// the current window size on every resize and never adjusted in place. A
/// window lower than its toolbar still gets a content pane of
/// [`MIN_VISIBLE`] height.
pub fn compute_layout(window_width: u32, window_height: u32, toolbar_height: u32) -> (panes: (
    Rect,
    Rect,
))
    ensures
        panes.0 == toolbar_rect(window_width, toolbar_height),
        panes.1 == content_rect(window_width, window_height, toolbar_height),
        panes.1.height == content_height(window_height as int, toolbar_height as int),
        panes.0.vertically_disjoint(panes.1),
{
    let remaining: u32 = if window_height > toolbar_height {
        window_height - toolbar_height
    } else {
        0
    };
    let height: u32 = if remaining >= MIN_VISIBLE {
        remaining
    } else {
        MIN_VISIBLE
    };
    (
        Rect { x: 0, y: 0, width: window_width, height: toolbar_height },
        Rect { x: 0, y: toolbar_height, width: window_width, height },
    )
}

/// The panes of every window stack without overlap: the toolbar is as wide
/// as the window and exactly as high as asked, the content pane begins on
/// the row where the toolbar ends, and its height is what the toolbar leaves
/// of the window, or [`MIN_VISIBLE`] where that would be less.
pub proof fn lemma_panes_stack(window_width: u32, window_height: u32, toolbar_height: u32)
    ensures
        toolbar_rect(window_width, toolbar_height).width == window_width,
        toolbar_rect(window_width, toolbar_height).height == toolbar_height,
        content_rect(window_width, window_height, toolbar_height).width == window_width,
        content_rect(window_width, window_height, toolbar_height).height == content_height(
            window_height as int,
            toolbar_height as int,
        ),
        content_rect(window_width, window_height, toolbar_height).height >= MIN_VISIBLE,
        window_height >= toolbar_height + MIN_VISIBLE ==> content_rect(
            window_width,
            window_height,
            toolbar_height,
        ).height == window_height - toolbar_height,
        window_height < toolbar_height + MIN_VISIBLE ==> content_rect(
            window_width,
            window_height,
            toolbar_height,
        ).height == MIN_VISIBLE,
        toolbar_rect(window_width, toolbar_height).bottom() == content_rect(
            window_width,
            window_height,
            toolbar_height,
        ).y,
        toolbar_rect(window_width, toolbar_height).vertically_disjoint(
            content_rect(window_width, window_height, toolbar_height),
        ),
{
}

} // verus!
