use vstd::prelude::*;
use crate::color::Color;

verus! {

/// What the UI layer reports for one window event: whether it claimed the
/// event for itself, and whether a repaint should be scheduled even absent
/// an explicit redraw request.
#[derive(Clone, Copy, PartialEq, Eq, Structural, Debug)]
pub struct UiEventResponse {
    pub consumed: bool,
    pub repaint: bool,
}

/// What one immediate-mode UI frame produced, reduced to what the frame
/// plan depends on: the color after the picker widget ran, whether the
/// widget reported a change, and the texture-cache deltas by id — additions
/// and updates to apply before drawing, removals to release only after the
/// frame's commands are submitted.
pub struct UiFrameOutput {
    pub color: Color,
    pub color_changed: bool,
    pub textures_set: Vec<u64>,
    pub textures_free: Vec<u64>,
}

} // verus!
