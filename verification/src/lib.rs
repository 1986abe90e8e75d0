// A small renderer core: the decision logic of a single-triangle,
// color-picker-driven frame loop. The host performs the GPU and windowing
// calls; this crate owns the state, the byte layouts, and the per-frame
// command plan, each with a proved contract.

pub mod color;
pub mod surface;
pub mod ui;
pub mod frame;
pub mod driver;
