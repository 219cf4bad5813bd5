//! Input-event core for a rotary-encoder and push-button front panel.
//!
//! Raw digital-input transitions are turned into classified interaction
//! events: rotation steps with instantaneous speed, short presses,
//! long-press start/ongoing/end, and double clicks. The crate holds the
//! noise-tolerant level sampler, the quadrature decoding state machine,
//! the button-gesture state machine, and the listener registry that fans
//! events out to consumers. Pin reads, edge waits and timer ticks are the
//! platform's business: callers sample the hardware and hand the counts
//! and millisecond timestamps in as plain values.

pub mod bus;
pub mod ec11;
pub mod event;
pub mod level;
