//! A call-trace recorder for nested, recursive-descent parsing functions.
//!
//! Each parsing step is bracketed by a forward crossing (entry) and a
//! backward crossing (exit). When enabled, every crossing is recorded with
//! its nesting depth, a strictly increasing sequence number, and a rendering
//! of the input position at that point. The configuration travels by value
//! inside the traced input itself, and the crossing counters live in an
//! explicit per-parse storage value, so independent parses never interfere.

pub mod config;
pub mod nom_types;
pub mod render;
pub mod span;
pub mod storage;
pub mod text;
pub mod trace;
pub mod traceable;

pub use config::TracableInfo;
pub use render::render_trace;
pub use span::Span;
pub use storage::TracableStorage;
pub use trace::LineKind;
pub use trace::TraceLine;
pub use trace::backward_trace;
pub use trace::forward_trace;
pub use trace::traced_call;
pub use traceable::HasTracableInfo;
pub use traceable::Tracable;
