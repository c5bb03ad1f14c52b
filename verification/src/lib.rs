//! Exact, integer-only core of a two-colour cycling animation: colours and
//! their hexadecimal text form, segments that fold elapsed time into a blend
//! of their two endpoint colours, an elapsed-time clock, and the ordered
//! collection of segments that a renderer walks on every frame.

pub mod clock;
pub mod color;
pub mod error;
pub mod segment;
pub mod shared;
pub mod state;

pub use clock::{Control, ControlView, Timestamp};
pub use color::Color;
pub use error::EngineError;
pub use segment::{Blend, Segment, SegmentView};
pub use shared::{Wrap, C};
pub use state::State;
