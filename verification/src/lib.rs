//! Engine for a terminal keystroke visualizer: every key press spawns an
//! expanding colored circle ("bubble") anchored at the key's cell of an
//! on-screen keyboard, advanced one step per render frame.
//!
//! All lengths are measured in whole terminal cells; radii, growth speed and
//! the maximum bubble size are plain integer amounts of the same unit.  The
//! surrounding binary owns the terminal, the key-event stream and the audio
//! device; this crate owns the state and the rules.

pub mod bubble;
pub mod layout;
pub mod model;
pub mod sound;

pub use bubble::Bubble;
pub use bubble::BubbleState;
pub use bubble::Circle;
pub use bubble::Color;
pub use layout::KeyboardLayout;
pub use model::Message;
pub use model::Model;
pub use model::RunningState;
