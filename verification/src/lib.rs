//! Logic of a small Windows tool that removes the default-program
//! associations of common video, audio and playlist file extensions.
//!
//! The registry, the shell and the window system are driven from outside;
//! this library decides what is asked of them, in which order, what the
//! activity log says, and where the window's controls go.

pub mod messages;
pub mod extensions;
pub mod cleaning;
pub mod layout;
pub mod unbind;
pub mod laws;

pub use cleaning::{Action, CleaningJob, ExtensionOutcome, Phase};
pub use extensions::MediaCategory;
pub use layout::{Layout, Placement};
pub use messages::LineEnding;
pub use unbind::{Frontend, WinMediaUnbind};
