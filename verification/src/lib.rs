//! A minimal, thread-safe, single-line terminal progress bar.
//!
//! The crate renders a continuously updating progress line for long-running
//! command-line operations.  The mutable progress state, the rendering
//! algorithm, the finalize-once lifecycle and the cleanup-on-release protocol
//! are all verified; the byte sink the renderer writes to and the
//! terminal-mode probe are external collaborators reached through a small
//! number of trusted wrappers.

pub mod bar;
pub mod render;
pub mod sink;
pub mod state;
pub mod text;

pub use bar::ProgressBar;
pub use bar::ProgressBarBuilder;
pub use sink::sink_from_writer;
pub use sink::ByteSink;
