//! Safe, verified core of a callback-marshaling adapter for a native
//! immediate-mode hex/memory-editor widget.
//!
//! The widget itself (rendering, input, layout) is an external collaborator
//! reached through a C-compatible call surface owned by the embedding
//! application. This crate holds everything on this side of that surface
//! that can be reasoned about: the configuration record and its builder,
//! the draw-time validation of callback invariants, the decision which
//! trampoline slots to install, and the forwarding logic the trampolines
//! perform. The raw-pointer type erasure and the foreign calls themselves
//! live with the host, which drives this core.

pub mod config;
pub mod memory_editor;

pub use config::EditorConfig;
pub use memory_editor::DrawCall;
pub use memory_editor::MemoryEditor;
