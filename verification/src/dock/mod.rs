//! The interactive renderer: messages, frame pacing and the scene.

pub mod config;
pub mod dock;
pub mod render;

use vstd::prelude::*;

verus! {

/// What the window thread tells the render thread.
#[derive(Clone, Copy, Debug, PartialEq, Eq, Structural)]
pub enum DockMessage {
    TEST,
}

/// Why the renderer did not do what was asked.
#[derive(Clone, Copy, Debug, PartialEq, Eq, Structural)]
pub enum DockErr {
    /// The frame was dropped; the next request may succeed.
    SOFT,
}

} // verus!
