//! Layout and navigation coordinator of a two-pane browser shell.
//!
//! A single window hosts a fixed-height toolbar surface above a content
//! surface. This crate holds the decisions of that shell: the geometry of
//! the two panes, the navigation state, the decoding of messages that the
//! toolbar posts, the script that reflects the current location back into
//! the toolbar, and the state machine that ties them together. Windows,
//! surfaces and the event loop are left to the embedding program.

pub mod geometry;
pub mod text;
pub mod navigation;
pub mod script;
pub mod bridge;
pub mod coordinator;
