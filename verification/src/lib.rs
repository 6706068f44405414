//! Core logic of a terminal client for social-preview (Open Graph) metadata:
//! the shared session state and its editing transitions, the URL normalizer,
//! the meta-tag extraction that turns a fetched document into a metadata
//! record, the image-to-terminal-cell renderer, and the coalescing redraw
//! signal. Network transfers and terminal painting live outside this crate;
//! they hand plain values in and take plain values back.

pub mod meta;
pub mod pixel;
pub mod render;
pub mod session;
pub mod signal;
