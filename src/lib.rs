//! Multimodal user interface core: driver capability negotiation, event
//! translation, drawable composition and render-surface state.

pub mod util;
pub mod error;
pub mod capability;
pub mod keyboard;
pub mod events;
pub mod ordered;
pub mod composition;
pub mod canvas;
pub mod glenum;
pub mod program;
pub mod display;
pub mod window;
pub mod scaling;
