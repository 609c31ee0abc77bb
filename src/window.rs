use vstd::prelude::*;

verus! {

/// Title of the application window.
pub const WINDOW_TITLE: &'static str = "TerraModulus";

/// Smallest width, in pixels, that the window may take; also its width at
/// creation.
pub const MIN_WIDTH: u32 = 800;

/// Smallest height, in pixels, that the window may take; also its height
/// at creation.
pub const MIN_HEIGHT: u32 = 480;

} // verus!
