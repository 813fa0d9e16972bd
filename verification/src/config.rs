//! The plain-valued parts of a scene description: render dimensions and
//! the background.  Parsing the declarative scene file, and the
//! floating-point camera, object and material entries it holds, are the
//! loader's business; they reach the renderer only as the typed
//! structures the library defines.

use vstd::prelude::*;

verus! {

/// Output shape and sampling parameters of a render.
pub struct RenderConfig {
    pub width: u32,
    pub height: u32,
    pub max_depth: u32,
    pub antialiasing: u32,
    pub output_file: String,
}

/// The background of a scene, as an 8-bit RGB triple.
#[derive(Clone, Copy, Debug)]
pub struct BackgroundConfig {
    pub color: [u8; 3],
}

} // verus!
