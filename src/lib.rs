// Streaming and format emulation for image-capture devices: the pixel and image
// format model, copy-on-write images, the pull-based stream contract with its
// format-emulating decorator, and the single-slot buffer that hands frames from a
// native capture callback to the pulling side.

use vstd::prelude::*;

pub mod convert;
pub mod format;
pub mod handoff;
pub mod image;
pub mod stream;

verus! {

} // verus!
