//! The core of a real-time mesh rendering engine: meshes with per-instance
//! similarity transforms, a camera and a single orbiting light backed by
//! uniform-buffer state, and a renderer that records one frame of draw
//! commands at a time.
//!
//! Every single-precision value is carried as its raw 32-bit pattern; the
//! floating-point work itself is done by ultraviolet behind the trusted
//! wrappers in `math`. What is proved is everything around those values:
//! when construction and resizing succeed, that the uniform buffers always
//! hold the last value written, that instance order is the draw order, that
//! recorded frames read only current-generation render targets, and that
//! the light's animation depends only on total elapsed time.
//!
//! The host (window, device, file parsing, submission) lives outside this
//! crate and drives it through plain values.

use vstd::prelude::*;

pub mod math;
pub mod renderer;
pub mod mesh;
pub mod transform;

verus! {

/// Errors reported by the rendering core.
///
/// Configuration errors (degenerate geometry, zero-area render targets) are
/// rejected at the call that would create the invalid resource; index-range
/// errors are reported to the caller, never swallowed.
#[derive(Clone, Copy, Debug, PartialEq, Eq, Structural)]
pub enum RenderError {
    /// A mesh was created from an empty vertex list.
    EmptyVertexList,
    /// A mesh was created from an empty index list.
    EmptyIndexList,
    /// A render target with zero width or zero height was requested.
    ZeroScreenExtent,
    /// An instance index outside `[0, instance_count)` was used.
    InstanceIndexOutOfRange,
}

} // verus!
