//! Descriptions of the surfaces the pipeline works with.

use crate::geometry::{ClipRegion, ContentSize};
use vstd::prelude::*;

verus! {

/// Format code of 8-bit BGRA, unsigned normalized: the format of every frame
/// pool.
pub const B8G8R8A8_UINT_NORMALIZED: u32 = 87;

/// Number of surfaces a frame pool keeps.
pub const FRAME_POOL_DEPTH: i32 = 1;

/// A pixel format, by its platform code.
#[derive(Clone, Copy, Debug, PartialEq, Eq, Structural)]
pub struct PixelFormat {
    pub code: u32,
}

/// The pool of composited surfaces that the platform keeps for a session.
#[derive(Clone, Copy, Debug, PartialEq, Eq, Structural)]
pub struct FramePool {
    pub format: PixelFormat,
    pub depth: i32,
    pub size: ContentSize,
}

impl FramePool {
    /// The pool for surfaces of the given size: one surface deep, 8-bit BGRA.
    pub open spec fn spec_sized(size: ContentSize) -> FramePool {
        FramePool {
            format: PixelFormat { code: B8G8R8A8_UINT_NORMALIZED },
            depth: FRAME_POOL_DEPTH,
            size,
        }
    }

    /// The pool for surfaces of the given size: one surface deep, 8-bit BGRA.
    #[verifier::when_used_as_spec(spec_sized)]
    pub fn sized(size: ContentSize) -> (pool: FramePool)
        ensures
            pool == Self::sized(size),
    {
        FramePool {
            format: PixelFormat { code: B8G8R8A8_UINT_NORMALIZED },
            depth: FRAME_POOL_DEPTH,
            size,
        }
    }
}

/// The subscription to a source's composited output.
#[derive(Clone, Copy, Debug, PartialEq, Eq, Structural)]
pub struct CaptureSession {
    pub target_size: ContentSize,
    pub cursor_capture: bool,
}

/// The CPU-readable texture into which frames are copied.
#[derive(Clone, Copy, Debug, PartialEq, Eq, Structural)]
pub struct StagingTexture {
    pub width: u32,
    pub height: u32,
    pub format: PixelFormat,
}

impl StagingTexture {
    /// The texture that holds exactly the clip region, in the given format.
    pub open spec fn spec_covering(region: ClipRegion, format: PixelFormat) -> StagingTexture {
        StagingTexture { width: region.width(), height: region.height(), format }
    }

    /// The texture that holds exactly the clip region, in the given format.
    #[verifier::when_used_as_spec(spec_covering)]
    pub fn covering(region: ClipRegion, format: PixelFormat) -> (texture: StagingTexture)
        ensures
            texture == Self::covering(region, format),
    {
        StagingTexture { width: region.width(), height: region.height(), format }
    }
}

/// Where the staging texture was mapped into memory, and its layout there.
#[derive(Clone, Copy, Debug, PartialEq, Eq, Structural)]
pub struct MappedSubresource {
    pub data: usize,
    pub row_pitch: u32,
    pub depth_pitch: u32,
}

} // verus!
