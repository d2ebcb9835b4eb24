//! The surface the codec renders into, and the copy that moves a presented
//! frame from that surface into one slice of the caller's texture array.

use vstd::prelude::*;
use crate::options::{dimension_of, platform_dimension};

verus! {

/// Number of images the surface holds: one in flight while one is consumed.
pub const SURFACE_IMAGE_COUNT: i32 = 2;

/// Pixel layout of a surface.
#[derive(Clone, Copy, Debug, PartialEq, Eq, Structural)]
pub enum SurfaceFormat {
    /// Four bytes per pixel: red, green, blue, and one unused byte.
    Rgbx8888,
}

/// What the images of a surface are allocated for.
#[derive(Clone, Copy, Debug, PartialEq, Eq, Structural)]
pub enum SurfaceUsage {
    /// The graphics processor samples them as textures.
    GpuSampledImage,
}

/// Description of the image surface between codec and graphics context.
/// Only its pixel dimensions vary from session to session.
#[derive(Clone, Copy, Debug, PartialEq, Eq, Structural)]
pub struct FrameSurfaceBridge {
    pub width: i32,
    pub height: i32,
    pub format: SurfaceFormat,
    pub usage: SurfaceUsage,
    pub max_images: i32,
}

impl FrameSurfaceBridge {
    /// The fixed layout of every surface: double buffered, RGBX, sampled by
    /// the graphics processor.
    pub open spec fn wf(self) -> bool {
        &&& self.format == SurfaceFormat::Rgbx8888
        &&& self.usage == SurfaceUsage::GpuSampledImage
        &&& self.max_images == SURFACE_IMAGE_COUNT
    }

    /// Describes the surface for frames of the given size.
    pub fn new(width: u32, height: u32) -> (bridge: FrameSurfaceBridge)
        ensures
            bridge == bridge_of((width, height)),
            bridge.wf(),
    {
        FrameSurfaceBridge {
            width: platform_dimension(width),
            height: platform_dimension(height),
            format: SurfaceFormat::Rgbx8888,
            usage: SurfaceUsage::GpuSampledImage,
            max_images: SURFACE_IMAGE_COUNT,
        }
    }
}

/// The surface of a session that decodes frames of `video_size`.
pub open spec fn bridge_of(video_size: (u32, u32)) -> FrameSurfaceBridge {
    FrameSurfaceBridge {
        width: dimension_of(video_size.0),
        height: dimension_of(video_size.1),
        format: SurfaceFormat::Rgbx8888,
        usage: SurfaceUsage::GpuSampledImage,
        max_images: SURFACE_IMAGE_COUNT,
    }
}

/// A texel position in a texture; `z` is the slice of a texture array.
#[derive(Clone, Copy, Debug, PartialEq, Eq, Structural)]
pub struct Origin3d {
    pub x: u32,
    pub y: u32,
    pub z: u32,
}

/// The size of a copied region.
#[derive(Clone, Copy, Debug, PartialEq, Eq, Structural)]
pub struct Extent3d {
    pub width: u32,
    pub height: u32,
    pub depth_or_array_layers: u32,
}

/// The aspects of a texture that a copy touches.
#[derive(Clone, Copy, Debug, PartialEq, Eq, Structural)]
pub enum TextureAspect {
    All,
}

/// One end of a texture copy; the texture itself stays with the caller.
#[derive(Clone, Copy, Debug, PartialEq, Eq, Structural)]
pub struct CopyEndpoint {
    pub mip_level: u32,
    pub origin: Origin3d,
    pub aspect: TextureAspect,
}

/// A copy from the frame presented on the surface into the caller's texture.
#[derive(Clone, Copy, Debug, PartialEq, Eq, Structural)]
pub struct TextureCopy {
    pub source: CopyEndpoint,
    pub destination: CopyEndpoint,
    pub extent: Extent3d,
}

/// The copy that fills slice `slice_index` with a frame of `video_size`: the
/// whole frame from the origin of the surface texture, one layer deep, at mip
/// level zero on both ends.
pub open spec fn frame_copy(video_size: (u32, u32), slice_index: u32) -> TextureCopy {
    TextureCopy {
        source: CopyEndpoint {
            mip_level: 0,
            origin: Origin3d { x: 0, y: 0, z: 0 },
            aspect: TextureAspect::All,
        },
        destination: CopyEndpoint {
            mip_level: 0,
            origin: Origin3d { x: 0, y: 0, z: slice_index },
            aspect: TextureAspect::All,
        },
        extent: Extent3d { width: video_size.0, height: video_size.1, depth_or_array_layers: 1 },
    }
}

impl TextureCopy {
    /// Plans the copy of one decoded frame into a slice of the caller's
    /// texture array.
    pub fn new(video_size: (u32, u32), slice_index: u32) -> (copy: TextureCopy)
        ensures
            copy == frame_copy(video_size, slice_index),
    {
        TextureCopy {
            source: CopyEndpoint {
                mip_level: 0,
                origin: Origin3d { x: 0, y: 0, z: 0 },
                aspect: TextureAspect::All,
            },
            destination: CopyEndpoint {
                mip_level: 0,
                origin: Origin3d { x: 0, y: 0, z: slice_index },
                aspect: TextureAspect::All,
            },
            extent: Extent3d {
                width: video_size.0,
                height: video_size.1,
                depth_or_array_layers: 1,
            },
        }
    }
}

} // verus!
