//! Swapchain parameter negotiation.
//!
//! Given the surface formats, present modes and surface capabilities the
//! driver reports for the selected accelerator, these functions choose the
//! pixel format, the present mode, the extent and the image count. Every
//! choice is a pure function of the reported values; none of them can fail.

use vstd::prelude::*;

verus! {

/// Pixel format `VK_FORMAT_R8G8B8A8_SRGB` of the Vulkan registry.
pub const FORMAT_R8G8B8A8_SRGB: i32 = 43;

/// Color space `VK_COLOR_SPACE_SRGB_NONLINEAR_KHR` of the Vulkan registry.
pub const COLOR_SPACE_SRGB_NONLINEAR: i32 = 0;

/// Present mode `VK_PRESENT_MODE_MAILBOX_KHR`: low latency without tearing.
pub const PRESENT_MODE_MAILBOX: i32 = 1;

/// Present mode `VK_PRESENT_MODE_FIFO_KHR`: blocking, and the one mode every
/// surface supports.
pub const PRESENT_MODE_FIFO: i32 = 2;

/// One surface format the driver offers: a pixel encoding and a color
/// space, both as the Vulkan registry's raw values.
#[derive(Clone, Copy, Debug, PartialEq, Eq, Structural)]
pub struct SurfaceFormat {
    pub format: i32,
    pub color_space: i32,
}

/// A width and height in pixels.
#[derive(Clone, Copy, Debug, PartialEq, Eq, Structural)]
pub struct Extent2D {
    pub width: u32,
    pub height: u32,
}

/// The surface capabilities the driver reports for one accelerator and
/// surface: the current extent and its bounds, the image count bounds
/// (`max_image_count` zero meaning "no limit"), and the current transform
/// as the Vulkan registry's raw value.
#[derive(Clone, Copy, Debug, PartialEq, Eq, Structural)]
pub struct SurfaceCapabilities {
    pub current_extent: Extent2D,
    pub min_image_extent: Extent2D,
    pub max_image_extent: Extent2D,
    pub min_image_count: u32,
    pub max_image_count: u32,
    pub current_transform: u32,
}

/// The negotiated swapchain parameters. Derived once per surface and device
/// pair; recomputed, never mutated, when the surface changes.
#[derive(Clone, Copy, Debug, PartialEq, Eq, Structural)]
pub struct SwapchainConfig {
    pub format: SurfaceFormat,
    pub present_mode: i32,
    pub extent: Extent2D,
    pub min_image_count: u32,
    pub surface_transform: u32,
}

/// Whether `f` is the preferred format and color-space pair.
pub open spec fn spec_is_preferred(f: SurfaceFormat) -> bool {
    f.format == FORMAT_R8G8B8A8_SRGB && f.color_space == COLOR_SPACE_SRGB_NONLINEAR
}

/// Whether the preferred pair occurs anywhere in `formats`.
pub open spec fn spec_has_preferred(formats: Seq<SurfaceFormat>) -> bool {
    exists|i: int| 0 <= i < formats.len() && spec_is_preferred(#[trigger] formats[i])
}

/// `v` clamped into `[lo, hi]`, the lower bound winning when the bounds
/// cross.
pub open spec fn spec_clamp(v: u32, lo: u32, hi: u32) -> u32 {
    if v < lo {
        lo
    } else if v > hi {
        hi
    } else {
        v
    }
}

/// One more image than the surface's minimum, clamped down to the surface's
/// maximum when it declares one (zero meaning "no limit").
pub open spec fn spec_image_count(min_image_count: u32, max_image_count: u32) -> int {
    if max_image_count > 0 && min_image_count + 1 > max_image_count {
        max_image_count as int
    } else {
        min_image_count + 1
    }
}

/// Chooses the preferred format and color-space pair if the surface offers
/// it anywhere in its list; otherwise falls back to the first listed
/// format. Never fails on a non-empty list.
pub fn choose_format(formats: &Vec<SurfaceFormat>) -> (r: SurfaceFormat)
    requires
        formats@.len() > 0,
    ensures
        spec_has_preferred(formats@) ==> r == (SurfaceFormat {
            format: FORMAT_R8G8B8A8_SRGB,
            color_space: COLOR_SPACE_SRGB_NONLINEAR,
        }),
        !spec_has_preferred(formats@) ==> r == formats@[0],
{
    let mut i: usize = 0;
    while i < formats.len()
        invariant
            i <= formats.len(),
            formats@.len() > 0,
            forall|k: int| 0 <= k < i ==> !spec_is_preferred(#[trigger] formats@[k]),
        decreases formats.len() - i,
    {
        let f = formats[i];
        if f.format == FORMAT_R8G8B8A8_SRGB && f.color_space == COLOR_SPACE_SRGB_NONLINEAR {
            return f;
        }
        i += 1;
    }
    formats[0]
}

/// Chooses the low-latency mailbox mode if the surface offers it; otherwise
/// falls back to the universally supported blocking FIFO mode. Never fails.
pub fn choose_present_mode(present_modes: &Vec<i32>) -> (r: i32)
    ensures
        present_modes@.contains(PRESENT_MODE_MAILBOX) ==> r == PRESENT_MODE_MAILBOX,
        !present_modes@.contains(PRESENT_MODE_MAILBOX) ==> r == PRESENT_MODE_FIFO,
{
    let mut i: usize = 0;
    while i < present_modes.len()
        invariant
            i <= present_modes.len(),
            forall|k: int| 0 <= k < i ==> #[trigger] present_modes@[k] != PRESENT_MODE_MAILBOX,
        decreases present_modes.len() - i,
    {
        if present_modes[i] == PRESENT_MODE_MAILBOX {
            return PRESENT_MODE_MAILBOX;
        }
        i += 1;
    }
    PRESENT_MODE_FIFO
}

/// Clamps an extent to the surface's bounds, each axis independently.
///
/// A fixed current extent already lies within the reported bounds, so it
/// passes through unchanged; the driver's "size not yet fixed" sentinel is
/// pulled into range.
pub fn clamp_extent(extent: &Extent2D, min_extent: &Extent2D, max_extent: &Extent2D) -> (r:
    Extent2D)
    ensures
        r.width == spec_clamp(extent.width, min_extent.width, max_extent.width),
        r.height == spec_clamp(extent.height, min_extent.height, max_extent.height),
{
    let mut width = extent.width;
    let mut height = extent.height;

    if width < min_extent.width {
        width = min_extent.width;
    } else if width > max_extent.width {
        width = max_extent.width;
    }

    if height < min_extent.height {
        height = min_extent.height;
    } else if height > max_extent.height {
        height = max_extent.height;
    }

    Extent2D { width, height }
}

/// One more image than the surface's minimum, clamped down to the surface's
/// maximum when it declares one.
pub fn image_count(min_image_count: u32, max_image_count: u32) -> (r: u32)
    requires
        min_image_count < u32::MAX,
    ensures
        r == spec_image_count(min_image_count, max_image_count),
{
    let count = min_image_count + 1;
    if max_image_count > 0 && count > max_image_count {
        max_image_count
    } else {
        count
    }
}

impl SwapchainConfig {
    /// Negotiates all swapchain parameters for one accelerator and surface
    /// from the driver's reported formats, present modes and capabilities.
    pub fn negotiate(
        formats: &Vec<SurfaceFormat>,
        present_modes: &Vec<i32>,
        capabilities: &SurfaceCapabilities,
    ) -> (r: SwapchainConfig)
        requires
            formats@.len() > 0,
            capabilities.min_image_count < u32::MAX,
        ensures
            spec_has_preferred(formats@) ==> r.format == (SurfaceFormat {
                format: FORMAT_R8G8B8A8_SRGB,
                color_space: COLOR_SPACE_SRGB_NONLINEAR,
            }),
            !spec_has_preferred(formats@) ==> r.format == formats@[0],
            present_modes@.contains(PRESENT_MODE_MAILBOX) ==> r.present_mode
                == PRESENT_MODE_MAILBOX,
            !present_modes@.contains(PRESENT_MODE_MAILBOX) ==> r.present_mode == PRESENT_MODE_FIFO,
            r.extent.width == spec_clamp(
                capabilities.current_extent.width,
                capabilities.min_image_extent.width,
                capabilities.max_image_extent.width,
            ),
            r.extent.height == spec_clamp(
                capabilities.current_extent.height,
                capabilities.min_image_extent.height,
                capabilities.max_image_extent.height,
            ),
            r.min_image_count == spec_image_count(
                capabilities.min_image_count,
                capabilities.max_image_count,
            ),
            r.surface_transform == capabilities.current_transform,
    {
        let format = choose_format(formats);
        let present_mode = choose_present_mode(present_modes);
        let extent = clamp_extent(
            &capabilities.current_extent,
            &capabilities.min_image_extent,
            &capabilities.max_image_extent,
        );
        let min_image_count = image_count(
            capabilities.min_image_count,
            capabilities.max_image_count,
        );

        SwapchainConfig {
            format,
            present_mode,
            extent,
            min_image_count,
            surface_transform: capabilities.current_transform,
        }
    }
}

} // verus!
