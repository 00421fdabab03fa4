//! Presentation parameters, rectangles and window attributes

use vstd::prelude::*;
use crate::enums::{DepthFormat, DisplayOrientation, PresentInterval, RenderTargetUsage, SurfaceFormat};
use crate::handles::WindowHandle;

verus! {

/// Bit flags for creating the OS window (SDL window flags)
#[derive(Debug, Clone, Copy, PartialEq, Eq, Structural)]
pub struct SdlWindowFlags(pub u32);

/// Rectangle in pixels, used for scissor boxes
#[derive(Debug, Clone, Copy, PartialEq, Eq, Structural)]
pub struct Rect {
    pub x: i32,
    pub y: i32,
    pub w: i32,
    pub h: i32,
}

/// View bounds for the render target surface; depths are held as `f32` bit patterns
#[derive(Debug, Clone, Copy, PartialEq, Eq, Structural)]
pub struct Viewport {
    pub x: i32,
    pub y: i32,
    pub w: i32,
    pub h: i32,
    pub min_depth_bits: u32,
    pub max_depth_bits: u32,
}

/// Device and backbuffer settings
#[derive(Debug, Clone, Copy, PartialEq, Eq, Structural)]
pub struct PresentationParameters {
    pub back_buffer_width: i32,
    pub back_buffer_height: i32,
    pub back_buffer_format: u32,
    pub multi_sample_count: i32,
    pub device_window_handle: WindowHandle,
    pub is_full_screen: u8,
    pub depth_stencil_format: u32,
    pub presentation_interval: u32,
    pub display_orientation: u32,
    pub render_target_usage: u32,
}

/// The FNA3D values the presentation parameters are made of: a color backbuffer (0), a 24-bit
/// depth buffer with 8 stencil bits (3), the default present interval (0) and orientation (0),
/// and render target contents discarded (0) or left to the platform (2)
pub proof fn lemma_parameter_values()
    ensures
        SurfaceFormat::Color.code() == 0,
        DepthFormat::D24S8.code() == 3,
        PresentInterval::Default.code() == 0,
        DisplayOrientation::Defaut.code() == 0,
        RenderTargetUsage::DiscardContents.code() == 0,
        RenderTargetUsage::PlatformContents.code() == 2,
{
    SurfaceFormat::lemma_values();
    DepthFormat::lemma_values();
    PresentInterval::lemma_values();
    DisplayOrientation::lemma_values();
    RenderTargetUsage::lemma_values();
}

/// Default parameters for a window whose drawable area has the given size: color backbuffer of
/// that size (each side read as a signed 32-bit value), no multisampling, windowed, D24S8
/// depth/stencil, default interval and orientation, contents discarded
pub fn default_params_from_window_handle(
    window_handle: WindowHandle,
    drawable_size: (u32, u32),
) -> (r: PresentationParameters)
    ensures
        r == (PresentationParameters {
            back_buffer_width: drawable_size.0 as i32,
            back_buffer_height: drawable_size.1 as i32,
            back_buffer_format: SurfaceFormat::Color.code(),
            multi_sample_count: 0,
            device_window_handle: window_handle,
            is_full_screen: 0,
            depth_stencil_format: DepthFormat::D24S8.code(),
            presentation_interval: PresentInterval::Default.code(),
            display_orientation: DisplayOrientation::Defaut.code(),
            render_target_usage: RenderTargetUsage::DiscardContents.code(),
        }),
        r.back_buffer_format == 0 && r.depth_stencil_format == 3,
        r.presentation_interval == 0 && r.display_orientation == 0,
        r.render_target_usage == 0,
{
    proof {
        lemma_parameter_values();
    }
    let (w, h) = drawable_size;
    PresentationParameters {
        back_buffer_width: w as i32,
        back_buffer_height: h as i32,
        back_buffer_format: SurfaceFormat::Color.to_u32(),
        multi_sample_count: 0,
        device_window_handle: window_handle,
        is_full_screen: 0,
        depth_stencil_format: DepthFormat::D24S8.to_u32(),
        presentation_interval: PresentInterval::Default.to_u32(),
        display_orientation: DisplayOrientation::Defaut.to_u32(),
        render_target_usage: RenderTargetUsage::DiscardContents.to_u32(),
    }
}

/// Parameters for a 1280x720 window: color backbuffer, multisample count 1, windowed, D24S8
/// depth/stencil, default interval and orientation, platform contents
pub fn params_from_window_handle(handle: WindowHandle) -> (r: PresentationParameters)
    ensures
        r == (PresentationParameters {
            back_buffer_width: 1280,
            back_buffer_height: 720,
            back_buffer_format: SurfaceFormat::Color.code(),
            multi_sample_count: 1,
            device_window_handle: handle,
            is_full_screen: 0,
            depth_stencil_format: DepthFormat::D24S8.code(),
            presentation_interval: PresentInterval::Default.code(),
            display_orientation: DisplayOrientation::Defaut.code(),
            render_target_usage: RenderTargetUsage::PlatformContents.code(),
        }),
        r.back_buffer_format == 0 && r.depth_stencil_format == 3,
        r.presentation_interval == 0 && r.display_orientation == 0,
        r.render_target_usage == 2,
{
    proof {
        lemma_parameter_values();
    }
    PresentationParameters {
        back_buffer_width: 1280,
        back_buffer_height: 720,
        back_buffer_format: SurfaceFormat::Color.to_u32(),
        multi_sample_count: 1,
        device_window_handle: handle,
        is_full_screen: 0,
        depth_stencil_format: DepthFormat::D24S8.to_u32(),
        presentation_interval: PresentInterval::Default.to_u32(),
        display_orientation: DisplayOrientation::Defaut.to_u32(),
        render_target_usage: RenderTargetUsage::PlatformContents.to_u32(),
    }
}

} // verus!
