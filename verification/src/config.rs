use vstd::prelude::*;

use crate::environment::Environment;
use crate::error::ContextError;

verus! {

/// The divisor of the downscaling policy: every resize request is applied at
/// one sixteenth of the requested size in each dimension, so the render
/// target is deliberately smaller than the displayed element.
pub const RESIZE_DOWNSCALE: u32 = 16;

/// Frames the presentation engine may queue ahead.
pub const DESIRED_MAXIMUM_FRAME_LATENCY: u32 = 2;

/// Presentation configuration as plain data. The format, present mode and
/// alpha mode are indices into the capability lists the surface reported;
/// initialization selects the first entry of each list.
#[derive(Clone, Copy, Debug, PartialEq, Eq, Structural)]
pub struct ScreenConfig {
    pub width: u32,
    pub height: u32,
    pub format_index: usize,
    pub present_mode_index: usize,
    pub alpha_mode_index: usize,
    pub desired_maximum_frame_latency: u32,
}

/// Initial surface dimensions from the window's reported physical size: a
/// browser host clamps to at least 1x1, because a not-yet-laid-out canvas
/// may report a zero size.
pub open spec fn spec_initial_dims(env: Environment, w: u32, h: u32) -> (u32, u32) {
    if env == Environment::Web {
        (if w == 0 { 1u32 } else { w }, if h == 0 { 1u32 } else { h })
    } else {
        (w, h)
    }
}

pub fn initial_dims(env: Environment, width: u32, height: u32) -> (r: (u32, u32))
    ensures
        r == spec_initial_dims(env, width, height),
        env == Environment::Web ==> r.0 >= 1 && r.1 >= 1,
{
    match env {
        Environment::Web => (
            if width == 0 { 1 } else { width },
            if height == 0 { 1 } else { height },
        ),
        Environment::Native => (width, height),
    }
}

/// Decides the initial presentation configuration from plain inputs: the
/// environment, the window's reported physical size, the device's maximum
/// texture size per side (`max_extent`), and the lengths of the format /
/// present-mode / alpha-mode lists the surface capabilities reported.
///
/// An empty capability list means the adapter does not actually support the
/// surface, reported as `NoCompatibleAdapter`. A zero dimension that the
/// environment does not clamp away (possible only on a native host), or a
/// dimension above `max_extent`, cannot be configured and is reported as
/// `SurfaceReconfigurationFailed`.
pub fn build_config(
    env: Environment,
    width: u32,
    height: u32,
    max_extent: u32,
    format_count: usize,
    present_mode_count: usize,
    alpha_mode_count: usize,
) -> (r: Result<ScreenConfig, ContextError>)
    ensures
        (format_count == 0 || present_mode_count == 0 || alpha_mode_count == 0) ==> r == Err::<
            ScreenConfig,
            ContextError,
        >(ContextError::NoCompatibleAdapter),
        (format_count > 0 && present_mode_count > 0 && alpha_mode_count > 0) ==> {
            let dims = spec_initial_dims(env, width, height);
            if dims.0 >= 1 && dims.1 >= 1 && dims.0 <= max_extent && dims.1 <= max_extent {
                r == Ok::<ScreenConfig, ContextError>(
                    ScreenConfig {
                        width: dims.0,
                        height: dims.1,
                        format_index: 0,
                        present_mode_index: 0,
                        alpha_mode_index: 0,
                        desired_maximum_frame_latency: DESIRED_MAXIMUM_FRAME_LATENCY,
                    },
                )
            } else {
                r == Err::<ScreenConfig, ContextError>(ContextError::SurfaceReconfigurationFailed)
            }
        },
        r matches Ok(c) ==> c.width >= 1 && c.height >= 1 && c.width <= max_extent && c.height
            <= max_extent,
        (env == Environment::Web && format_count > 0 && present_mode_count > 0 && alpha_mode_count
            > 0 && spec_initial_dims(env, width, height).0 <= max_extent && spec_initial_dims(
            env,
            width,
            height,
        ).1 <= max_extent) ==> r is Ok,
{
    if format_count == 0 || present_mode_count == 0 || alpha_mode_count == 0 {
        return Err(ContextError::NoCompatibleAdapter);
    }
    let (w, h) = initial_dims(env, width, height);
    if w == 0 || h == 0 || w > max_extent || h > max_extent {
        return Err(ContextError::SurfaceReconfigurationFailed);
    }
    Ok(
        ScreenConfig {
            width: w,
            height: h,
            format_index: 0,
            present_mode_index: 0,
            alpha_mode_index: 0,
            desired_maximum_frame_latency: DESIRED_MAXIMUM_FRAME_LATENCY,
        },
    )
}

/// The downscaled render resolution for a resize request.
pub open spec fn spec_resize_dims(w: u32, h: u32) -> (u32, u32) {
    (w / RESIZE_DOWNSCALE, h / RESIZE_DOWNSCALE)
}

/// Whether a resize request can be applied against a device whose maximum
/// texture size per side is `max_extent`: both downscaled dimensions must
/// lie between 1 and that ceiling, or the surface cannot be configured.
pub open spec fn spec_resize_applies(w: u32, h: u32, max_extent: u32) -> bool {
    &&& w / RESIZE_DOWNSCALE >= 1
    &&& h / RESIZE_DOWNSCALE >= 1
    &&& w / RESIZE_DOWNSCALE <= max_extent
    &&& h / RESIZE_DOWNSCALE <= max_extent
}

/// What a resize request does to the configuration: the downscaled size is
/// applied when it can be configured (see `spec_resize_applies`); a request
/// whose downscaled size would have a zero dimension, or one above the
/// device's texture ceiling, is refused and leaves the configuration
/// unchanged.
pub open spec fn spec_config_resized(c: ScreenConfig, w: u32, h: u32, max_extent: u32) -> ScreenConfig {
    if spec_resize_applies(w, h, max_extent) {
        ScreenConfig { width: w / RESIZE_DOWNSCALE, height: h / RESIZE_DOWNSCALE, ..c }
    } else {
        c
    }
}

/// Apply a resize request to the configuration. Returns whether the request
/// was applied; a refused request (downscaled size with a zero dimension,
/// or above the device's texture ceiling `max_extent`) leaves the
/// configuration untouched.
pub fn resize_config(c: &mut ScreenConfig, width: u32, height: u32, max_extent: u32) -> (applied:
    bool)
    ensures
        applied == spec_resize_applies(width, height, max_extent),
        *final(c) == spec_config_resized(*old(c), width, height, max_extent),
        applied ==> final(c).width == width / RESIZE_DOWNSCALE && final(c).height == height
            / RESIZE_DOWNSCALE,
        !applied ==> *final(c) == *old(c),
{
    let w = width / RESIZE_DOWNSCALE;
    let h = height / RESIZE_DOWNSCALE;
    if w >= 1 && h >= 1 && w <= max_extent && h <= max_extent {
        c.width = w;
        c.height = h;
        true
    } else {
        false
    }
}

} // verus!
