//! The trusted boundary to the GPU backend and the windowing host.
//!
//! Every function here is `external_body`: its body makes one outside call
//! (plus argument/result conversion), and its contract is what the rest of
//! the library relies on. Handles such as the instance, surface, adapter,
//! device and queue are opaque; everything the library reasons about is
//! passed in and out as plain values.

use vstd::prelude::*;

use pollster::FutureExt;

use crate::config::ScreenConfig;
use crate::environment::{BackendSet, MemoryHint, PowerPreference};

verus! {

#[verifier::external_type_specification]
#[verifier::external_body]
pub struct ExInstance(wgpu::Instance);

#[verifier::external_type_specification]
#[verifier::external_body]
pub struct ExSurface<'window>(wgpu::Surface<'window>);

#[verifier::external_type_specification]
#[verifier::external_body]
pub struct ExAdapter(wgpu::Adapter);

#[verifier::external_type_specification]
#[verifier::external_body]
pub struct ExDevice(wgpu::Device);

#[verifier::external_type_specification]
#[verifier::external_body]
pub struct ExQueue(wgpu::Queue);

#[verifier::external_type_specification]
#[verifier::external_body]
pub struct ExTextureFormat(wgpu::TextureFormat);

#[verifier::external_type_specification]
#[verifier::external_body]
pub struct ExPresentMode(wgpu::PresentMode);

#[verifier::external_type_specification]
#[verifier::external_body]
pub struct ExCompositeAlphaMode(wgpu::CompositeAlphaMode);

#[verifier::external_type_specification]
#[verifier::external_body]
pub struct ExMemoryHints(wgpu::MemoryHints);

#[verifier::external_type_specification]
#[verifier::external_body]
pub struct ExCreateSurfaceError(wgpu::CreateSurfaceError);

#[verifier::external_type_specification]
#[verifier::external_body]
pub struct ExRequestAdapterError(wgpu::RequestAdapterError);

#[verifier::external_type_specification]
#[verifier::external_body]
pub struct ExRequestDeviceError(wgpu::RequestDeviceError);

#[verifier::external_type_specification]
#[verifier::external_body]
pub struct ExWindow(winit::window::Window);

/// Relies on wgpu's `Instance::new`. The backend set is the only instance
/// option the library chooses; everything else is the backend's default.
/// `Instance::new` panics only when the build enables no backend for the
/// target platform; this crate enables the native backends, so the call
/// returns normally.
#[verifier::external_body]
pub(crate) fn new_instance(backends: BackendSet) -> (r: wgpu::Instance) {
    let backends = match backends {
        BackendSet::WebCompatible => wgpu::Backends::GL,
        BackendSet::Primary => wgpu::Backends::PRIMARY,
    };
    wgpu::Instance::new(&wgpu::InstanceDescriptor { backends, ..Default::default() })
}

/// Relies on wgpu's `Instance::create_surface`: binds a presentation
/// surface to the window, or reports why the window handle was unusable.
#[verifier::external_body]
pub(crate) fn create_surface<'a>(instance: &wgpu::Instance, window: &'a winit::window::Window) -> (r:
    Result<wgpu::Surface<'a>, wgpu::CreateSurfaceError>) {
    instance.create_surface(window)
}

/// Relies on wgpu's `Instance::request_adapter` (awaited here, once, during
/// initialization): an adapter compatible with the surface and honoring the
/// power preference, or an error when none exists. Which adapter comes back
/// depends on the machine, so nothing more is assumed of it.
#[verifier::external_body]
pub(crate) fn request_adapter(
    instance: &wgpu::Instance,
    surface: &wgpu::Surface,
    power_preference: PowerPreference,
) -> (r: Result<wgpu::Adapter, wgpu::RequestAdapterError>) {
    let power_preference = match power_preference {
        PowerPreference::NoPreference => wgpu::PowerPreference::None,
        PowerPreference::LowPower => wgpu::PowerPreference::LowPower,
        PowerPreference::HighPerformance => wgpu::PowerPreference::HighPerformance,
    };
    instance
        .request_adapter(
            &wgpu::RequestAdapterOptions {
                power_preference,
                force_fallback_adapter: false,
                compatible_surface: Some(surface),
            },
        )
        .block_on()
}

/// Relies on wgpu's `Adapter::limits` for the limits the adapter reports.
/// They depend on the machine, so nothing is assumed of them.
#[verifier::external_body]
pub(crate) fn adapter_limits(adapter: &wgpu::Adapter) -> (l: wgpu::Limits) {
    adapter.limits()
}

/// Converts the library's allocator hint into the backend's, variant for
/// variant.
#[verifier::external_body]
pub(crate) fn memory_hints_raw(hints: MemoryHint) -> (r: wgpu::MemoryHints) {
    match hints {
        MemoryHint::Performance => wgpu::MemoryHints::Performance,
        MemoryHint::MemoryUsage => wgpu::MemoryHints::MemoryUsage,
        MemoryHint::Manual { min_block_size, max_block_size } => wgpu::MemoryHints::Manual {
            suballocated_device_memory_block_size: min_block_size..max_block_size,
        },
    }
}

/// Relies on wgpu's `Adapter::request_device` (awaited here, once, during
/// initialization): a device and queue honoring exactly the requested
/// limits, with no optional features, or an error when the adapter cannot
/// satisfy the request.
#[verifier::external_body]
pub(crate) fn request_device(
    adapter: &wgpu::Adapter,
    limits: &wgpu::Limits,
    hints: wgpu::MemoryHints,
) -> (r: Result<(wgpu::Device, wgpu::Queue), wgpu::RequestDeviceError>) {
    adapter
        .request_device(
            &wgpu::DeviceDescriptor {
                label: None,
                required_features: wgpu::Features::empty(),
                required_limits: limits.clone(),
                memory_hints: hints,
                trace: wgpu::Trace::Off,
            },
        )
        .block_on()
}

/// Relies on wgpu's `Surface::get_capabilities`: the formats, present modes
/// and alpha modes the surface supports with this adapter (the first format
/// is the preferred one); the format and present-mode lists are empty when
/// the surface is incompatible with the adapter.
#[verifier::external_body]
pub(crate) fn surface_capabilities(surface: &wgpu::Surface, adapter: &wgpu::Adapter) -> (r: (
    Vec<wgpu::TextureFormat>,
    Vec<wgpu::PresentMode>,
    Vec<wgpu::CompositeAlphaMode>,
)) {
    let caps = surface.get_capabilities(adapter);
    (caps.formats, caps.present_modes, caps.alpha_modes)
}

/// Relies on wgpu's `Surface::configure`: configures the surface against
/// the device at exactly `config.width` by `config.height`, with the
/// format, present mode and alpha mode the configuration's indices select,
/// as a render-attachment target. The backend rejects a zero dimension and
/// one above the device's maximum 2D texture size; the preconditions rule
/// both out — `max_extent` must be the `max_texture_dimension_2d` the
/// device was created with.
#[verifier::external_body]
pub(crate) fn configure_surface(
    surface: &wgpu::Surface,
    device: &wgpu::Device,
    formats: &Vec<wgpu::TextureFormat>,
    present_modes: &Vec<wgpu::PresentMode>,
    alpha_modes: &Vec<wgpu::CompositeAlphaMode>,
    config: &ScreenConfig,
    max_extent: u32,
)
    requires
        config.width >= 1,
        config.height >= 1,
        config.width <= max_extent,
        config.height <= max_extent,
        config.format_index < formats@.len(),
        config.present_mode_index < present_modes@.len(),
        config.alpha_mode_index < alpha_modes@.len(),
{
    let _ = max_extent;
    surface.configure(
        device,
        &wgpu::SurfaceConfiguration {
            usage: wgpu::TextureUsages::RENDER_ATTACHMENT,
            format: formats[config.format_index],
            width: config.width,
            height: config.height,
            present_mode: present_modes[config.present_mode_index],
            desired_maximum_frame_latency: config.desired_maximum_frame_latency,
            alpha_mode: alpha_modes[config.alpha_mode_index],
            view_formats: Vec::new(),
        },
    );
}

/// Relies on winit's `Window::inner_size` for the physical size of the
/// window's content area. What the host reports is its own affair, so
/// nothing is assumed of the value.
#[verifier::external_body]
pub(crate) fn window_inner_size(window: &winit::window::Window) -> (r: (u32, u32)) {
    let size = window.inner_size();
    (size.width, size.height)
}

/// Relies on winit's `Window::request_inner_size` to ask the host to resize
/// the window's content area; the host is free to ignore the request, and
/// the library does not depend on its answer.
#[verifier::external_body]
pub(crate) fn request_window_inner_size(window: &winit::window::Window, width: u32, height: u32) {
    let _ = window.request_inner_size(winit::dpi::PhysicalSize::new(width, height));
}

} // verus!
