use vstd::prelude::*;

use crate::config::{build_config, resize_config, spec_config_resized, ScreenConfig};
use crate::config::{spec_resize_applies, DESIRED_MAXIMUM_FRAME_LATENCY};
use crate::environment::{backend_set_for, Environment, ScreenDescriptor};
use crate::error::ContextError;
use crate::gpu;
use crate::limits::negotiated_limits;
use crate::mailbox::ResizeMailbox;

verus! {

/// The observable state of a graphics context: its presentation
/// configuration, the pending resize request, if any, and the device's
/// maximum texture size per side, which bounds what can be configured.
pub ghost struct ScreenModel {
    pub config: ScreenConfig,
    pub pending: Option<(u32, u32)>,
    pub max_extent: u32,
}

/// What posting a resize event does to the observable state: the slot is
/// overwritten with the new request, the configuration untouched.
pub open spec fn spec_post(m: ScreenModel, w: u32, h: u32) -> ScreenModel {
    ScreenModel { pending: Some((w, h)), ..m }
}

/// What a direct resize does: the configuration moves to the downscaled
/// size (or stays, when that size would have a zero dimension or exceed the
/// device's texture ceiling); the mailbox is untouched.
pub open spec fn spec_resize(m: ScreenModel, w: u32, h: u32) -> ScreenModel {
    ScreenModel { config: spec_config_resized(m.config, w, h, m.max_extent), ..m }
}

/// What one poll of the mailbox does: a pending request is consumed and
/// applied as a resize; an empty mailbox leaves the state unchanged.
pub open spec fn spec_poll(m: ScreenModel) -> ScreenModel {
    match m.pending {
        Some((w, h)) => ScreenModel { pending: None, ..spec_resize(m, w, h) },
        None => m,
    }
}

/// Latest wins: two events posted before any poll coalesce, and the one
/// poll performs exactly the resize of the second event, as if the first
/// had never been posted.
pub proof fn lemma_poll_latest_wins(m: ScreenModel, w1: u32, h1: u32, w2: u32, h2: u32)
    ensures
        spec_poll(spec_post(spec_post(m, w1, h1), w2, h2)) == spec_poll(spec_post(m, w2, h2)),
        spec_poll(spec_post(m, w2, h2)).config == spec_config_resized(
            m.config,
            w2,
            h2,
            m.max_extent,
        ),
        spec_poll(spec_post(m, w2, h2)).pending is None,
{
}

/// At-most-once delivery: once a poll has consumed an event, a second
/// immediate poll with no new event changes nothing.
pub proof fn lemma_poll_at_most_once(m: ScreenModel)
    ensures
        spec_poll(spec_poll(m)) == spec_poll(m),
{
}

/// Polling an empty mailbox is a no-op: the whole observable state, the
/// configuration included, stays as it was.
pub proof fn lemma_poll_empty_no_op(m: ScreenModel)
    requires
        m.pending is None,
    ensures
        spec_poll(m) == m,
{
}

/// A graphics context bound to one window: the surface, device and queue
/// negotiated for it, the presentation configuration, and the mailbox
/// through which the host's resize notifications reach the render loop.
///
/// Created once per window and owned exclusively by the render loop. The
/// device and queue stay bound to the surface and adapter they were
/// negotiated with; no method ever rebinds them.
pub struct Screen<'a> {
    pub window: &'a winit::window::Window,
    pub surface: wgpu::Surface<'a>,
    pub device: wgpu::Device,
    pub queue: wgpu::Queue,
    /// Formats the surface supports with the adapter; the first is preferred.
    pub formats: Vec<wgpu::TextureFormat>,
    /// Present modes the surface supports with the adapter.
    pub present_modes: Vec<wgpu::PresentMode>,
    /// Alpha modes the surface supports with the adapter.
    pub alpha_modes: Vec<wgpu::CompositeAlphaMode>,
    /// The negotiated limit set the device was created with.
    pub limits: wgpu::Limits,
    pub config: ScreenConfig,
    pub mailbox: ResizeMailbox,
    pub env: Environment,
    /// The size the surface was last configured with.
    pub surface_size: Ghost<(u32, u32)>,
}

impl<'a> Screen<'a> {
    /// The observable state: the configuration, the pending request, and
    /// the device's texture ceiling.
    pub open spec fn model(self) -> ScreenModel {
        ScreenModel {
            config: self.config,
            pending: self.mailbox@,
            max_extent: self.limits.max_texture_dimension_2d,
        }
    }

    /// The window/GPU binding: everything that a resize or a mailbox
    /// operation may never rebind — the surface stays configured against
    /// the device and queue it was negotiated with, the capability lists
    /// and granted limits stay those of that negotiation, and the
    /// environment tag is fixed at creation.
    pub open spec fn same_binding(self, other: Self) -> bool {
        &&& self.window == other.window
        &&& self.surface == other.surface
        &&& self.device == other.device
        &&& self.queue == other.queue
        &&& self.formats == other.formats
        &&& self.present_modes == other.present_modes
        &&& self.alpha_modes == other.alpha_modes
        &&& self.limits == other.limits
        &&& self.env == other.env
    }

    /// Well-formedness: the configuration's indices select entries of the
    /// reported capability lists, its dimensions are at least 1 and within
    /// the device's texture ceiling (so it can always be presented), and
    /// the surface was last configured with
    /// exactly the configuration's size — a mutation of the configuration
    /// is never left visible without the matching reconfiguration.
    pub open spec fn wf(self) -> bool {
        &&& self.config.format_index < self.formats@.len()
        &&& self.config.present_mode_index < self.present_modes@.len()
        &&& self.config.alpha_mode_index < self.alpha_modes@.len()
        &&& self.config.width >= 1
        &&& self.config.height >= 1
        &&& self.config.width <= self.limits.max_texture_dimension_2d
        &&& self.config.height <= self.limits.max_texture_dimension_2d
        &&& self.surface_size@ == (self.config.width, self.config.height)
    }

    /// Build a graphics context for `window`: select the backend set for
    /// the environment, create a surface, negotiate an adapter and a device
    /// honoring the descriptor and the limit policy, pick the first
    /// reported format / present mode / alpha mode, size the surface from
    /// the window (clamped to at least 1x1 in the browser environment, and
    /// refused if above the device's texture ceiling), and configure it. The mailbox starts empty; in the browser environment
    /// the host's resize notification is expected to deliver into it via
    /// [`Self::post_resize_event`].
    ///
    /// Which step fails, if any, is decided by the machine; on success the
    /// configuration is exactly the one `build_config` decides, with the
    /// first capability entries selected and nothing pending.
    pub fn new(env: Environment, window: &'a winit::window::Window, desc: ScreenDescriptor) -> (r:
        Result<Screen<'a>, ContextError>)
        ensures
            r matches Ok(s) ==> {
                &&& s.wf()
                &&& s.env == env
                &&& s.mailbox@ is None
                &&& s.config.format_index == 0
                &&& s.config.present_mode_index == 0
                &&& s.config.alpha_mode_index == 0
                &&& s.config.desired_maximum_frame_latency == DESIRED_MAXIMUM_FRAME_LATENCY
                &&& s.config.width >= 1
                &&& s.config.height >= 1
            },
    {
        let backends = backend_set_for(env);
        let instance = gpu::new_instance(backends);
        let surface = match gpu::create_surface(&instance, window) {
            Ok(s) => s,
            Err(_) => {
                return Err(ContextError::SurfaceCreationFailed);
            },
        };
        let adapter = match gpu::request_adapter(&instance, &surface, desc.power_preference) {
            Ok(a) => a,
            Err(_) => {
                return Err(ContextError::NoCompatibleAdapter);
            },
        };
        let reported = gpu::adapter_limits(&adapter);
        let limits = negotiated_limits(env, &reported);
        let hints = gpu::memory_hints_raw(desc.memory_hints);
        let (device, queue) = match gpu::request_device(&adapter, &limits, hints) {
            Ok(dq) => dq,
            Err(_) => {
                return Err(ContextError::DeviceRequestFailed);
            },
        };
        let (formats, present_modes, alpha_modes) = gpu::surface_capabilities(&surface, &adapter);
        let (reported_width, reported_height) = gpu::window_inner_size(window);
        let config = match build_config(
            env,
            reported_width,
            reported_height,
            limits.max_texture_dimension_2d,
            formats.len(),
            present_modes.len(),
            alpha_modes.len(),
        ) {
            Ok(c) => c,
            Err(e) => {
                return Err(e);
            },
        };
        gpu::configure_surface(
            &surface,
            &device,
            &formats,
            &present_modes,
            &alpha_modes,
            &config,
            limits.max_texture_dimension_2d,
        );
        Ok(
            Screen {
                window,
                surface,
                device,
                queue,
                formats,
                present_modes,
                alpha_modes,
                limits,
                config,
                mailbox: ResizeMailbox::empty(),
                env,
                surface_size: Ghost((config.width, config.height)),
            },
        )
    }

    /// Apply a resize request: move the configuration to the downscaled
    /// size and reconfigure the surface with it before the next
    /// presentation. A request whose downscaled size would have a zero
    /// dimension, or exceed the device's texture ceiling, is refused,
    /// leaving configuration and surface as they were. In the browser
    /// environment the host is additionally asked to resize the window
    /// itself to the original (pre-division) dimensions, so the displayed
    /// element keeps the requested size while the render target stays
    /// downscaled.
    pub fn resize(&mut self, width: u32, height: u32) -> (r: Result<(), ContextError>)
        requires
            old(self).wf(),
        ensures
            final(self).wf(),
            final(self).same_binding(*old(self)),
            final(self).model() == spec_resize(old(self).model(), width, height),
            final(self).config == spec_config_resized(
                old(self).config,
                width,
                height,
                old(self).limits.max_texture_dimension_2d,
            ),
            final(self).mailbox@ == old(self).mailbox@,
            r is Ok <==> spec_resize_applies(
                width,
                height,
                old(self).limits.max_texture_dimension_2d,
            ),
            r is Ok ==> final(self).config.width == width / crate::config::RESIZE_DOWNSCALE
                && final(self).config.height == height / crate::config::RESIZE_DOWNSCALE,
            r is Err ==> r == Err::<(), ContextError>(ContextError::SurfaceReconfigurationFailed)
                && final(self).config == old(self).config,
    {
        let applied = resize_config(
            &mut self.config,
            width,
            height,
            self.limits.max_texture_dimension_2d,
        );
        if !applied {
            return Err(ContextError::SurfaceReconfigurationFailed);
        }
        gpu::configure_surface(
            &self.surface,
            &self.device,
            &self.formats,
            &self.present_modes,
            &self.alpha_modes,
            &self.config,
            self.limits.max_texture_dimension_2d,
        );
        self.surface_size = Ghost((self.config.width, self.config.height));
        match self.env {
            Environment::Web => {
                gpu::request_window_inner_size(self.window, width, height);
            },
            Environment::Native => {},
        }
        Ok(())
    }

    /// The capability handed to the host's resize notification: posts the
    /// newest size into the mailbox, overwriting any unconsumed one. The
    /// configuration is untouched until the render loop polls.
    pub fn post_resize_event(&mut self, width: u32, height: u32)
        requires
            old(self).wf(),
        ensures
            final(self).wf(),
            final(self).same_binding(*old(self)),
            final(self).model() == spec_post(old(self).model(), width, height),
            final(self).config == old(self).config,
    {
        self.mailbox.post(width, height);
    }

    /// Non-blocking poll of the resize mailbox, intended once per render
    /// loop iteration before presenting: a pending size is consumed and
    /// applied via [`Self::resize`]; an empty mailbox means no observable
    /// effect. A consumed request is never applied twice, and only the most
    /// recently posted one is ever applied.
    pub fn try_resize_by_js_event(&mut self) -> (r: Result<(), ContextError>)
        requires
            old(self).wf(),
        ensures
            final(self).wf(),
            final(self).same_binding(*old(self)),
            final(self).model() == spec_poll(old(self).model()),
            old(self).mailbox@ is None ==> final(self).config == old(self).config && r is Ok,
            old(self).mailbox@ matches Some(wh) ==> final(self).mailbox@ is None
                && final(self).config == spec_config_resized(
                old(self).config,
                wh.0,
                wh.1,
                old(self).limits.max_texture_dimension_2d,
            ),
            r is Err ==> r == Err::<(), ContextError>(ContextError::SurfaceReconfigurationFailed),
    {
        match self.mailbox.try_recv() {
            Some((width, height)) => self.resize(width, height),
            None => Ok(()),
        }
    }
}

} // verus!
