use screen_context::config::{
    build_config, initial_dims, resize_config, ScreenConfig, DESIRED_MAXIMUM_FRAME_LATENCY,
    RESIZE_DOWNSCALE,
};
use screen_context::environment::{
    backend_set_for, BackendSet, Environment, MemoryHint, PowerPreference, ScreenDescriptor,
};
use screen_context::error::ContextError;
use screen_context::limits::{negotiated_limits, MAX_UNIFORM_BINDING_CAP};
use screen_context::mailbox::ResizeMailbox;

fn base_config() -> ScreenConfig {
    ScreenConfig {
        width: 640,
        height: 480,
        format_index: 0,
        present_mode_index: 0,
        alpha_mode_index: 0,
        desired_maximum_frame_latency: 2,
    }
}

#[test]
fn resize_downscales_exactly() {
    let mut c = base_config();
    let applied = resize_config(&mut c, 1600, 960, 8192);
    assert!(applied);
    assert_eq!(c.width, 100);
    assert_eq!(c.height, 60);
    assert_eq!(c.format_index, 0);
    assert_eq!(c.desired_maximum_frame_latency, 2);
}

#[test]
fn resize_sub_divisor_is_refused() {
    let mut c = base_config();
    let applied = resize_config(&mut c, 10, 10, 8192);
    assert!(!applied);
    assert_eq!(c, base_config());
}

#[test]
fn resize_mixed_zero_dimension_is_refused() {
    let mut c = base_config();
    let applied = resize_config(&mut c, 1600, 10, 8192);
    assert!(!applied);
    assert_eq!(c, base_config());
}

#[test]
fn resize_at_divisor_boundary() {
    let mut c = base_config();
    assert_eq!(RESIZE_DOWNSCALE, 16);
    let applied = resize_config(&mut c, 16, 16, 8192);
    assert!(applied);
    assert_eq!((c.width, c.height), (1, 1));
}

#[test]
fn resize_above_texture_ceiling_is_refused() {
    let mut c = base_config();
    // 200000 / 16 = 12500, above the device's 8192 ceiling.
    let applied = resize_config(&mut c, 200000, 200000, 8192);
    assert!(!applied);
    assert_eq!(c, base_config());
}

#[test]
fn build_config_oversized_window_fails() {
    let r = build_config(Environment::Native, 800, 600, 512, 3, 2, 1);
    assert_eq!(r, Err(ContextError::SurfaceReconfigurationFailed));
}

#[test]
fn mailbox_starts_empty() {
    let mut m = ResizeMailbox::empty();
    assert_eq!(m.try_recv(), None);
}

#[test]
fn mailbox_latest_wins() {
    let mut m = ResizeMailbox::empty();
    m.post(320, 200);
    m.post(1024, 768);
    assert_eq!(m.try_recv(), Some((1024, 768)));
    assert_eq!(m.try_recv(), None);
}

#[test]
fn mailbox_at_most_once() {
    let mut m = ResizeMailbox::empty();
    m.post(640, 480);
    assert_eq!(m.try_recv(), Some((640, 480)));
    assert_eq!(m.try_recv(), None);
    assert_eq!(m.try_recv(), None);
}

#[test]
fn initial_dims_web_clamps_zero() {
    assert_eq!(initial_dims(Environment::Web, 0, 0), (1, 1));
    assert_eq!(initial_dims(Environment::Web, 0, 300), (1, 300));
    assert_eq!(initial_dims(Environment::Web, 10, 10), (10, 10));
}

#[test]
fn initial_dims_native_passes_through() {
    assert_eq!(initial_dims(Environment::Native, 0, 0), (0, 0));
    assert_eq!(initial_dims(Environment::Native, 800, 600), (800, 600));
}

#[test]
fn build_config_web_zero_window_yields_one_by_one() {
    let r = build_config(Environment::Web, 0, 0, 8192, 3, 2, 1);
    let c = r.expect("browser-environment initialization must clamp to 1x1");
    assert_eq!((c.width, c.height), (1, 1));
    assert_eq!(c.format_index, 0);
    assert_eq!(c.present_mode_index, 0);
    assert_eq!(c.alpha_mode_index, 0);
    assert_eq!(c.desired_maximum_frame_latency, 2);
    assert_eq!(DESIRED_MAXIMUM_FRAME_LATENCY, 2);
}

#[test]
fn build_config_native_zero_window_fails() {
    let r = build_config(Environment::Native, 0, 600, 8192, 3, 2, 1);
    assert_eq!(r, Err(ContextError::SurfaceReconfigurationFailed));
}

#[test]
fn build_config_empty_capabilities_fail() {
    assert_eq!(
        build_config(Environment::Web, 800, 600, 8192, 0, 2, 1),
        Err(ContextError::NoCompatibleAdapter)
    );
    assert_eq!(
        build_config(Environment::Native, 800, 600, 8192, 3, 0, 1),
        Err(ContextError::NoCompatibleAdapter)
    );
    assert_eq!(
        build_config(Environment::Native, 800, 600, 8192, 3, 2, 0),
        Err(ContextError::NoCompatibleAdapter)
    );
}

#[test]
fn build_config_native_normal() {
    let c = build_config(Environment::Native, 800, 600, 8192, 3, 2, 1).expect("must succeed");
    assert_eq!((c.width, c.height), (800, 600));
}

#[test]
fn descriptor_default_values() {
    let d = ScreenDescriptor::default();
    assert_eq!(d.power_preference, PowerPreference::NoPreference);
    assert_eq!(d.memory_hints, MemoryHint::Performance);
}

#[test]
fn backend_set_rule() {
    assert_eq!(backend_set_for(Environment::Web), BackendSet::WebCompatible);
    assert_eq!(backend_set_for(Environment::Native), BackendSet::Primary);
}

#[test]
fn limits_uniform_cap_holds_in_both_environments() {
    let adapter = wgpu::Limits::default();
    assert_eq!(adapter.max_uniform_buffer_binding_size, 65536);
    let web = negotiated_limits(Environment::Web, &adapter);
    let native = negotiated_limits(Environment::Native, &adapter);
    assert_eq!(MAX_UNIFORM_BINDING_CAP, 16384);
    assert_eq!(web.max_uniform_buffer_binding_size, 16384);
    assert_eq!(native.max_uniform_buffer_binding_size, 16384);
}

#[test]
fn limits_never_exceed_adapter_uniform_grant() {
    let adapter = wgpu::Limits {
        max_uniform_buffer_binding_size: 8192,
        ..wgpu::Limits::default()
    };
    let web = negotiated_limits(Environment::Web, &adapter);
    let native = negotiated_limits(Environment::Native, &adapter);
    assert_eq!(web.max_uniform_buffer_binding_size, 8192);
    assert_eq!(native.max_uniform_buffer_binding_size, 8192);
}

#[test]
fn limits_web_texture_ceilings() {
    let adapter = wgpu::Limits::default();
    let web = negotiated_limits(Environment::Web, &adapter);
    assert_eq!(web.max_texture_dimension_1d, 4096);
    assert_eq!(web.max_texture_dimension_2d, 4096);
    assert_eq!(web.max_texture_dimension_3d, 256);
    // The rest of the browser profile stays at its baseline.
    assert_eq!(web.max_storage_buffer_binding_size, 0);
    assert_eq!(web.max_uniform_buffers_per_shader_stage, 11);
    assert_eq!(web.max_vertex_buffer_array_stride, 255);
}

#[test]
fn limits_native_intersects_with_adapter() {
    let adapter = wgpu::Limits {
        max_texture_dimension_2d: 4096,
        max_bind_groups: 2,
        ..wgpu::Limits::default()
    };
    let native = negotiated_limits(Environment::Native, &adapter);
    assert_eq!(native.max_texture_dimension_2d, 4096);
    assert_eq!(native.max_bind_groups, 2);
    assert_eq!(native.max_texture_dimension_1d, 8192);
}

#[test]
fn limits_alignment_takes_coarser_value() {
    let adapter = wgpu::Limits {
        min_uniform_buffer_offset_alignment: 512,
        min_storage_buffer_offset_alignment: 64,
        ..wgpu::Limits::default()
    };
    let native = negotiated_limits(Environment::Native, &adapter);
    // A larger required alignment is the weaker request, so the coarser of
    // the two survives; the profile's own 256 wins over the adapter's 64.
    assert_eq!(native.min_uniform_buffer_offset_alignment, 512);
    assert_eq!(native.min_storage_buffer_offset_alignment, 256);
}
