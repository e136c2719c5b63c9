use vstd::prelude::*;

use crate::environment::Environment;

verus! {

// `wgpu::Limits` is a plain record of `u32`/`u64` capability ceilings; this
// declaration lets the limit policy below read, build and reason about it
// directly.
#[verifier::external_type_specification]
pub struct ExLimits(wgpu::Limits);

/// Cross-environment ceiling on the uniform-buffer binding size, in bytes.
/// It is applied in every environment so that shader resource layouts stay
/// portable between native and browser hosts.
pub const MAX_UNIFORM_BINDING_CAP: u32 = 16384;

pub open spec fn min32(a: u32, b: u32) -> u32 {
    if a <= b {
        a
    } else {
        b
    }
}

pub open spec fn max32(a: u32, b: u32) -> u32 {
    if a >= b {
        a
    } else {
        b
    }
}

pub open spec fn min64(a: u64, b: u64) -> u64 {
    if a <= b {
        a
    } else {
        b
    }
}

fn umin(a: u32, b: u32) -> (r: u32)
    ensures
        r == min32(a, b),
{
    if a <= b {
        a
    } else {
        b
    }
}

fn umax(a: u32, b: u32) -> (r: u32)
    ensures
        r == max32(a, b),
{
    if a >= b {
        a
    } else {
        b
    }
}

fn umin64(a: u64, b: u64) -> (r: u64)
    ensures
        r == min64(a, b),
{
    if a <= b {
        a
    } else {
        b
    }
}

/// The default (unconstrained) limit profile: the values the backend
/// guarantees on all modern native targets.
pub open spec fn spec_default_limits() -> wgpu::Limits {
    wgpu::Limits {
        max_texture_dimension_1d: 8192,
        max_texture_dimension_2d: 8192,
        max_texture_dimension_3d: 2048,
        max_texture_array_layers: 256,
        max_bind_groups: 4,
        max_bindings_per_bind_group: 1000,
        max_dynamic_uniform_buffers_per_pipeline_layout: 8,
        max_dynamic_storage_buffers_per_pipeline_layout: 4,
        max_sampled_textures_per_shader_stage: 16,
        max_samplers_per_shader_stage: 16,
        max_storage_buffers_per_shader_stage: 8,
        max_storage_textures_per_shader_stage: 4,
        max_uniform_buffers_per_shader_stage: 12,
        max_binding_array_elements_per_shader_stage: 0,
        max_binding_array_sampler_elements_per_shader_stage: 0,
        max_uniform_buffer_binding_size: 65536,
        max_storage_buffer_binding_size: 134217728,
        max_vertex_buffers: 8,
        max_buffer_size: 268435456,
        max_vertex_attributes: 16,
        max_vertex_buffer_array_stride: 2048,
        min_uniform_buffer_offset_alignment: 256,
        min_storage_buffer_offset_alignment: 256,
        max_inter_stage_shader_components: 60,
        max_color_attachments: 8,
        max_color_attachment_bytes_per_sample: 32,
        max_compute_workgroup_storage_size: 16384,
        max_compute_invocations_per_workgroup: 256,
        max_compute_workgroup_size_x: 256,
        max_compute_workgroup_size_y: 256,
        max_compute_workgroup_size_z: 64,
        max_compute_workgroups_per_dimension: 65535,
        min_subgroup_size: 0,
        max_subgroup_size: 0,
        max_push_constant_size: 0,
        max_non_sampler_bindings: 1000000,
    }
}

/// The downlevel-compatible baseline: low enough for older native graphics
/// interfaces.
pub open spec fn spec_downlevel_limits() -> wgpu::Limits {
    wgpu::Limits {
        max_texture_dimension_1d: 2048,
        max_texture_dimension_2d: 2048,
        max_texture_dimension_3d: 256,
        max_storage_buffers_per_shader_stage: 4,
        max_uniform_buffer_binding_size: 16384,
        max_color_attachments: 4,
        max_compute_workgroup_storage_size: 16352,
        ..spec_default_limits()
    }
}

/// The browser-compatible baseline: low enough to run embedded in a browser
/// host over its compatibility graphics interface.
pub open spec fn spec_web_baseline_limits() -> wgpu::Limits {
    wgpu::Limits {
        max_uniform_buffers_per_shader_stage: 11,
        max_storage_buffers_per_shader_stage: 0,
        max_storage_textures_per_shader_stage: 0,
        max_dynamic_storage_buffers_per_pipeline_layout: 0,
        max_storage_buffer_binding_size: 0,
        max_vertex_buffer_array_stride: 255,
        max_compute_workgroup_storage_size: 0,
        max_compute_invocations_per_workgroup: 0,
        max_compute_workgroup_size_x: 0,
        max_compute_workgroup_size_y: 0,
        max_compute_workgroup_size_z: 0,
        max_compute_workgroups_per_dimension: 0,
        min_subgroup_size: 0,
        max_subgroup_size: 0,
        max_inter_stage_shader_components: 31,
        ..spec_downlevel_limits()
    }
}

/// What the browser environment asks for before looking at the adapter: the
/// browser baseline with the texture-dimension ceilings raised to 4096
/// (1D/2D) and 256 (3D) and the uniform-buffer binding size capped.
pub open spec fn spec_web_profile_limits() -> wgpu::Limits {
    wgpu::Limits {
        max_texture_dimension_1d: 4096,
        max_texture_dimension_2d: 4096,
        max_texture_dimension_3d: 256,
        max_uniform_buffer_binding_size: MAX_UNIFORM_BINDING_CAP,
        ..spec_web_baseline_limits()
    }
}

/// Field-wise intersection of a requested profile with what the adapter
/// reports, so that no limit asks for more than the adapter can grant. For
/// the alignment limits and the minimal subgroup size a *larger* value is
/// the weaker request, so those take the maximum; every other limit takes
/// the minimum.
pub open spec fn spec_intersect_limits(req: wgpu::Limits, adapter: wgpu::Limits) -> wgpu::Limits {
    wgpu::Limits {
        max_texture_dimension_1d: min32(req.max_texture_dimension_1d, adapter.max_texture_dimension_1d),
        max_texture_dimension_2d: min32(req.max_texture_dimension_2d, adapter.max_texture_dimension_2d),
        max_texture_dimension_3d: min32(req.max_texture_dimension_3d, adapter.max_texture_dimension_3d),
        max_texture_array_layers: min32(req.max_texture_array_layers, adapter.max_texture_array_layers),
        max_bind_groups: min32(req.max_bind_groups, adapter.max_bind_groups),
        max_bindings_per_bind_group: min32(req.max_bindings_per_bind_group, adapter.max_bindings_per_bind_group),
        max_dynamic_uniform_buffers_per_pipeline_layout: min32(req.max_dynamic_uniform_buffers_per_pipeline_layout, adapter.max_dynamic_uniform_buffers_per_pipeline_layout),
        max_dynamic_storage_buffers_per_pipeline_layout: min32(req.max_dynamic_storage_buffers_per_pipeline_layout, adapter.max_dynamic_storage_buffers_per_pipeline_layout),
        max_sampled_textures_per_shader_stage: min32(req.max_sampled_textures_per_shader_stage, adapter.max_sampled_textures_per_shader_stage),
        max_samplers_per_shader_stage: min32(req.max_samplers_per_shader_stage, adapter.max_samplers_per_shader_stage),
        max_storage_buffers_per_shader_stage: min32(req.max_storage_buffers_per_shader_stage, adapter.max_storage_buffers_per_shader_stage),
        max_storage_textures_per_shader_stage: min32(req.max_storage_textures_per_shader_stage, adapter.max_storage_textures_per_shader_stage),
        max_uniform_buffers_per_shader_stage: min32(req.max_uniform_buffers_per_shader_stage, adapter.max_uniform_buffers_per_shader_stage),
        max_binding_array_elements_per_shader_stage: min32(req.max_binding_array_elements_per_shader_stage, adapter.max_binding_array_elements_per_shader_stage),
        max_binding_array_sampler_elements_per_shader_stage: min32(req.max_binding_array_sampler_elements_per_shader_stage, adapter.max_binding_array_sampler_elements_per_shader_stage),
        max_uniform_buffer_binding_size: min32(req.max_uniform_buffer_binding_size, adapter.max_uniform_buffer_binding_size),
        max_storage_buffer_binding_size: min32(req.max_storage_buffer_binding_size, adapter.max_storage_buffer_binding_size),
        max_vertex_buffers: min32(req.max_vertex_buffers, adapter.max_vertex_buffers),
        max_buffer_size: min64(req.max_buffer_size, adapter.max_buffer_size),
        max_vertex_attributes: min32(req.max_vertex_attributes, adapter.max_vertex_attributes),
        max_vertex_buffer_array_stride: min32(req.max_vertex_buffer_array_stride, adapter.max_vertex_buffer_array_stride),
        min_uniform_buffer_offset_alignment: max32(req.min_uniform_buffer_offset_alignment, adapter.min_uniform_buffer_offset_alignment),
        min_storage_buffer_offset_alignment: max32(req.min_storage_buffer_offset_alignment, adapter.min_storage_buffer_offset_alignment),
        max_inter_stage_shader_components: min32(req.max_inter_stage_shader_components, adapter.max_inter_stage_shader_components),
        max_color_attachments: min32(req.max_color_attachments, adapter.max_color_attachments),
        max_color_attachment_bytes_per_sample: min32(req.max_color_attachment_bytes_per_sample, adapter.max_color_attachment_bytes_per_sample),
        max_compute_workgroup_storage_size: min32(req.max_compute_workgroup_storage_size, adapter.max_compute_workgroup_storage_size),
        max_compute_invocations_per_workgroup: min32(req.max_compute_invocations_per_workgroup, adapter.max_compute_invocations_per_workgroup),
        max_compute_workgroup_size_x: min32(req.max_compute_workgroup_size_x, adapter.max_compute_workgroup_size_x),
        max_compute_workgroup_size_y: min32(req.max_compute_workgroup_size_y, adapter.max_compute_workgroup_size_y),
        max_compute_workgroup_size_z: min32(req.max_compute_workgroup_size_z, adapter.max_compute_workgroup_size_z),
        max_compute_workgroups_per_dimension: min32(req.max_compute_workgroups_per_dimension, adapter.max_compute_workgroups_per_dimension),
        min_subgroup_size: max32(req.min_subgroup_size, adapter.min_subgroup_size),
        max_subgroup_size: min32(req.max_subgroup_size, adapter.max_subgroup_size),
        max_push_constant_size: min32(req.max_push_constant_size, adapter.max_push_constant_size),
        max_non_sampler_bindings: min32(req.max_non_sampler_bindings, adapter.max_non_sampler_bindings),
    }
}

/// The uniform-buffer binding ceiling applied on top of an intersected
/// profile.
pub open spec fn spec_cap_uniform(l: wgpu::Limits) -> wgpu::Limits {
    wgpu::Limits {
        max_uniform_buffer_binding_size: min32(
            l.max_uniform_buffer_binding_size,
            MAX_UNIFORM_BINDING_CAP,
        ),
        ..l
    }
}

/// The limit set requested from the device, from the environment and the
/// adapter's reported limits. The browser environment starts from the
/// browser baseline with raised texture ceilings and the capped uniform
/// binding size, then intersects with the adapter; the native environment
/// starts from the default profile, intersects with the adapter, and then
/// still caps the uniform binding size, so layouts stay portable.
pub open spec fn spec_negotiated_limits(env: Environment, adapter: wgpu::Limits) -> wgpu::Limits {
    match env {
        Environment::Web => spec_intersect_limits(spec_web_profile_limits(), adapter),
        Environment::Native => spec_cap_uniform(
            spec_intersect_limits(spec_default_limits(), adapter),
        ),
    }
}

/// The default (unconstrained) limit profile.
pub fn default_limits() -> (l: wgpu::Limits)
    ensures
        l == spec_default_limits(),
{
    wgpu::Limits {
        max_texture_dimension_1d: 8192,
        max_texture_dimension_2d: 8192,
        max_texture_dimension_3d: 2048,
        max_texture_array_layers: 256,
        max_bind_groups: 4,
        max_bindings_per_bind_group: 1000,
        max_dynamic_uniform_buffers_per_pipeline_layout: 8,
        max_dynamic_storage_buffers_per_pipeline_layout: 4,
        max_sampled_textures_per_shader_stage: 16,
        max_samplers_per_shader_stage: 16,
        max_storage_buffers_per_shader_stage: 8,
        max_storage_textures_per_shader_stage: 4,
        max_uniform_buffers_per_shader_stage: 12,
        max_binding_array_elements_per_shader_stage: 0,
        max_binding_array_sampler_elements_per_shader_stage: 0,
        max_uniform_buffer_binding_size: 65536,
        max_storage_buffer_binding_size: 134217728,
        max_vertex_buffers: 8,
        max_buffer_size: 268435456,
        max_vertex_attributes: 16,
        max_vertex_buffer_array_stride: 2048,
        min_uniform_buffer_offset_alignment: 256,
        min_storage_buffer_offset_alignment: 256,
        max_inter_stage_shader_components: 60,
        max_color_attachments: 8,
        max_color_attachment_bytes_per_sample: 32,
        max_compute_workgroup_storage_size: 16384,
        max_compute_invocations_per_workgroup: 256,
        max_compute_workgroup_size_x: 256,
        max_compute_workgroup_size_y: 256,
        max_compute_workgroup_size_z: 64,
        max_compute_workgroups_per_dimension: 65535,
        min_subgroup_size: 0,
        max_subgroup_size: 0,
        max_push_constant_size: 0,
        max_non_sampler_bindings: 1000000,
    }
}

/// The browser request profile (baseline, raised texture ceilings, capped
/// uniform binding size), before intersection with the adapter.
pub fn web_profile_limits() -> (l: wgpu::Limits)
    ensures
        l == spec_web_profile_limits(),
{
    let mut l = default_limits();
    l.max_storage_buffers_per_shader_stage = 0;
    l.max_color_attachments = 4;
    l.max_uniform_buffers_per_shader_stage = 11;
    l.max_storage_textures_per_shader_stage = 0;
    l.max_dynamic_storage_buffers_per_pipeline_layout = 0;
    l.max_storage_buffer_binding_size = 0;
    l.max_vertex_buffer_array_stride = 255;
    l.max_compute_workgroup_storage_size = 0;
    l.max_compute_invocations_per_workgroup = 0;
    l.max_compute_workgroup_size_x = 0;
    l.max_compute_workgroup_size_y = 0;
    l.max_compute_workgroup_size_z = 0;
    l.max_compute_workgroups_per_dimension = 0;
    l.max_inter_stage_shader_components = 31;
    l.max_texture_dimension_1d = 4096;
    l.max_texture_dimension_2d = 4096;
    l.max_texture_dimension_3d = 256;
    l.max_uniform_buffer_binding_size = MAX_UNIFORM_BINDING_CAP;
    l
}

/// Field-wise intersection with the adapter's reported limits.
pub fn intersect_limits(req: &wgpu::Limits, adapter: &wgpu::Limits) -> (l: wgpu::Limits)
    ensures
        l == spec_intersect_limits(*req, *adapter),
{
    wgpu::Limits {
        max_texture_dimension_1d: umin(req.max_texture_dimension_1d, adapter.max_texture_dimension_1d),
        max_texture_dimension_2d: umin(req.max_texture_dimension_2d, adapter.max_texture_dimension_2d),
        max_texture_dimension_3d: umin(req.max_texture_dimension_3d, adapter.max_texture_dimension_3d),
        max_texture_array_layers: umin(req.max_texture_array_layers, adapter.max_texture_array_layers),
        max_bind_groups: umin(req.max_bind_groups, adapter.max_bind_groups),
        max_bindings_per_bind_group: umin(req.max_bindings_per_bind_group, adapter.max_bindings_per_bind_group),
        max_dynamic_uniform_buffers_per_pipeline_layout: umin(req.max_dynamic_uniform_buffers_per_pipeline_layout, adapter.max_dynamic_uniform_buffers_per_pipeline_layout),
        max_dynamic_storage_buffers_per_pipeline_layout: umin(req.max_dynamic_storage_buffers_per_pipeline_layout, adapter.max_dynamic_storage_buffers_per_pipeline_layout),
        max_sampled_textures_per_shader_stage: umin(req.max_sampled_textures_per_shader_stage, adapter.max_sampled_textures_per_shader_stage),
        max_samplers_per_shader_stage: umin(req.max_samplers_per_shader_stage, adapter.max_samplers_per_shader_stage),
        max_storage_buffers_per_shader_stage: umin(req.max_storage_buffers_per_shader_stage, adapter.max_storage_buffers_per_shader_stage),
        max_storage_textures_per_shader_stage: umin(req.max_storage_textures_per_shader_stage, adapter.max_storage_textures_per_shader_stage),
        max_uniform_buffers_per_shader_stage: umin(req.max_uniform_buffers_per_shader_stage, adapter.max_uniform_buffers_per_shader_stage),
        max_binding_array_elements_per_shader_stage: umin(req.max_binding_array_elements_per_shader_stage, adapter.max_binding_array_elements_per_shader_stage),
        max_binding_array_sampler_elements_per_shader_stage: umin(req.max_binding_array_sampler_elements_per_shader_stage, adapter.max_binding_array_sampler_elements_per_shader_stage),
        max_uniform_buffer_binding_size: umin(req.max_uniform_buffer_binding_size, adapter.max_uniform_buffer_binding_size),
        max_storage_buffer_binding_size: umin(req.max_storage_buffer_binding_size, adapter.max_storage_buffer_binding_size),
        max_vertex_buffers: umin(req.max_vertex_buffers, adapter.max_vertex_buffers),
        max_buffer_size: umin64(req.max_buffer_size, adapter.max_buffer_size),
        max_vertex_attributes: umin(req.max_vertex_attributes, adapter.max_vertex_attributes),
        max_vertex_buffer_array_stride: umin(req.max_vertex_buffer_array_stride, adapter.max_vertex_buffer_array_stride),
        min_uniform_buffer_offset_alignment: umax(req.min_uniform_buffer_offset_alignment, adapter.min_uniform_buffer_offset_alignment),
        min_storage_buffer_offset_alignment: umax(req.min_storage_buffer_offset_alignment, adapter.min_storage_buffer_offset_alignment),
        max_inter_stage_shader_components: umin(req.max_inter_stage_shader_components, adapter.max_inter_stage_shader_components),
        max_color_attachments: umin(req.max_color_attachments, adapter.max_color_attachments),
        max_color_attachment_bytes_per_sample: umin(req.max_color_attachment_bytes_per_sample, adapter.max_color_attachment_bytes_per_sample),
        max_compute_workgroup_storage_size: umin(req.max_compute_workgroup_storage_size, adapter.max_compute_workgroup_storage_size),
        max_compute_invocations_per_workgroup: umin(req.max_compute_invocations_per_workgroup, adapter.max_compute_invocations_per_workgroup),
        max_compute_workgroup_size_x: umin(req.max_compute_workgroup_size_x, adapter.max_compute_workgroup_size_x),
        max_compute_workgroup_size_y: umin(req.max_compute_workgroup_size_y, adapter.max_compute_workgroup_size_y),
        max_compute_workgroup_size_z: umin(req.max_compute_workgroup_size_z, adapter.max_compute_workgroup_size_z),
        max_compute_workgroups_per_dimension: umin(req.max_compute_workgroups_per_dimension, adapter.max_compute_workgroups_per_dimension),
        min_subgroup_size: umax(req.min_subgroup_size, adapter.min_subgroup_size),
        max_subgroup_size: umin(req.max_subgroup_size, adapter.max_subgroup_size),
        max_push_constant_size: umin(req.max_push_constant_size, adapter.max_push_constant_size),
        max_non_sampler_bindings: umin(req.max_non_sampler_bindings, adapter.max_non_sampler_bindings),
    }
}

/// The limit set requested from the device (see `spec_negotiated_limits`).
/// Whatever the environment and whatever the adapter reports, the
/// uniform-buffer binding limit never exceeds the portable ceiling, and
/// nothing is requested beyond what the adapter granted.
pub fn negotiated_limits(env: Environment, adapter: &wgpu::Limits) -> (l: wgpu::Limits)
    ensures
        l == spec_negotiated_limits(env, *adapter),
        l.max_uniform_buffer_binding_size <= MAX_UNIFORM_BINDING_CAP,
        l.max_uniform_buffer_binding_size <= adapter.max_uniform_buffer_binding_size,
{
    match env {
        Environment::Web => {
            let profile = web_profile_limits();
            intersect_limits(&profile, adapter)
        },
        Environment::Native => {
            let base = default_limits();
            let mut l = intersect_limits(&base, adapter);
            l.max_uniform_buffer_binding_size = umin(
                l.max_uniform_buffer_binding_size,
                MAX_UNIFORM_BINDING_CAP,
            );
            l
        },
    }
}

} // verus!
