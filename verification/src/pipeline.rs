//! The fixed pipeline configuration, the descriptor layout, the vertex
//! layout, and the quad geometry indices.
//!
//! The demo renders one textured quad with one immutable pipeline:
//! triangle-list topology, dynamic viewport and scissor, counter-clockwise
//! front face, single-sample rasterization, depth test enabled with a
//! less-or-equal comparison, blending disabled, and the full RGBA color
//! write mask. The descriptor set binds a uniform buffer and a combined
//! image and sampler, both visible to the fragment stage.

use vstd::prelude::*;

verus! {

/// How fragments are compared against the depth buffer.
#[derive(Clone, Copy, PartialEq, Eq, Structural, Debug)]
pub enum CompareOp {
    Never,
    LessOrEqual,
    Always,
}

/// Which winding order counts as front-facing.
#[derive(Clone, Copy, PartialEq, Eq, Structural, Debug)]
pub enum FrontFace {
    Clockwise,
    CounterClockwise,
}

/// How vertices are assembled into primitives.
#[derive(Clone, Copy, PartialEq, Eq, Structural, Debug)]
pub enum Topology {
    TriangleList,
}

/// The full RGBA color write mask, as the driver interface numbers the
/// four component bits.
pub const COLOR_WRITE_MASK_RGBA: u32 = 0xf;

/// The fixed-function state of the one graphics pipeline.
#[derive(Clone, Copy, PartialEq, Eq, Structural, Debug)]
pub struct PipelineConfig {
    pub topology: Topology,
    pub front_face: FrontFace,
    pub sample_count: u32,
    pub depth_test: bool,
    pub depth_write: bool,
    pub depth_compare: CompareOp,
    pub blend_enabled: bool,
    pub color_write_mask: u32,
    pub dynamic_viewport: bool,
    pub dynamic_scissor: bool,
}

/// The one configuration the demo ever builds.
pub open spec fn spec_fixed_pipeline_config() -> PipelineConfig {
    PipelineConfig {
        topology: Topology::TriangleList,
        front_face: FrontFace::CounterClockwise,
        sample_count: 1,
        depth_test: true,
        depth_write: true,
        depth_compare: CompareOp::LessOrEqual,
        blend_enabled: false,
        color_write_mask: COLOR_WRITE_MASK_RGBA,
        dynamic_viewport: true,
        dynamic_scissor: true,
    }
}

/// Assemble the fixed pipeline configuration.
pub fn fixed_pipeline_config() -> (r: PipelineConfig)
    ensures
        r == spec_fixed_pipeline_config(),
{
    PipelineConfig {
        topology: Topology::TriangleList,
        front_face: FrontFace::CounterClockwise,
        sample_count: 1,
        depth_test: true,
        depth_write: true,
        depth_compare: CompareOp::LessOrEqual,
        blend_enabled: false,
        color_write_mask: COLOR_WRITE_MASK_RGBA,
        dynamic_viewport: true,
        dynamic_scissor: true,
    }
}

/// What a descriptor slot holds.
#[derive(Clone, Copy, PartialEq, Eq, Structural, Debug)]
pub enum DescriptorKind {
    UniformBuffer,
    CombinedImageSampler,
}

/// One shader-visible descriptor slot.
#[derive(Clone, Copy, PartialEq, Eq, Structural, Debug)]
pub struct DescriptorBinding {
    pub binding: u32,
    pub kind: DescriptorKind,
    pub count: u32,
    pub fragment_stage: bool,
}

/// The demo's descriptor set layout: the uniform buffer at slot zero and
/// the combined image and sampler at slot one, each a single descriptor
/// visible to the fragment stage.
pub fn descriptor_bindings() -> (r: Vec<DescriptorBinding>)
    ensures
        r@ =~= seq![
            DescriptorBinding {
                binding: 0,
                kind: DescriptorKind::UniformBuffer,
                count: 1,
                fragment_stage: true,
            },
            DescriptorBinding {
                binding: 1,
                kind: DescriptorKind::CombinedImageSampler,
                count: 1,
                fragment_stage: true,
            },
        ],
{
    let mut r: Vec<DescriptorBinding> = Vec::new();
    r.push(
        DescriptorBinding {
            binding: 0,
            kind: DescriptorKind::UniformBuffer,
            count: 1,
            fragment_stage: true,
        },
    );
    r.push(
        DescriptorBinding {
            binding: 1,
            kind: DescriptorKind::CombinedImageSampler,
            count: 1,
            fragment_stage: true,
        },
    );
    r
}

/// The layout of one vertex: a four-component position followed by a
/// two-component texture coordinate, each component four bytes.
#[derive(Clone, Copy, PartialEq, Eq, Structural, Debug)]
pub struct VertexLayout {
    pub stride: u32,
    pub position_offset: u32,
    pub position_components: u32,
    pub uv_offset: u32,
    pub uv_components: u32,
}

/// Compute the vertex layout: the texture coordinate starts right after
/// the position, and the stride covers both attributes.
pub fn vertex_layout() -> (r: VertexLayout)
    ensures
        r.position_offset == 0,
        r.position_components == 4,
        r.uv_offset == 4 * r.position_components,
        r.uv_components == 2,
        r.stride == 4 * (r.position_components + r.uv_components),
{
    let position_components: u32 = 4;
    let uv_components: u32 = 2;
    VertexLayout {
        stride: 4 * (position_components + uv_components),
        position_offset: 0,
        position_components,
        uv_offset: 4 * position_components,
        uv_components,
    }
}

/// The index list of the textured quad: two triangles over four vertices.
pub fn quad_indices() -> (r: Vec<u32>)
    ensures
        r@ =~= seq![0u32, 1u32, 2u32, 2u32, 3u32, 0u32],
{
    let mut r: Vec<u32> = Vec::new();
    r.push(0);
    r.push(1);
    r.push(2);
    r.push(2);
    r.push(3);
    r.push(0);
    r
}

} // verus!
