//! The binding layout and the two pipelines compiled against it.

use crate::cache::{
    compute_pipeline_status, entry_point_of, holds_pipeline, pipeline_entry_points,
    pipeline_index, pipeline_shaders, pipeline_statuses, queue_compute_pipeline, shader_of,
    status_of,
};
use crate::dispatch::Phase;
use crate::state::CompileStatus;
use bevy_asset::HandleId;
use bevy_render::render_resource::{BindGroupLayout, CachedComputePipelineId, PipelineCache};
use vstd::prelude::*;

verus! {

/// `bevy_render::render_resource::BindGroupLayout`: a binding layout that
/// the device has created.
#[verifier::external_type_specification]
#[verifier::external_body]
pub struct ExBindGroupLayout(BindGroupLayout);

/// Asset path of the composed kernel.
pub const SHADER_PATH: &'static str = "shaders/processor.wgsl";

/// The number of textures the kernel binds.
pub const TEXTURE_BINDINGS: u32 = 3;

/// How a kernel may access a storage texture.
#[derive(Clone, Copy, Debug, PartialEq, Eq, Structural)]
pub enum TextureAccess {
    ReadOnly,
    WriteOnly,
    ReadWrite,
}

/// The texel format of the simulation textures.
#[derive(Clone, Copy, Debug, PartialEq, Eq, Structural)]
pub enum TexelFormat {
    /// Four 8-bit channels, each read as a fraction of 255.
    Rgba8Unorm,
}

/// The shape under which a texture is viewed.
#[derive(Clone, Copy, Debug, PartialEq, Eq, Structural)]
pub enum ViewDimension {
    D1,
    D2,
    D2Array,
    Cube,
    CubeArray,
    D3,
}

/// The shader stages that can see a binding.
#[derive(Clone, Copy, Debug, PartialEq, Eq, Structural)]
pub struct StageVisibility {
    pub vertex: bool,
    pub fragment: bool,
    pub compute: bool,
}

/// One storage-texture entry of the binding layout.
#[derive(Clone, Copy, Debug, PartialEq, Eq, Structural)]
pub struct StorageTextureEntry {
    pub binding: u32,
    pub visibility: StageVisibility,
    pub access: TextureAccess,
    pub format: TexelFormat,
    pub view_dimension: ViewDimension,
}

/// The layout entry at `binding`: a two-dimensional read-write storage
/// texture that only the compute stage sees.
pub open spec fn storage_texture_entry(binding: u32) -> StorageTextureEntry {
    StorageTextureEntry {
        binding,
        visibility: StageVisibility { vertex: false, fragment: false, compute: true },
        access: TextureAccess::ReadWrite,
        format: TexelFormat::Rgba8Unorm,
        view_dimension: ViewDimension::D2,
    }
}

/// The entries of the binding layout: bindings 0, 1 and 2, in this order.
pub open spec fn layout_entries() -> Seq<StorageTextureEntry> {
    Seq::new(TEXTURE_BINDINGS as nat, |i: int| storage_texture_entry(i as u32))
}

/// The binding layout and the tokens of the two queued pipelines.
pub struct EvolveTexturePipeline {
    pub bind_group_layout: BindGroupLayout,
    pub init_pipeline: CachedComputePipelineId,
    pub process_pipeline: CachedComputePipelineId,
}

impl EvolveTexturePipeline {
    /// The token of the pipeline compiled for `phase`.
    pub open spec fn pipeline_of(self, phase: Phase) -> CachedComputePipelineId {
        match phase {
            Phase::Init => self.init_pipeline,
            Phase::Process => self.process_pipeline,
        }
    }

    /// The entries of the binding layout.
    pub fn bind_group_layout_entries() -> (r: Vec<StorageTextureEntry>)
        ensures
            r@ == layout_entries(),
    {
        let mut entries: Vec<StorageTextureEntry> = Vec::new();
        let mut binding: u32 = 0;
        while binding < TEXTURE_BINDINGS
            invariant
                binding <= TEXTURE_BINDINGS,
                entries@ == Seq::new(binding as nat, |i: int| storage_texture_entry(i as u32)),
            decreases TEXTURE_BINDINGS - binding,
        {
            entries.push(
                StorageTextureEntry {
                    binding,
                    visibility: StageVisibility { vertex: false, fragment: false, compute: true },
                    access: TextureAccess::ReadWrite,
                    format: TexelFormat::Rgba8Unorm,
                    view_dimension: ViewDimension::D2,
                },
            );
            binding += 1;
            assert(entries@ =~= Seq::new(binding as nat, |i: int| storage_texture_entry(i as u32)));
        }
        entries
    }

    /// Submits the shader for compilation twice against the layout, once
    /// per entry point and the initialization kernel first, and keeps the
    /// two tokens with the layout. Nothing is compiled by this call: both
    /// pipelines start out pending.
    pub fn initialize(
        bind_group_layout: BindGroupLayout,
        pipeline_cache: &mut PipelineCache,
        shader: HandleId,
    ) -> (r: EvolveTexturePipeline)
        ensures
            r.bind_group_layout == bind_group_layout,
            pipeline_statuses(*final(pipeline_cache)) == pipeline_statuses(*old(pipeline_cache)).push(
                CompileStatus::Pending,
            ).push(CompileStatus::Pending),
            pipeline_entry_points(*final(pipeline_cache)) == pipeline_entry_points(
                *old(pipeline_cache),
            ).push(Phase::Init.entry_point_name()).push(Phase::Process.entry_point_name()),
            pipeline_shaders(*final(pipeline_cache)) == pipeline_shaders(*old(pipeline_cache)).push(
                shader,
            ).push(shader),
            pipeline_index(r.init_pipeline) == pipeline_statuses(*old(pipeline_cache)).len(),
            pipeline_index(r.process_pipeline) == pipeline_statuses(*old(pipeline_cache)).len() + 1,
            forall|phase: Phase|
                #![trigger r.pipeline_of(phase)]
                {
                    &&& holds_pipeline(*final(pipeline_cache), r.pipeline_of(phase))
                    &&& status_of(*final(pipeline_cache), r.pipeline_of(phase))
                        == CompileStatus::Pending
                    &&& entry_point_of(*final(pipeline_cache), r.pipeline_of(phase))
                        == phase.entry_point_name()
                    &&& shader_of(*final(pipeline_cache), r.pipeline_of(phase)) == shader
                },
    {
        let init_pipeline = queue_compute_pipeline(
            pipeline_cache,
            &bind_group_layout,
            shader,
            Phase::Init.entry_point(),
        );
        let process_pipeline = queue_compute_pipeline(
            pipeline_cache,
            &bind_group_layout,
            shader,
            Phase::Process.entry_point(),
        );
        EvolveTexturePipeline { bind_group_layout, init_pipeline, process_pipeline }
    }

    /// The token of the pipeline compiled for `phase`.
    pub fn pipeline_for(&self, phase: Phase) -> (r: CachedComputePipelineId)
        ensures
            r == self.pipeline_of(phase),
    {
        match phase {
            Phase::Init => self.init_pipeline,
            Phase::Process => self.process_pipeline,
        }
    }

    /// What the cache reports of the pipeline compiled for `phase`. The
    /// call never waits for the compilation.
    pub fn status(&self, pipeline_cache: &PipelineCache, phase: Phase) -> (r: CompileStatus)
        requires
            holds_pipeline(*pipeline_cache, self.pipeline_of(phase)),
        ensures
            r == status_of(*pipeline_cache, self.pipeline_of(phase)),
    {
        compute_pipeline_status(pipeline_cache, self.pipeline_for(phase))
    }
}

} // verus!
