//! The backend's pipeline cache, as far as the execution node reads it.
//!
//! The cache and the values it hands out are opaque. What the node needs to
//! know of a cache is named by [`pipeline_statuses`]; the functions below are
//! the only places where the backend is called, and their contracts are
//! taken on trust.

use crate::state::CompileStatus;
use bevy_asset::{Handle, HandleId};
use bevy_render::render_resource::{
    BindGroupLayout, CachedComputePipelineId, CachedPipelineState, ComputePipeline,
    ComputePipelineDescriptor, PipelineCache,
};
use std::borrow::Cow;
use vstd::prelude::*;

verus! {

/// `bevy_render::render_resource::PipelineCache`: every pipeline that was
/// queued for compilation, with its current state.
#[verifier::external_type_specification]
#[verifier::external_body]
pub struct ExPipelineCache(PipelineCache);

/// `bevy_render::render_resource::CachedComputePipelineId`: the token a
/// cache hands out when a compute pipeline is queued.
#[verifier::external_type_specification]
#[verifier::external_body]
pub struct ExCachedComputePipelineId(CachedComputePipelineId);

/// `bevy_render::render_resource::ComputePipeline`: a compiled compute
/// pipeline.
#[verifier::external_type_specification]
#[verifier::external_body]
pub struct ExComputePipeline(ComputePipeline);

/// The status of each pipeline a cache holds, in the order in which they
/// were queued.
pub uninterp spec fn pipeline_statuses(cache: PipelineCache) -> Seq<CompileStatus>;

/// The entry point of each pipeline a cache holds, in the order in which
/// they were queued; for a render pipeline, that of its vertex stage.
pub uninterp spec fn pipeline_entry_points(cache: PipelineCache) -> Seq<Seq<char>>;

/// The shader of each pipeline a cache holds, in the order in which they
/// were queued; for a render pipeline, that of its vertex stage.
pub uninterp spec fn pipeline_shaders(cache: PipelineCache) -> Seq<HandleId>;

/// The position in its cache's queue order that a token stands for.
pub uninterp spec fn pipeline_index(id: CachedComputePipelineId) -> nat;

/// The compiled compute pipeline a cache holds under a token, if any.
pub uninterp spec fn compiled_pipeline(cache: PipelineCache, id: CachedComputePipelineId) -> Option<
    ComputePipeline,
>;

/// Whether `cache` holds a pipeline under `id`.
pub open spec fn holds_pipeline(cache: PipelineCache, id: CachedComputePipelineId) -> bool {
    pipeline_index(id) < pipeline_statuses(cache).len()
}

/// The status `cache` records for `id`.
pub open spec fn status_of(cache: PipelineCache, id: CachedComputePipelineId) -> CompileStatus
    recommends
        holds_pipeline(cache, id),
{
    pipeline_statuses(cache)[pipeline_index(id) as int]
}

/// The entry point `cache` records for `id`.
pub open spec fn entry_point_of(cache: PipelineCache, id: CachedComputePipelineId) -> Seq<char>
    recommends
        holds_pipeline(cache, id),
{
    pipeline_entry_points(cache)[pipeline_index(id) as int]
}

/// The shader `cache` records for `id`.
pub open spec fn shader_of(cache: PipelineCache, id: CachedComputePipelineId) -> HandleId
    recommends
        holds_pipeline(cache, id),
{
    pipeline_shaders(cache)[pipeline_index(id) as int]
}

/// Calls `PipelineCache::queue_compute_pipeline`, which appends the
/// pipeline to the cache in the state `Queued`, keeps its descriptor as it
/// is given, and returns a token for the position it was appended at.
/// Nothing is compiled by this call. The descriptor is made here, without
/// label or shader definitions, over a handle that does not keep the
/// shader alive.
#[verifier::external_body]
pub(crate) fn queue_compute_pipeline(
    cache: &mut PipelineCache,
    layout: &BindGroupLayout,
    shader: HandleId,
    entry_point: &'static str,
) -> (r: CachedComputePipelineId)
    ensures
        pipeline_statuses(*final(cache)) == pipeline_statuses(*old(cache)).push(
            CompileStatus::Pending,
        ),
        pipeline_entry_points(*final(cache)) == pipeline_entry_points(*old(cache)).push(
            entry_point@,
        ),
        pipeline_shaders(*final(cache)) == pipeline_shaders(*old(cache)).push(shader),
        pipeline_entry_points(*final(cache)).len() == pipeline_statuses(*final(cache)).len(),
        pipeline_shaders(*final(cache)).len() == pipeline_statuses(*final(cache)).len(),
        pipeline_index(r) == pipeline_statuses(*old(cache)).len(),
{
    cache.queue_compute_pipeline(ComputePipelineDescriptor {
        label: None,
        layout: Some(vec![layout.clone()]),
        shader: Handle::weak(shader),
        shader_defs: vec![],
        entry_point: Cow::from(entry_point),
    })
}

/// Calls `PipelineCache::get_compute_pipeline_state`, which indexes the
/// cache's pipelines by the token and so needs the token to be in range.
/// `Queued` is reported as `Pending`, `Ok` as `Ready` and `Err` as `Failed`.
#[verifier::external_body]
pub(crate) fn compute_pipeline_status(cache: &PipelineCache, id: CachedComputePipelineId) -> (r:
    CompileStatus)
    requires
        holds_pipeline(*cache, id),
    ensures
        r == pipeline_statuses(*cache)[pipeline_index(id) as int],
{
    match cache.get_compute_pipeline_state(id) {
        CachedPipelineState::Queued => CompileStatus::Pending,
        CachedPipelineState::Ok(_) => CompileStatus::Ready,
        CachedPipelineState::Err(_) => CompileStatus::Failed,
    }
}

/// Calls `PipelineCache::get_compute_pipeline`, which indexes the cache's
/// pipelines by the token and returns the compute pipeline stored there
/// when that entry's state is `Ok`.
#[verifier::external_body]
pub(crate) fn compute_pipeline<'a>(cache: &'a PipelineCache, id: CachedComputePipelineId) -> (r:
    Option<&'a ComputePipeline>)
    requires
        holds_pipeline(*cache, id),
    ensures
        r.is_some() == compiled_pipeline(*cache, id).is_some(),
        r matches Some(p) ==> compiled_pipeline(*cache, id) == Some(*p),
        r.is_some() ==> pipeline_statuses(*cache)[pipeline_index(id) as int]
            == CompileStatus::Ready,
{
    cache.get_compute_pipeline(id)
}

} // verus!
