//! The execution node: it advances with the compile status of the two
//! pipelines and decides, once per tick, what to dispatch.

use crate::bind_group::EvolveTextureBindGroup;
use crate::cache::{compiled_pipeline, compute_pipeline, holds_pipeline, status_of};
use crate::dispatch::{
    dispatch_phase, phase_to_dispatch, workgroup_count, workgroups_for, Phase, WorkgroupCount,
    BIND_GROUP_SLOT, TARGET_HEIGHT, TARGET_WIDTH,
};
use crate::pipeline::EvolveTexturePipeline;
use crate::state::{CompileStatus, EvolveTextureState};
use bevy_render::render_resource::{BindGroup, ComputePipeline, PipelineCache};
use vstd::prelude::*;

verus! {

/// The node of the render graph that drives the simulation.
pub struct EvolveTextureNode {
    pub state: EvolveTextureState,
}

/// One dispatch, ready to be recorded into a compute pass.
pub struct ComputeDispatch<'a> {
    /// The kernel that runs.
    pub phase: Phase,
    /// The slot at which `bind_group` is bound.
    pub bind_group_slot: u32,
    pub bind_group: &'a BindGroup,
    pub pipeline: &'a ComputePipeline,
    pub workgroups: WorkgroupCount,
}

impl Default for EvolveTextureNode {
    fn default() -> (r: Self)
        ensures
            r.state is Loading,
    {
        EvolveTextureNode { state: EvolveTextureState::Loading }
    }
}

impl EvolveTextureNode {
    /// Update phase for given observations: advances the state by the
    /// status of the two pipelines.
    pub fn observe(&mut self, init: CompileStatus, process: CompileStatus)
        ensures
            final(self).state == old(self).state.next(init, process),
            old(self).state.rank() <= final(self).state.rank(),
            old(self).state is Process ==> final(self).state is Process,
    {
        self.state = self.state.advance(init, process);
    }

    /// Update phase: polls the cache for the pipeline the node waits for
    /// and advances the state. Dispatches nothing.
    pub fn update(&mut self, pipeline_cache: &PipelineCache, pipeline: &EvolveTexturePipeline)
        requires
            old(self).state is Loading ==> holds_pipeline(*pipeline_cache, pipeline.init_pipeline),
            old(self).state is Init ==> holds_pipeline(*pipeline_cache, pipeline.process_pipeline),
        ensures
            final(self).state == old(self).state.next(
                status_of(*pipeline_cache, pipeline.init_pipeline),
                status_of(*pipeline_cache, pipeline.process_pipeline),
            ),
            old(self).state.rank() <= final(self).state.rank(),
            old(self).state is Process ==> final(self).state is Process,
    {
        match self.state {
            EvolveTextureState::Loading => {
                let init = pipeline.status(pipeline_cache, Phase::Init);
                self.observe(init, CompileStatus::Pending);
            },
            EvolveTextureState::Init => {
                let process = pipeline.status(pipeline_cache, Phase::Process);
                self.observe(CompileStatus::Pending, process);
            },
            EvolveTextureState::Process => {},
        }
    }

    /// Dispatch phase: the dispatch to record on this tick, if any.
    ///
    /// Nothing is dispatched while loading, without a bind group, or when
    /// the cache holds no compiled pipeline for the current phase.
    pub fn run<'a>(
        &self,
        pipeline_cache: &'a PipelineCache,
        pipeline: &EvolveTexturePipeline,
        bind_group: &'a EvolveTextureBindGroup,
    ) -> (r: Option<ComputeDispatch<'a>>)
        requires
            dispatch_phase(self.state, bind_group.0 is Some) matches Some(phase) ==> holds_pipeline(
                *pipeline_cache,
                pipeline.pipeline_of(phase),
            ),
        ensures
            bind_group.0 is None ==> r is None,
            self.state is Loading ==> r is None,
            r is Some <==> (dispatch_phase(self.state, bind_group.0 is Some) matches Some(phase)
                && compiled_pipeline(*pipeline_cache, pipeline.pipeline_of(phase)) is Some),
            r matches Some(dispatch) ==> {
                &&& Some(dispatch.phase) == dispatch_phase(self.state, bind_group.0 is Some)
                &&& dispatch.bind_group_slot == BIND_GROUP_SLOT
                &&& Some(*dispatch.bind_group) == bind_group.0
                &&& Some(*dispatch.pipeline) == compiled_pipeline(
                    *pipeline_cache,
                    pipeline.pipeline_of(dispatch.phase),
                )
                &&& (
                    dispatch.workgroups.x as nat,
                    dispatch.workgroups.y as nat,
                    dispatch.workgroups.z as nat,
                ) == workgroups_for(TARGET_WIDTH as nat, TARGET_HEIGHT as nat)
            },
    {
        let bound = match &bind_group.0 {
            Some(bound) => bound,
            None => {
                return None;
            },
        };
        let phase = match phase_to_dispatch(self.state, true) {
            Some(phase) => phase,
            None => {
                return None;
            },
        };
        match compute_pipeline(pipeline_cache, pipeline.pipeline_for(phase)) {
            Some(compiled) => Some(
                ComputeDispatch {
                    phase,
                    bind_group_slot: BIND_GROUP_SLOT,
                    bind_group: bound,
                    pipeline: compiled,
                    workgroups: workgroup_count(TARGET_WIDTH, TARGET_HEIGHT),
                },
            ),
            None => None,
        }
    }
}

} // verus!
