//! What the execution node dispatches, and when.

use crate::state::EvolveTextureState;
use vstd::prelude::*;

verus! {

/// Width of the target texture, in texels.
pub const TARGET_WIDTH: u32 = 320;

/// Height of the target texture, in texels.
pub const TARGET_HEIGHT: u32 = 240;

/// Edge length of the square tile that one workgroup covers.
pub const WORKGROUP_SIZE: u32 = 8;

/// The slot at which the bind group is bound for a dispatch.
pub const BIND_GROUP_SLOT: u32 = 0;

/// Entry point of the initialization kernel.
pub const INIT_ENTRY_POINT: &'static str = "init";

/// Entry point of the evolution kernel.
pub const PROCESS_ENTRY_POINT: &'static str = "process";

/// One of the two kernels of the composed shader.
#[derive(Clone, Copy, Debug, PartialEq, Eq, Structural)]
pub enum Phase {
    /// One-time initialization.
    Init,
    /// Per-step evolution.
    Process,
}

/// The number of workgroups of one dispatch, by axis.
#[derive(Clone, Copy, Debug, PartialEq, Eq, Structural)]
pub struct WorkgroupCount {
    pub x: u32,
    pub y: u32,
    pub z: u32,
}

/// The number of tiles needed to cover `extent` texels: `extent / 8`,
/// rounded up.
pub open spec fn tiles(extent: nat) -> nat {
    (extent + 7) / 8
}

/// The workgroups that cover a target of the given size with one layer of
/// tiles.
pub open spec fn workgroups_for(width: nat, height: nat) -> (nat, nat, nat) {
    (tiles(width), tiles(height), 1)
}

/// The kernel to dispatch in `state`, if any: none while loading, and none
/// without a bind group.
pub open spec fn dispatch_phase(state: EvolveTextureState, bind_group_present: bool) -> Option<
    Phase,
> {
    if !bind_group_present {
        None
    } else {
        match state {
            EvolveTextureState::Loading => None,
            EvolveTextureState::Init => Some(Phase::Init),
            EvolveTextureState::Process => Some(Phase::Process),
        }
    }
}

impl Phase {
    /// The name of the entry point that is compiled for this phase.
    pub open spec fn entry_point_name(self) -> Seq<char> {
        match self {
            Phase::Init => INIT_ENTRY_POINT@,
            Phase::Process => PROCESS_ENTRY_POINT@,
        }
    }

    /// The name of the entry point that is compiled for this phase.
    pub fn entry_point(self) -> (r: &'static str)
        ensures
            r@ == self.entry_point_name(),
    {
        match self {
            Phase::Init => INIT_ENTRY_POINT,
            Phase::Process => PROCESS_ENTRY_POINT,
        }
    }
}

/// The number of tiles needed to cover `extent` texels.
pub fn tile_count(extent: u32) -> (r: u32)
    ensures
        r == tiles(extent as nat),
{
    let whole = extent / WORKGROUP_SIZE;
    if extent % WORKGROUP_SIZE == 0 {
        whole
    } else {
        whole + 1
    }
}

/// The workgroups of one dispatch over a target of the given size.
pub fn workgroup_count(width: u32, height: u32) -> (r: WorkgroupCount)
    ensures
        (r.x as nat, r.y as nat, r.z as nat) == workgroups_for(width as nat, height as nat),
{
    WorkgroupCount { x: tile_count(width), y: tile_count(height), z: 1 }
}

/// The kernel to dispatch in `state`, if any.
pub fn phase_to_dispatch(state: EvolveTextureState, bind_group_present: bool) -> (r: Option<Phase>)
    ensures
        r == dispatch_phase(state, bind_group_present),
{
    if !bind_group_present {
        return None;
    }
    match state {
        EvolveTextureState::Loading => None,
        EvolveTextureState::Init => Some(Phase::Init),
        EvolveTextureState::Process => Some(Phase::Process),
    }
}

/// `tiles(extent)` is the least number of tiles of eight texels that
/// cover `extent` texels.
pub proof fn lemma_tiles_least_cover(extent: nat)
    ensures
        tiles(extent) * 8 >= extent,
        tiles(extent) > 0 ==> (tiles(extent) - 1) * 8 < extent,
        extent == 0 ==> tiles(extent) == 0,
{
}

/// Without a bind group nothing is dispatched, whatever the state; while
/// loading nothing is dispatched, with or without a bind group.
pub proof fn lemma_dispatch_gated(state: EvolveTextureState, bind_group_present: bool)
    ensures
        !bind_group_present ==> dispatch_phase(state, bind_group_present) is None,
        state is Loading ==> dispatch_phase(state, bind_group_present) is None,
        dispatch_phase(state, bind_group_present) is Some <==> bind_group_present && !(state is Loading),
{
}

} // verus!
