//! Readiness state machine and source composition for a GPU-resident
//! cellular-simulation texture.

pub mod assembler;
pub mod bind_group;
pub mod cache;
pub mod dispatch;
pub mod node;
pub mod pipeline;
pub mod plugin;
pub mod state;
pub mod text;

pub use assembler::{
    assemble, field_name, field_names_listing, resource_bindings, FieldFragment,
    GeneratedKernelSource, KernelTemplate, ResourceBinding,
};
pub use bind_group::{
    queue_bind_group, queue_prepared_bind_group, retain_bind_group, DisplayEvolveTexture,
    EvolveTextureBindGroup, PrimaryEvolveTexture, SecondaryEvolveTexture, TextureBinding,
};
pub use dispatch::{Phase, WorkgroupCount};
pub use node::{ComputeDispatch, EvolveTextureNode};
pub use pipeline::EvolveTexturePipeline;
pub use plugin::EvolveTexturePlugin;
pub use state::{CompileStatus, EvolveTextureState};
