//! Orchestration model of a GPU slime-mould simulation: the byte layouts of
//! the records its compute passes share, the stages that run them, the
//! readiness state machine that gates the frame graph, and the frame graph
//! itself.

pub mod agents;
pub mod app_settings;
pub mod compute_render_node;
pub mod compute_slime_pipeline;
pub mod pipeline;
pub mod types;

pub use agents::{agent_seeds, AgentSeed};
pub use app_settings::{AgentDistribution, AppPreset, AppSettings};
pub use compute_render_node::{all_programs_ready, ComputeRenderNode, ComputeSlimeState};
pub use compute_slime_pipeline::{
    all_stages, bindings_of, stage_shader, BufferWrite, ComputeSlimeBindGroup, ComputeSlimePipeline, ComputeTimeUpdate, Stage,
    StagePass,
};
pub use pipeline::{
    workgroups_for, Binding, BufferSlot, ComputeDispatch, CopyPipeline, CopyTextureView,
    DiffuseBuffers, DiffusePipeline, DrawSensorBuffers, DrawSensorPipeline, Shader,
    SlimeSimBuffers, SlimeSimPipeline, SlimeSimSetup, Texture, Workgroups,
};
pub use types::{
    agents_to_words, words_to_bytes, Agent, DiffuseSettings, F32Bits, SizeSettings,
    SlimeSettings, SpeciesSettings, TimeBuffer,
};
