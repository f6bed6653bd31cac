use vstd::prelude::*;

use crate::app_settings::{diffuse_settings_of, slime_settings_of, AppSettings};
use crate::compute_render_node::{all_programs_ready, next_state, ComputeSlimeState};
use crate::pipeline::{
    ceil_div, covers_pixels, Binding, BufferSlot, ComputeDispatch, CopyPipeline, CopyTextureView,
    DiffuseBuffers, DiffusePipeline, DrawSensorBuffers, DrawSensorPipeline, Shader,
    SlimeSimBuffers, SlimeSimPipeline, SlimeSimSetup, Texture, Workgroups, COPY_SIZE,
    DIFFUSE_SIZE, PARTICLES_PER_GROUP,
};
use crate::types::{
    agents_words, Agent, SizeSettings, TimeBuffer, AGENT_BYTES, DIFFUSE_SETTINGS_BYTES,
    SIZE_SETTINGS_BYTES, SLIME_SETTINGS_BYTES, TIME_BUFFER_BYTES,
};

verus! {

/// The nine stages of the frame graph, in the order of their numbering.
#[derive(Clone, Copy, Debug, PartialEq, Eq, Structural)]
pub enum Stage {
    /// Seeds the internal display from the host's surface (bootstrap only).
    CopyRenderDisplayToDisplay,
    CopyDisplayToTrail,
    SlimeSim,
    Diffuse,
    CopyDiffuseToDisplay,
    /// Presents the display when the sensor overlay is off.
    CopyDisplayToRenderDisplay,
    CopyDisplayToSensor,
    DrawSensor,
    /// Presents the sensor overlay when it is on.
    CopySensorToRenderDisplay,
}

/// The stages in the order of their numbering, which is also the order of
/// the program-ready checks.
pub open spec fn stage_order() -> Seq<Stage> {
    seq![
        Stage::CopyRenderDisplayToDisplay,
        Stage::CopyDisplayToTrail,
        Stage::SlimeSim,
        Stage::Diffuse,
        Stage::CopyDiffuseToDisplay,
        Stage::CopyDisplayToRenderDisplay,
        Stage::CopyDisplayToSensor,
        Stage::DrawSensor,
        Stage::CopySensorToRenderDisplay,
    ]
}

pub fn all_stages() -> (r: Vec<Stage>)
    ensures
        r@ == stage_order(),
{
    let r = vec![
        Stage::CopyRenderDisplayToDisplay,
        Stage::CopyDisplayToTrail,
        Stage::SlimeSim,
        Stage::Diffuse,
        Stage::CopyDiffuseToDisplay,
        Stage::CopyDisplayToRenderDisplay,
        Stage::CopyDisplayToSensor,
        Stage::DrawSensor,
        Stage::CopySensorToRenderDisplay,
    ];
    assert(r@ =~= stage_order());
    r
}

/// The binding set of each stage when the host presents through `view`.
pub open spec fn stage_bindings(stage: Stage, view: u64) -> Seq<Binding> {
    let host = Texture::RenderDisplay { view };
    let size = Binding::Uniform(BufferSlot::Size);
    match stage {
        Stage::CopyRenderDisplayToDisplay => seq![
            size,
            Binding::ReadTexture(host),
            Binding::WriteTexture(Texture::Display),
        ],
        Stage::CopyDisplayToTrail => seq![
            size,
            Binding::ReadTexture(Texture::Display),
            Binding::WriteTexture(Texture::Trail),
        ],
        Stage::SlimeSim => seq![
            size,
            Binding::Uniform(BufferSlot::Settings),
            Binding::Uniform(BufferSlot::Time),
            Binding::Storage(BufferSlot::Agents),
            Binding::ReadTexture(Texture::Display),
            Binding::WriteTexture(Texture::Trail),
        ],
        Stage::Diffuse => seq![
            size,
            Binding::Uniform(BufferSlot::Diffuse),
            Binding::Uniform(BufferSlot::Time),
            Binding::ReadTexture(Texture::Trail),
            Binding::WriteTexture(Texture::Diffuse),
        ],
        Stage::CopyDiffuseToDisplay => seq![
            size,
            Binding::ReadTexture(Texture::Diffuse),
            Binding::WriteTexture(Texture::Display),
        ],
        Stage::CopyDisplayToRenderDisplay => seq![
            size,
            Binding::ReadTexture(Texture::Display),
            Binding::WriteTexture(host),
        ],
        Stage::CopyDisplayToSensor => seq![
            size,
            Binding::ReadTexture(Texture::Display),
            Binding::WriteTexture(Texture::Sensor),
        ],
        Stage::DrawSensor => seq![
            size,
            Binding::Uniform(BufferSlot::Settings),
            Binding::Storage(BufferSlot::Agents),
            Binding::ReadTexture(Texture::Display),
            Binding::WriteTexture(Texture::Sensor),
        ],
        Stage::CopySensorToRenderDisplay => seq![
            size,
            Binding::ReadTexture(Texture::Sensor),
            Binding::WriteTexture(host),
        ],
    }
}

/// The program that each stage runs.
pub open spec fn stage_shader_spec(stage: Stage) -> Shader {
    match stage {
        Stage::SlimeSim => Shader::SlimeSimulation,
        Stage::Diffuse => Shader::Diffuse,
        Stage::DrawSensor => Shader::DrawSensor,
        _ => Shader::Copy,
    }
}

pub fn stage_shader(stage: Stage) -> (r: Shader)
    ensures
        r == stage_shader_spec(stage),
{
    match stage {
        Stage::SlimeSim => Shader::SlimeSimulation,
        Stage::Diffuse => Shader::Diffuse,
        Stage::DrawSensor => Shader::DrawSensor,
        _ => Shader::Copy,
    }
}

/// The binding set of `stage` when the host presents through `view`.
pub fn bindings_of(stage: Stage, view: u64) -> (r: Vec<Binding>)
    ensures
        r@ == stage_bindings(stage, view),
{
    let host = Texture::RenderDisplay { view };
    let size = Binding::Uniform(BufferSlot::Size);
    let r = match stage {
        Stage::CopyRenderDisplayToDisplay => vec![
            size,
            Binding::ReadTexture(host),
            Binding::WriteTexture(Texture::Display),
        ],
        Stage::CopyDisplayToTrail => vec![
            size,
            Binding::ReadTexture(Texture::Display),
            Binding::WriteTexture(Texture::Trail),
        ],
        Stage::SlimeSim => vec![
            size,
            Binding::Uniform(BufferSlot::Settings),
            Binding::Uniform(BufferSlot::Time),
            Binding::Storage(BufferSlot::Agents),
            Binding::ReadTexture(Texture::Display),
            Binding::WriteTexture(Texture::Trail),
        ],
        Stage::Diffuse => vec![
            size,
            Binding::Uniform(BufferSlot::Diffuse),
            Binding::Uniform(BufferSlot::Time),
            Binding::ReadTexture(Texture::Trail),
            Binding::WriteTexture(Texture::Diffuse),
        ],
        Stage::CopyDiffuseToDisplay => vec![
            size,
            Binding::ReadTexture(Texture::Diffuse),
            Binding::WriteTexture(Texture::Display),
        ],
        Stage::CopyDisplayToRenderDisplay => vec![
            size,
            Binding::ReadTexture(Texture::Display),
            Binding::WriteTexture(host),
        ],
        Stage::CopyDisplayToSensor => vec![
            size,
            Binding::ReadTexture(Texture::Display),
            Binding::WriteTexture(Texture::Sensor),
        ],
        Stage::DrawSensor => vec![
            size,
            Binding::Uniform(BufferSlot::Settings),
            Binding::Storage(BufferSlot::Agents),
            Binding::ReadTexture(Texture::Display),
            Binding::WriteTexture(Texture::Sensor),
        ],
        Stage::CopySensorToRenderDisplay => vec![
            size,
            Binding::ReadTexture(Texture::Sensor),
            Binding::WriteTexture(host),
        ],
    };
    assert(r@ =~= stage_bindings(stage, view));
    r
}

/// The stages that run in one frame, in order.
pub open spec fn frame_stages(state: ComputeSlimeState, render_sensors: bool) -> Seq<Stage> {
    match state {
        ComputeSlimeState::Init => seq![Stage::CopyRenderDisplayToDisplay],
        ComputeSlimeState::Loaded => seq![
            Stage::CopyDisplayToTrail,
            Stage::SlimeSim,
            Stage::Diffuse,
            Stage::CopyDiffuseToDisplay,
        ] + if render_sensors {
            seq![Stage::CopyDisplayToSensor, Stage::DrawSensor, Stage::CopySensorToRenderDisplay]
        } else {
            seq![Stage::CopyDisplayToRenderDisplay]
        },
    }
}

/// The resource-binding set that the host hands over each frame: the view of
/// the surface it presents, known by an identity that changes with the view.
#[derive(Clone, Copy, Debug, PartialEq, Eq, Structural)]
pub struct ComputeSlimeBindGroup {
    pub display_texture_view: u64,
}

/// The timing record of one frame.
#[derive(Clone, Copy, Debug, PartialEq, Eq, Structural)]
pub struct ComputeTimeUpdate {
    pub time_buffer: TimeBuffer,
}

/// A write of whole words into one of the shared buffers.
#[derive(Debug)]
pub struct BufferWrite {
    pub buffer: BufferSlot,
    pub words: Vec<u32>,
}

impl View for BufferWrite {
    type V = (BufferSlot, Seq<u32>);

    open spec fn view(&self) -> (BufferSlot, Seq<u32>) {
        (self.buffer, self.words@)
    }
}

impl BufferWrite {
    /// The bytes to write.
    pub fn bytes(&self) -> (r: Vec<u8>)
        ensures
            r@.len() == 4 * self.words@.len(),
    {
        crate::types::words_to_bytes(&self.words)
    }
}

pub open spec fn write_views(writes: Seq<BufferWrite>) -> Seq<(BufferSlot, Seq<u32>)> {
    writes.map_values(|w: BufferWrite| w@)
}

/// One pass of a frame: the stage it belongs to and what it dispatches.
#[derive(Debug)]
pub struct StagePass {
    pub stage: Stage,
    pub dispatch: ComputeDispatch,
}

impl View for StagePass {
    type V = (Stage, (Shader, Seq<Binding>, Workgroups));

    open spec fn view(&self) -> (Stage, (Shader, Seq<Binding>, Workgroups)) {
        (self.stage, self.dispatch@)
    }
}

pub open spec fn pass_views(passes: Seq<StagePass>) -> Seq<
    (Stage, (Shader, Seq<Binding>, Workgroups)),
> {
    passes.map_values(|p: StagePass| p@)
}

/// The simulation's stages and the sizes that its resources were made for.
///
/// The GPU objects themselves (textures, buffers, compiled programs and
/// binding sets) live with the host, keyed by `Stage`, `Texture` and
/// `BufferSlot`; this value decides what is bound, written and dispatched.
pub struct ComputeSlimePipeline {
    pub copy_render_display_to_display_pipeline: CopyPipeline,
    pub copy_display_to_trail_pipeline: CopyPipeline,
    pub slime_sim_pipeline: SlimeSimPipeline,
    pub diffuse_pipeline: DiffusePipeline,
    pub copy_diffuse_to_display_pipeline: CopyPipeline,
    pub copy_display_to_render_display_pipeline: CopyPipeline,
    pub copy_display_to_sensor_pipeline: CopyPipeline,
    pub draw_sensor_pipeline: DrawSensorPipeline,
    pub copy_sensor_to_render_display_pipeline: CopyPipeline,
    /// Width and height of every texture; fixed for the pipeline's lifetime.
    pub size: SizeSettings,
    /// Length of the agent buffer; fixed for the pipeline's lifetime.
    pub num_agents: u32,
}

impl ComputeSlimePipeline {
    /// Every stage dispatches enough workgroups to cover its domain.
    pub open spec fn wf(self) -> bool {
        &&& covers_pixels(
            self.copy_render_display_to_display_pipeline.workgroup_size,
            self.size,
            COPY_SIZE as int,
        )
        &&& covers_pixels(self.copy_display_to_trail_pipeline.workgroup_size, self.size, COPY_SIZE as int)
        &&& self.slime_sim_pipeline.workgroup_size == ceil_div(
            self.num_agents as int,
            PARTICLES_PER_GROUP as int,
        )
        &&& covers_pixels(self.diffuse_pipeline.workgroup_size, self.size, DIFFUSE_SIZE as int)
        &&& covers_pixels(self.copy_diffuse_to_display_pipeline.workgroup_size, self.size, COPY_SIZE as int)
        &&& covers_pixels(
            self.copy_display_to_render_display_pipeline.workgroup_size,
            self.size,
            COPY_SIZE as int,
        )
        &&& covers_pixels(self.copy_display_to_sensor_pipeline.workgroup_size, self.size, COPY_SIZE as int)
        &&& self.draw_sensor_pipeline.workgroup_size == ceil_div(
            self.num_agents as int,
            PARTICLES_PER_GROUP as int,
        )
        &&& covers_pixels(
            self.copy_sensor_to_render_display_pipeline.workgroup_size,
            self.size,
            COPY_SIZE as int,
        )
    }

    /// The binding set of `stage`, if it has one.
    pub open spec fn bound_entries(self, stage: Stage) -> Option<Seq<Binding>> {
        match stage {
            Stage::CopyRenderDisplayToDisplay => match self.copy_render_display_to_display_pipeline.bind_group {
                Some(b) => Some(b.entries()),
                None => None,
            },
            Stage::CopyDisplayToTrail => match self.copy_display_to_trail_pipeline.bind_group {
                Some(b) => Some(b.entries()),
                None => None,
            },
            Stage::SlimeSim => match self.slime_sim_pipeline.bind_group {
                Some(b) => Some(b.entries()),
                None => None,
            },
            Stage::Diffuse => match self.diffuse_pipeline.bind_group {
                Some(b) => Some(b.entries()),
                None => None,
            },
            Stage::CopyDiffuseToDisplay => match self.copy_diffuse_to_display_pipeline.bind_group {
                Some(b) => Some(b.entries()),
                None => None,
            },
            Stage::CopyDisplayToRenderDisplay => match self.copy_display_to_render_display_pipeline.bind_group {
                Some(b) => Some(b.entries()),
                None => None,
            },
            Stage::CopyDisplayToSensor => match self.copy_display_to_sensor_pipeline.bind_group {
                Some(b) => Some(b.entries()),
                None => None,
            },
            Stage::DrawSensor => match self.draw_sensor_pipeline.bind_group {
                Some(b) => Some(b.entries()),
                None => None,
            },
            Stage::CopySensorToRenderDisplay => match self.copy_sensor_to_render_display_pipeline.bind_group {
                Some(b) => Some(b.entries()),
                None => None,
            },
        }
    }

    /// Every stage has a binding set.
    pub open spec fn all_bound(self) -> bool {
        forall|s: Stage| (#[trigger] self.bound_entries(s)) is Some
    }

    /// Every stage is bound as the frame graph prescribes for the host view `view`.
    pub open spec fn bound_to(self, view: u64) -> bool {
        forall|s: Stage| #[trigger] self.bound_entries(s) == Some(stage_bindings(s, view))
    }

    /// What `stage` dispatches once bound.
    pub open spec fn stage_pass(self, stage: Stage) -> (Shader, Seq<Binding>, Workgroups) {
        match stage {
            Stage::CopyRenderDisplayToDisplay => self.copy_render_display_to_display_pipeline.pass(),
            Stage::CopyDisplayToTrail => self.copy_display_to_trail_pipeline.pass(),
            Stage::SlimeSim => self.slime_sim_pipeline.pass(),
            Stage::Diffuse => self.diffuse_pipeline.pass(),
            Stage::CopyDiffuseToDisplay => self.copy_diffuse_to_display_pipeline.pass(),
            Stage::CopyDisplayToRenderDisplay => self.copy_display_to_render_display_pipeline.pass(),
            Stage::CopyDisplayToSensor => self.copy_display_to_sensor_pipeline.pass(),
            Stage::DrawSensor => self.draw_sensor_pipeline.pass(),
            Stage::CopySensorToRenderDisplay => self.copy_sensor_to_render_display_pipeline.pass(),
        }
    }

    /// The passes of one frame, in order.
    pub open spec fn frame_passes(self, state: ComputeSlimeState, render_sensors: bool) -> Seq<
        (Stage, (Shader, Seq<Binding>, Workgroups)),
    > {
        frame_stages(state, render_sensors).map_values(|s: Stage| (s, self.stage_pass(s)))
    }

    /// The two parameter writes that make the GPU see `settings`.
    pub open spec fn settings_writes(self, settings: AppSettings) -> Seq<(BufferSlot, Seq<u32>)> {
        seq![
            (BufferSlot::Diffuse, diffuse_settings_of(settings).words()),
            (BufferSlot::Settings, slime_settings_of(settings, self.num_agents).words()),
        ]
    }

    /// Creates the stages for a simulation of `app_settings`' size and
    /// population; none is bound yet.
    pub fn new(app_settings: &AppSettings) -> (r: ComputeSlimePipeline)
        ensures
            r.wf(),
            r.size == app_settings.size_settings_spec(),
            r.num_agents == app_settings.num_agents,
            forall|s: Stage| (#[trigger] r.bound_entries(s)) is None,
    {
        let size = app_settings.size_settings();
        let setup = SlimeSimSetup { num_agents: app_settings.num_agents };
        ComputeSlimePipeline {
            copy_render_display_to_display_pipeline: CopyPipeline::new(&size),
            copy_display_to_trail_pipeline: CopyPipeline::new(&size),
            slime_sim_pipeline: SlimeSimPipeline::new(&setup),
            diffuse_pipeline: DiffusePipeline::new(&size),
            copy_diffuse_to_display_pipeline: CopyPipeline::new(&size),
            copy_display_to_render_display_pipeline: CopyPipeline::new(&size),
            copy_display_to_sensor_pipeline: CopyPipeline::new(&size),
            draw_sensor_pipeline: DrawSensorPipeline::new(&setup),
            copy_sensor_to_render_display_pipeline: CopyPipeline::new(&size),
            size,
            num_agents: app_settings.num_agents,
        }
    }

    /// Whether every stage has a binding set, as `execute` needs.
    pub fn all_stages_bound(&self) -> (r: bool)
        ensures
            r == self.all_bound(),
    {
        let r = self.copy_render_display_to_display_pipeline.bind_group.is_some()
            && self.copy_display_to_trail_pipeline.bind_group.is_some()
            && self.slime_sim_pipeline.bind_group.is_some()
            && self.diffuse_pipeline.bind_group.is_some()
            && self.copy_diffuse_to_display_pipeline.bind_group.is_some()
            && self.copy_display_to_render_display_pipeline.bind_group.is_some()
            && self.copy_display_to_sensor_pipeline.bind_group.is_some()
            && self.draw_sensor_pipeline.bind_group.is_some()
            && self.copy_sensor_to_render_display_pipeline.bind_group.is_some();
        proof {
            if r {
                assert forall|st: Stage| (#[trigger] self.bound_entries(st)) is Some by {
                    match st {
                        Stage::CopyRenderDisplayToDisplay => {},
                        Stage::CopyDisplayToTrail => {},
                        Stage::SlimeSim => {},
                        Stage::Diffuse => {},
                        Stage::CopyDiffuseToDisplay => {},
                        Stage::CopyDisplayToRenderDisplay => {},
                        Stage::CopyDisplayToSensor => {},
                        Stage::DrawSensor => {},
                        Stage::CopySensorToRenderDisplay => {},
                    }
                }
            } else {
                assert(!(self.bound_entries(Stage::CopyRenderDisplayToDisplay) is Some)
                    || !(self.bound_entries(Stage::CopyDisplayToTrail) is Some)
                    || !(self.bound_entries(Stage::SlimeSim) is Some)
                    || !(self.bound_entries(Stage::Diffuse) is Some)
                    || !(self.bound_entries(Stage::CopyDiffuseToDisplay) is Some)
                    || !(self.bound_entries(Stage::CopyDisplayToRenderDisplay) is Some)
                    || !(self.bound_entries(Stage::CopyDisplayToSensor) is Some)
                    || !(self.bound_entries(Stage::DrawSensor) is Some)
                    || !(self.bound_entries(Stage::CopySensorToRenderDisplay) is Some));
            }
        }
        r
    }

    /// Bytes of each shared buffer: one record each, and one agent record
    /// per agent for the agent buffer.
    pub fn buffer_size(&self, buffer: BufferSlot) -> (r: u64)
        ensures
            r == match buffer {
                BufferSlot::Size => SIZE_SETTINGS_BYTES as int,
                BufferSlot::Settings => SLIME_SETTINGS_BYTES as int,
                BufferSlot::Diffuse => DIFFUSE_SETTINGS_BYTES as int,
                BufferSlot::Time => TIME_BUFFER_BYTES as int,
                BufferSlot::Agents => AGENT_BYTES * self.num_agents,
            },
    {
        match buffer {
            BufferSlot::Size => SIZE_SETTINGS_BYTES,
            BufferSlot::Settings => SLIME_SETTINGS_BYTES,
            BufferSlot::Diffuse => DIFFUSE_SETTINGS_BYTES,
            BufferSlot::Time => TIME_BUFFER_BYTES,
            BufferSlot::Agents => AGENT_BYTES * self.num_agents as u64,
        }
    }

    /// Binds every stage to its resources, the host's surface through the
    /// view in `settings`. Must run again whenever that view changes.
    pub fn queue_bind_group(&mut self, settings: &ComputeSlimeBindGroup)
        requires
            old(self).wf(),
        ensures
            final(self).wf(),
            final(self).size == old(self).size,
            final(self).num_agents == old(self).num_agents,
            final(self).bound_to(settings.display_texture_view),
            final(self).all_bound(),
    {
        let host = Texture::RenderDisplay { view: settings.display_texture_view };
        self.copy_render_display_to_display_pipeline.queue_bind_group(
            &CopyTextureView {
                size_buffer: BufferSlot::Size,
                texture_view_read: host,
                texture_view_write: Texture::Display,
            },
        );
        self.copy_display_to_trail_pipeline.queue_bind_group(
            &CopyTextureView {
                size_buffer: BufferSlot::Size,
                texture_view_read: Texture::Display,
                texture_view_write: Texture::Trail,
            },
        );
        self.slime_sim_pipeline.queue_bind_group(
            &SlimeSimBuffers {
                size_buffers: BufferSlot::Size,
                agents_buffer: BufferSlot::Agents,
                settings_buffer: BufferSlot::Settings,
                time_buffer: BufferSlot::Time,
                texture_view_read: Texture::Display,
                texture_view_write: Texture::Trail,
            },
        );
        self.diffuse_pipeline.queue_bind_group(
            &DiffuseBuffers {
                size_buffer: BufferSlot::Size,
                diffuse_buffer: BufferSlot::Diffuse,
                time_buffer: BufferSlot::Time,
                trail_texture: Texture::Trail,
                diffuse_texture: Texture::Diffuse,
            },
        );
        self.copy_diffuse_to_display_pipeline.queue_bind_group(
            &CopyTextureView {
                size_buffer: BufferSlot::Size,
                texture_view_read: Texture::Diffuse,
                texture_view_write: Texture::Display,
            },
        );
        self.copy_display_to_render_display_pipeline.queue_bind_group(
            &CopyTextureView {
                size_buffer: BufferSlot::Size,
                texture_view_read: Texture::Display,
                texture_view_write: host,
            },
        );
        self.copy_display_to_sensor_pipeline.queue_bind_group(
            &CopyTextureView {
                size_buffer: BufferSlot::Size,
                texture_view_read: Texture::Display,
                texture_view_write: Texture::Sensor,
            },
        );
        self.draw_sensor_pipeline.queue_bind_group(
            &DrawSensorBuffers {
                size_buffers: BufferSlot::Size,
                settings_buffer: BufferSlot::Settings,
                agents_buffer: BufferSlot::Agents,
                texture_view_read: Texture::Display,
                texture_view_write: Texture::Sensor,
            },
        );
        self.copy_sensor_to_render_display_pipeline.queue_bind_group(
            &CopyTextureView {
                size_buffer: BufferSlot::Size,
                texture_view_read: Texture::Sensor,
                texture_view_write: host,
            },
        );
        proof {
            let v = settings.display_texture_view;
            assert forall|st: Stage| #[trigger] self.bound_entries(st) == Some(stage_bindings(st, v)) by {
                match st {
                    Stage::CopyRenderDisplayToDisplay => {},
                    Stage::CopyDisplayToTrail => {},
                    Stage::SlimeSim => {},
                    Stage::Diffuse => {},
                    Stage::CopyDiffuseToDisplay => {},
                    Stage::CopyDisplayToRenderDisplay => {},
                    Stage::CopyDisplayToSensor => {},
                    Stage::DrawSensor => {},
                    Stage::CopySensorToRenderDisplay => {},
                }
            }
        }
    }

    /// Records the pass of one stage.
    pub fn execute_stage(&self, stage: Stage) -> (r: StagePass)
        requires
            self.bound_entries(stage) is Some,
        ensures
            r@ == (stage, self.stage_pass(stage)),
    {
        let dispatch = match stage {
            Stage::CopyRenderDisplayToDisplay => self.copy_render_display_to_display_pipeline.execute(),
            Stage::CopyDisplayToTrail => self.copy_display_to_trail_pipeline.execute(),
            Stage::SlimeSim => self.slime_sim_pipeline.execute(),
            Stage::Diffuse => self.diffuse_pipeline.execute(),
            Stage::CopyDiffuseToDisplay => self.copy_diffuse_to_display_pipeline.execute(),
            Stage::CopyDisplayToRenderDisplay => self.copy_display_to_render_display_pipeline.execute(),
            Stage::CopyDisplayToSensor => self.copy_display_to_sensor_pipeline.execute(),
            Stage::DrawSensor => self.draw_sensor_pipeline.execute(),
            Stage::CopySensorToRenderDisplay => self.copy_sensor_to_render_display_pipeline.execute(),
        };
        StagePass { stage, dispatch }
    }

    /// The passes of one frame: the bootstrap copy while programs compile;
    /// afterwards the simulation, then one of the two presentation branches
    /// as `app_settings.render_sensors` selects.
    pub fn execute(&self, state: &ComputeSlimeState, app_settings: &AppSettings) -> (r: Vec<StagePass>)
        requires
            self.all_bound(),
        ensures
            pass_views(r@) == self.frame_passes(*state, app_settings.render_sensors),
    {
        let mut passes: Vec<StagePass> = Vec::new();
        match state {
            ComputeSlimeState::Init => {
                passes.push(self.execute_stage(Stage::CopyRenderDisplayToDisplay));
            },
            ComputeSlimeState::Loaded => {
                passes.push(self.execute_stage(Stage::CopyDisplayToTrail));
                passes.push(self.execute_stage(Stage::SlimeSim));
                passes.push(self.execute_stage(Stage::Diffuse));
                passes.push(self.execute_stage(Stage::CopyDiffuseToDisplay));
                if app_settings.render_sensors {
                    passes.push(self.execute_stage(Stage::CopyDisplayToSensor));
                    passes.push(self.execute_stage(Stage::DrawSensor));
                    passes.push(self.execute_stage(Stage::CopySensorToRenderDisplay));
                } else {
                    passes.push(self.execute_stage(Stage::CopyDisplayToRenderDisplay));
                }
            },
        }
        assert(pass_views(passes@) =~= self.frame_passes(*state, app_settings.render_sensors));
        passes
    }

    /// The parameter writes for edited settings. The population size written
    /// is the pipeline's own, so that it always matches the agent buffer.
    pub fn update_settings(&self, app_settings: &AppSettings) -> (r: Vec<BufferWrite>)
        ensures
            write_views(r@) == self.settings_writes(*app_settings),
    {
        let diffuse = app_settings.diffuse_settings();
        let slime = app_settings.slime_settings(self.num_agents);
        let r = vec![
            BufferWrite { buffer: BufferSlot::Diffuse, words: diffuse.to_words() },
            BufferWrite { buffer: BufferSlot::Settings, words: slime.to_words() },
        ];
        assert(write_views(r@) =~= self.settings_writes(*app_settings));
        r
    }

    /// The write of one frame's timing.
    pub fn update_time(&self, update: &ComputeTimeUpdate) -> (r: BufferWrite)
        ensures
            r@ == (BufferSlot::Time, update.time_buffer.words()),
    {
        BufferWrite { buffer: BufferSlot::Time, words: update.time_buffer.to_words() }
    }

    /// One readiness check: `ready` holds, in stage order, whether each
    /// stage's program has compiled.
    pub fn update_state(&self, ready: &[bool; 9], state: &mut ComputeSlimeState)
        ensures
            *final(state) == next_state(*old(state), ready@),
    {
        match state {
            ComputeSlimeState::Init => {
                if all_programs_ready(ready) {
                    *state = ComputeSlimeState::Loaded;
                }
            },
            ComputeSlimeState::Loaded => {},
        }
    }

    /// The initial contents of the five shared buffers: the agents, the
    /// size, the diffusion and simulation parameters, and a zero time.
    pub fn initial_buffers(&self, app_settings: &AppSettings, agents: &Vec<Agent>) -> (r: Vec<BufferWrite>)
        requires
            agents@.len() == self.num_agents,
        ensures
            write_views(r@) == seq![
                (BufferSlot::Agents, agents_words(agents@)),
                (BufferSlot::Size, self.size.words()),
                (BufferSlot::Diffuse, diffuse_settings_of(*app_settings).words()),
                (BufferSlot::Settings, slime_settings_of(*app_settings, self.num_agents).words()),
                (BufferSlot::Time, seq![0u32, 0u32]),
            ],
    {
        let time = TimeBuffer { time: 0, delta_time: 0 };
        let r = vec![
            BufferWrite { buffer: BufferSlot::Agents, words: crate::types::agents_to_words(agents) },
            BufferWrite { buffer: BufferSlot::Size, words: self.size.to_words() },
            BufferWrite { buffer: BufferSlot::Diffuse, words: app_settings.diffuse_settings().to_words() },
            BufferWrite {
                buffer: BufferSlot::Settings,
                words: app_settings.slime_settings(self.num_agents).to_words(),
            },
            BufferWrite { buffer: BufferSlot::Time, words: time.to_words() },
        ];
        assert(write_views(r@) =~= seq![
            (BufferSlot::Agents, agents_words(agents@)),
            (BufferSlot::Size, self.size.words()),
            (BufferSlot::Diffuse, diffuse_settings_of(*app_settings).words()),
            (BufferSlot::Settings, slime_settings_of(*app_settings, self.num_agents).words()),
            (BufferSlot::Time, seq![0u32, 0u32]),
        ]);
        r
    }
}

} // verus!
