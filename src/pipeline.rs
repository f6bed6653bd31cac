use vstd::prelude::*;

use crate::types::SizeSettings;

verus! {

/// Side of the square tile of pixels that one workgroup of a copy stage covers.
pub const COPY_SIZE: u32 = 8;
/// Side of the square tile of pixels that one workgroup of the diffusion stage covers.
pub const DIFFUSE_SIZE: u32 = 8;
/// Agents handled by one workgroup of a per-agent stage.
pub const PARTICLES_PER_GROUP: u32 = 64;

/// The smallest number of groups of `d` that covers `a` items.
pub open spec fn ceil_div(a: int, d: int) -> int {
    (a + d - 1) / d
}

/// A per-pixel stage's workgroups cover a surface of `size` in tiles of `tile`.
pub open spec fn covers_pixels(workgroups: (u32, u32), size: SizeSettings, tile: int) -> bool {
    &&& workgroups.0 == ceil_div(size.width as int, tile)
    &&& workgroups.1 == ceil_div(size.height as int, tile)
}

/// Workgroups that cover `n` items, `d` per group.
pub fn workgroups_for(n: u32, d: u32) -> (r: u32)
    requires
        d > 0,
    ensures
        r == ceil_div(n as int, d as int),
{
    let r = (n as u64 + d as u64 - 1) / d as u64;
    proof {
        let (a, b) = (n as int, d as int);
        assert((a + b - 1) / b <= a) by (nonlinear_arith)
            requires
                a >= 0,
                b >= 1,
        {
            if a == 0 {
            } else {
                assert(a + b - 1 <= a * b);
            }
        }
    }
    r as u32
}

/// A GPU texture that a stage binds.
#[derive(Clone, Copy, Debug, PartialEq, Eq, Structural)]
pub enum Texture {
    /// The surface that the host presents, known by the identity of its current view.
    RenderDisplay { view: u64 },
    Display,
    Trail,
    Diffuse,
    Sensor,
}

/// A GPU buffer that a stage binds.
#[derive(Clone, Copy, Debug, PartialEq, Eq, Structural)]
pub enum BufferSlot {
    Size,
    Settings,
    Diffuse,
    Time,
    Agents,
}

/// One entry of a resource-binding set; the position of the entry is its slot.
#[derive(Clone, Copy, Debug, PartialEq, Eq, Structural)]
pub enum Binding {
    Uniform(BufferSlot),
    Storage(BufferSlot),
    ReadTexture(Texture),
    WriteTexture(Texture),
}

/// The compute program of a stage.
#[derive(Clone, Copy, Debug, PartialEq, Eq, Structural)]
pub enum Shader {
    Copy,
    Diffuse,
    SlimeSimulation,
    DrawSensor,
}

/// Workgroup counts of a dispatch along each axis.
#[derive(Clone, Copy, Debug, PartialEq, Eq, Structural)]
pub struct Workgroups {
    pub x: u32,
    pub y: u32,
    pub z: u32,
}

/// One recorded compute pass: the program, its binding set at slot 0 and the
/// workgroup counts dispatched.
#[derive(Debug)]
pub struct ComputeDispatch {
    pub shader: Shader,
    pub bindings: Vec<Binding>,
    pub workgroups: Workgroups,
}

impl View for ComputeDispatch {
    type V = (Shader, Seq<Binding>, Workgroups);

    open spec fn view(&self) -> (Shader, Seq<Binding>, Workgroups) {
        (self.shader, self.bindings@, self.workgroups)
    }
}

/// Resources of a copy stage: the size record, a texture it reads and one it writes.
#[derive(Clone, Copy, Debug, PartialEq, Eq, Structural)]
pub struct CopyTextureView {
    pub size_buffer: BufferSlot,
    pub texture_view_read: Texture,
    pub texture_view_write: Texture,
}

impl CopyTextureView {
    pub open spec fn entries(self) -> Seq<Binding> {
        seq![
            Binding::Uniform(self.size_buffer),
            Binding::ReadTexture(self.texture_view_read),
            Binding::WriteTexture(self.texture_view_write),
        ]
    }

    pub fn to_entries(&self) -> (r: Vec<Binding>)
        ensures
            r@ == self.entries(),
    {
        vec![
            Binding::Uniform(self.size_buffer),
            Binding::ReadTexture(self.texture_view_read),
            Binding::WriteTexture(self.texture_view_write),
        ]
    }
}

/// Resources of the diffusion stage: it reads the trail and writes the diffused trail.
#[derive(Clone, Copy, Debug, PartialEq, Eq, Structural)]
pub struct DiffuseBuffers {
    pub size_buffer: BufferSlot,
    pub diffuse_buffer: BufferSlot,
    pub time_buffer: BufferSlot,
    pub trail_texture: Texture,
    pub diffuse_texture: Texture,
}

impl DiffuseBuffers {
    pub open spec fn entries(self) -> Seq<Binding> {
        seq![
            Binding::Uniform(self.size_buffer),
            Binding::Uniform(self.diffuse_buffer),
            Binding::Uniform(self.time_buffer),
            Binding::ReadTexture(self.trail_texture),
            Binding::WriteTexture(self.diffuse_texture),
        ]
    }

    pub fn to_entries(&self) -> (r: Vec<Binding>)
        ensures
            r@ == self.entries(),
    {
        vec![
            Binding::Uniform(self.size_buffer),
            Binding::Uniform(self.diffuse_buffer),
            Binding::Uniform(self.time_buffer),
            Binding::ReadTexture(self.trail_texture),
            Binding::WriteTexture(self.diffuse_texture),
        ]
    }
}

/// What the agent stage is created from: the size of the population.
#[derive(Clone, Copy, Debug, PartialEq, Eq, Structural)]
pub struct SlimeSimSetup {
    pub num_agents: u32,
}

/// Resources of the agent stage: it moves the agents, reading the display and
/// writing their trail.
#[derive(Clone, Copy, Debug, PartialEq, Eq, Structural)]
pub struct SlimeSimBuffers {
    pub texture_view_read: Texture,
    pub texture_view_write: Texture,
    pub agents_buffer: BufferSlot,
    pub settings_buffer: BufferSlot,
    pub time_buffer: BufferSlot,
    pub size_buffers: BufferSlot,
}

impl SlimeSimBuffers {
    pub open spec fn entries(self) -> Seq<Binding> {
        seq![
            Binding::Uniform(self.size_buffers),
            Binding::Uniform(self.settings_buffer),
            Binding::Uniform(self.time_buffer),
            Binding::Storage(self.agents_buffer),
            Binding::ReadTexture(self.texture_view_read),
            Binding::WriteTexture(self.texture_view_write),
        ]
    }

    pub fn to_entries(&self) -> (r: Vec<Binding>)
        ensures
            r@ == self.entries(),
    {
        vec![
            Binding::Uniform(self.size_buffers),
            Binding::Uniform(self.settings_buffer),
            Binding::Uniform(self.time_buffer),
            Binding::Storage(self.agents_buffer),
            Binding::ReadTexture(self.texture_view_read),
            Binding::WriteTexture(self.texture_view_write),
        ]
    }
}

/// Resources of the sensor overlay stage: it draws what each agent senses.
#[derive(Clone, Copy, Debug, PartialEq, Eq, Structural)]
pub struct DrawSensorBuffers {
    pub size_buffers: BufferSlot,
    pub settings_buffer: BufferSlot,
    pub agents_buffer: BufferSlot,
    pub texture_view_read: Texture,
    pub texture_view_write: Texture,
}

impl DrawSensorBuffers {
    pub open spec fn entries(self) -> Seq<Binding> {
        seq![
            Binding::Uniform(self.size_buffers),
            Binding::Uniform(self.settings_buffer),
            Binding::Storage(self.agents_buffer),
            Binding::ReadTexture(self.texture_view_read),
            Binding::WriteTexture(self.texture_view_write),
        ]
    }

    pub fn to_entries(&self) -> (r: Vec<Binding>)
        ensures
            r@ == self.entries(),
    {
        vec![
            Binding::Uniform(self.size_buffers),
            Binding::Uniform(self.settings_buffer),
            Binding::Storage(self.agents_buffer),
            Binding::ReadTexture(self.texture_view_read),
            Binding::WriteTexture(self.texture_view_write),
        ]
    }
}

/// A per-pixel stage that copies one texture into another.
pub struct CopyPipeline {
    pub bind_group: Option<CopyTextureView>,
    pub workgroup_size: (u32, u32),
}

impl CopyPipeline {
    /// Its pass once bound.
    pub open spec fn pass(self) -> (Shader, Seq<Binding>, Workgroups) {
        (
            Shader::Copy,
            self.bind_group->Some_0.entries(),
            Workgroups { x: self.workgroup_size.0, y: self.workgroup_size.1, z: 1 },
        )
    }

    pub fn new(settings: &SizeSettings) -> (r: CopyPipeline)
        ensures
            r.bind_group is None,
            covers_pixels(r.workgroup_size, *settings, COPY_SIZE as int),
    {
        CopyPipeline {
            bind_group: None,
            workgroup_size: (
                workgroups_for(settings.width, COPY_SIZE),
                workgroups_for(settings.height, COPY_SIZE),
            ),
        }
    }

    pub fn queue_bind_group(&mut self, settings: &CopyTextureView)
        ensures
            final(self).bind_group == Some(*settings),
            final(self).workgroup_size == old(self).workgroup_size,
    {
        self.bind_group = Some(*settings);
    }

    pub fn execute(&self) -> (r: ComputeDispatch)
        requires
            self.bind_group is Some,
        ensures
            r@ == self.pass(),
    {
        let bindings = match &self.bind_group {
            Some(b) => b.to_entries(),
            None => Vec::new(),
        };
        ComputeDispatch {
            shader: Shader::Copy,
            bindings,
            workgroups: Workgroups { x: self.workgroup_size.0, y: self.workgroup_size.1, z: 1 },
        }
    }
}

/// The per-pixel stage that blurs and fades the trail.
pub struct DiffusePipeline {
    pub bind_group: Option<DiffuseBuffers>,
    pub workgroup_size: (u32, u32),
}

impl DiffusePipeline {
    /// Its pass once bound.
    pub open spec fn pass(self) -> (Shader, Seq<Binding>, Workgroups) {
        (
            Shader::Diffuse,
            self.bind_group->Some_0.entries(),
            Workgroups { x: self.workgroup_size.0, y: self.workgroup_size.1, z: 1 },
        )
    }

    pub fn new(settings: &SizeSettings) -> (r: DiffusePipeline)
        ensures
            r.bind_group is None,
            covers_pixels(r.workgroup_size, *settings, DIFFUSE_SIZE as int),
    {
        DiffusePipeline {
            bind_group: None,
            workgroup_size: (
                workgroups_for(settings.width, DIFFUSE_SIZE),
                workgroups_for(settings.height, DIFFUSE_SIZE),
            ),
        }
    }

    pub fn queue_bind_group(&mut self, settings: &DiffuseBuffers)
        ensures
            final(self).bind_group == Some(*settings),
            final(self).workgroup_size == old(self).workgroup_size,
    {
        self.bind_group = Some(*settings);
    }

    pub fn execute(&self) -> (r: ComputeDispatch)
        requires
            self.bind_group is Some,
        ensures
            r@ == self.pass(),
    {
        let bindings = match &self.bind_group {
            Some(b) => b.to_entries(),
            None => Vec::new(),
        };
        ComputeDispatch {
            shader: Shader::Diffuse,
            bindings,
            workgroups: Workgroups { x: self.workgroup_size.0, y: self.workgroup_size.1, z: 1 },
        }
    }
}

/// The per-agent stage that moves the agents and lays their trail.
pub struct SlimeSimPipeline {
    pub bind_group: Option<SlimeSimBuffers>,
    pub workgroup_size: u32,
}

impl SlimeSimPipeline {
    /// Its pass once bound.
    pub open spec fn pass(self) -> (Shader, Seq<Binding>, Workgroups) {
        (
            Shader::SlimeSimulation,
            self.bind_group->Some_0.entries(),
            Workgroups { x: self.workgroup_size, y: 1, z: 1 },
        )
    }

    pub fn new(settings: &SlimeSimSetup) -> (r: SlimeSimPipeline)
        ensures
            r.bind_group is None,
            r.workgroup_size == ceil_div(settings.num_agents as int, PARTICLES_PER_GROUP as int),
    {
        SlimeSimPipeline {
            bind_group: None,
            workgroup_size: workgroups_for(settings.num_agents, PARTICLES_PER_GROUP),
        }
    }

    pub fn queue_bind_group(&mut self, buffers: &SlimeSimBuffers)
        ensures
            final(self).bind_group == Some(*buffers),
            final(self).workgroup_size == old(self).workgroup_size,
    {
        self.bind_group = Some(*buffers);
    }

    pub fn execute(&self) -> (r: ComputeDispatch)
        requires
            self.bind_group is Some,
        ensures
            r@ == self.pass(),
    {
        let bindings = match &self.bind_group {
            Some(b) => b.to_entries(),
            None => Vec::new(),
        };
        ComputeDispatch {
            shader: Shader::SlimeSimulation,
            bindings,
            workgroups: Workgroups { x: self.workgroup_size, y: 1, z: 1 },
        }
    }
}

/// The per-agent stage that draws each agent's sensors over the display.
pub struct DrawSensorPipeline {
    pub bind_group: Option<DrawSensorBuffers>,
    pub workgroup_size: u32,
}

impl DrawSensorPipeline {
    /// Its pass once bound.
    pub open spec fn pass(self) -> (Shader, Seq<Binding>, Workgroups) {
        (
            Shader::DrawSensor,
            self.bind_group->Some_0.entries(),
            Workgroups { x: self.workgroup_size, y: 1, z: 1 },
        )
    }

    pub fn new(settings: &SlimeSimSetup) -> (r: DrawSensorPipeline)
        ensures
            r.bind_group is None,
            r.workgroup_size == ceil_div(settings.num_agents as int, PARTICLES_PER_GROUP as int),
    {
        DrawSensorPipeline {
            bind_group: None,
            workgroup_size: workgroups_for(settings.num_agents, PARTICLES_PER_GROUP),
        }
    }

    pub fn queue_bind_group(&mut self, buffers: &DrawSensorBuffers)
        ensures
            final(self).bind_group == Some(*buffers),
            final(self).workgroup_size == old(self).workgroup_size,
    {
        self.bind_group = Some(*buffers);
    }

    pub fn execute(&self) -> (r: ComputeDispatch)
        requires
            self.bind_group is Some,
        ensures
            r@ == self.pass(),
    {
        let bindings = match &self.bind_group {
            Some(b) => b.to_entries(),
            None => Vec::new(),
        };
        ComputeDispatch {
            shader: Shader::DrawSensor,
            bindings,
            workgroups: Workgroups { x: self.workgroup_size, y: 1, z: 1 },
        }
    }
}

} // verus!
