use vstd::prelude::*;

verus! {

/// The IEEE-754 bit pattern of an `f32` lane of a GPU record.
pub type F32Bits = u32;

/// Texture dimensions shared by every per-pixel stage.
#[derive(Clone, Copy, Debug, PartialEq, Eq, Structural)]
pub struct SizeSettings {
    pub width: u32,
    pub height: u32,
}

/// One simulated agent as the agent buffer stores it.
#[derive(Clone, Copy, Debug)]
pub struct Agent {
    pub position: [F32Bits; 2],
    pub angle: F32Bits,
    pub species_index: u32,
}

/// Behaviour of one of the four species.
#[derive(Clone, Copy, Debug, PartialEq, Eq, Structural)]
pub struct SpeciesSettings {
    pub move_speed: F32Bits,
    pub turn_speed: F32Bits,
    pub sensor_angle_spacing: F32Bits,
    pub sensor_offset_dst: F32Bits,
    pub sensor_size: u32,
    pub memory_offset_1: u32,
    pub memory_offset_2: u32,
    pub memory_offset_3: u32,
}

/// Global simulation parameters read by the agent and overlay stages.
#[derive(Clone, Copy, Debug)]
pub struct SlimeSettings {
    pub num_agents: u32,
    pub trail_weight: F32Bits,
    pub memory_offset_1: u32,
    pub memory_offset_2: u32,
    pub species_settings: [SpeciesSettings; 4],
}

/// Parameters of the diffusion stage.
#[derive(Clone, Copy, Debug, PartialEq, Eq, Structural)]
pub struct DiffuseSettings {
    pub decay_rate: F32Bits,
    pub diffuse_rate: F32Bits,
}

/// Per-frame timing: seconds since start-up and seconds since the last frame.
#[derive(Clone, Copy, Debug, PartialEq, Eq, Structural)]
pub struct TimeBuffer {
    pub time: F32Bits,
    pub delta_time: F32Bits,
}

/// Bytes of each record on the GPU: four per word, no padding.
pub const SIZE_SETTINGS_BYTES: u64 = 8;
pub const SPECIES_SETTINGS_BYTES: u64 = 32;
pub const SLIME_SETTINGS_BYTES: u64 = 144;
pub const DIFFUSE_SETTINGS_BYTES: u64 = 8;
pub const TIME_BUFFER_BYTES: u64 = 8;
pub const AGENT_BYTES: u64 = 16;

impl SizeSettings {
    pub open spec fn words(self) -> Seq<u32> {
        seq![self.width, self.height]
    }

    pub fn to_words(&self) -> (r: Vec<u32>)
        ensures
            r@ == self.words(),
            4 * r@.len() == SIZE_SETTINGS_BYTES,
    {
        vec![self.width, self.height]
    }
}

impl SpeciesSettings {
    pub open spec fn words(self) -> Seq<u32> {
        seq![
            self.move_speed,
            self.turn_speed,
            self.sensor_angle_spacing,
            self.sensor_offset_dst,
            self.sensor_size,
            self.memory_offset_1,
            self.memory_offset_2,
            self.memory_offset_3,
        ]
    }

    /// Appends this record's words to `out`.
    pub fn push_words(&self, out: &mut Vec<u32>)
        ensures
            final(out)@ == old(out)@ + self.words(),
    {
        out.push(self.move_speed);
        out.push(self.turn_speed);
        out.push(self.sensor_angle_spacing);
        out.push(self.sensor_offset_dst);
        out.push(self.sensor_size);
        out.push(self.memory_offset_1);
        out.push(self.memory_offset_2);
        out.push(self.memory_offset_3);
        assert(out@ =~= old(out)@ + self.words());
    }
}

impl SlimeSettings {
    pub open spec fn words(self) -> Seq<u32> {
        seq![self.num_agents, self.trail_weight, self.memory_offset_1, self.memory_offset_2]
            + self.species_settings[0].words() + self.species_settings[1].words()
            + self.species_settings[2].words() + self.species_settings[3].words()
    }

    pub fn to_words(&self) -> (r: Vec<u32>)
        ensures
            r@ == self.words(),
            4 * r@.len() == SLIME_SETTINGS_BYTES,
    {
        let mut out = vec![
            self.num_agents,
            self.trail_weight,
            self.memory_offset_1,
            self.memory_offset_2,
        ];
        self.species_settings[0].push_words(&mut out);
        self.species_settings[1].push_words(&mut out);
        self.species_settings[2].push_words(&mut out);
        self.species_settings[3].push_words(&mut out);
        out
    }
}

impl DiffuseSettings {
    pub open spec fn words(self) -> Seq<u32> {
        seq![self.decay_rate, self.diffuse_rate]
    }

    pub fn to_words(&self) -> (r: Vec<u32>)
        ensures
            r@ == self.words(),
            4 * r@.len() == DIFFUSE_SETTINGS_BYTES,
    {
        vec![self.decay_rate, self.diffuse_rate]
    }
}

impl TimeBuffer {
    pub open spec fn words(self) -> Seq<u32> {
        seq![self.time, self.delta_time]
    }

    pub fn to_words(&self) -> (r: Vec<u32>)
        ensures
            r@ == self.words(),
            4 * r@.len() == TIME_BUFFER_BYTES,
    {
        vec![self.time, self.delta_time]
    }
}

impl Agent {
    pub open spec fn words(self) -> Seq<u32> {
        seq![self.position[0], self.position[1], self.angle, self.species_index]
    }

    pub fn to_words(&self) -> (r: Vec<u32>)
        ensures
            r@ == self.words(),
            4 * r@.len() == AGENT_BYTES,
    {
        vec![self.position[0], self.position[1], self.angle, self.species_index]
    }
}

/// The agent buffer: each agent's words in order.
pub open spec fn agents_words(agents: Seq<Agent>) -> Seq<u32>
    decreases agents.len(),
{
    if agents.len() == 0 {
        seq![]
    } else {
        agents_words(agents.drop_last()) + agents.last().words()
    }
}

pub proof fn lemma_agents_words_len(agents: Seq<Agent>)
    ensures
        agents_words(agents).len() == 4 * agents.len(),
    decreases agents.len(),
{
    if agents.len() > 0 {
        lemma_agents_words_len(agents.drop_last());
    }
}

/// The contents of the agent buffer.
pub fn agents_to_words(agents: &Vec<Agent>) -> (r: Vec<u32>)
    ensures
        r@ == agents_words(agents@),
        4 * r@.len() == AGENT_BYTES * agents@.len(),
{
    let mut out: Vec<u32> = Vec::new();
    let mut i: usize = 0;
    while i < agents.len()
        invariant
            i <= agents.len(),
            out@ == agents_words(agents@.take(i as int)),
        decreases agents.len() - i,
    {
        let a = agents[i];
        out.push(a.position[0]);
        out.push(a.position[1]);
        out.push(a.angle);
        out.push(a.species_index);
        proof {
            let next = agents@.take(i + 1);
            assert(next.drop_last() =~= agents@.take(i as int));
            assert(out@ =~= agents_words(next));
        }
        i = i + 1;
    }
    assert(agents@.take(agents.len() as int) =~= agents@);
    proof {
        lemma_agents_words_len(agents@);
    }
    out
}

/// Relies on bytemuck::cast_slice from `u32` to `u8`: a byte target is never
/// misaligned and never leaves a partial element, so the cast succeeds and
/// gives four bytes per word.
#[verifier::external_body]
fn cast_words_to_bytes(words: &[u32]) -> (r: Vec<u8>)
    ensures
        r@.len() == 4 * words@.len(),
{
    bytemuck::cast_slice::<u32, u8>(words).to_vec()
}

/// The bytes of a record that the GPU reads, in the machine's byte order.
pub fn words_to_bytes(words: &Vec<u32>) -> (r: Vec<u8>)
    ensures
        r@.len() == 4 * words@.len(),
{
    cast_words_to_bytes(words.as_slice())
}

} // verus!
