use vstd::prelude::*;

use crate::types::{DiffuseSettings, F32Bits, SizeSettings, SlimeSettings, SpeciesSettings};

verus! {

/// Width of the simulated surface unless settings say otherwise.
pub const DEFAULT_WIDTH: u32 = 1280;
/// Height of the simulated surface unless settings say otherwise.
pub const DEFAULT_HEIGHT: u32 = 720;
pub const DEFAULT_NUM_AGENTS: u32 = 100000;

/// 1.0
pub const DEFAULT_TRAIL_WEIGHT: F32Bits = 0x3f80_0000;
/// 0.75
pub const DEFAULT_DECAY_RATE: F32Bits = 0x3f40_0000;
/// 5.0
pub const DEFAULT_DIFFUSE_RATE: F32Bits = 0x40a0_0000;
/// 50.0
pub const DEFAULT_MOVE_SPEED: F32Bits = 0x4248_0000;
/// 10.0
pub const DEFAULT_TURN_SPEED: F32Bits = 0x4120_0000;
/// 1.0, the turn speed of the super-nova preset
pub const SUPER_NOVA_TURN_SPEED: F32Bits = 0x3f80_0000;
/// 30.0
pub const DEFAULT_SENSOR_ANGLE_SPACING: F32Bits = 0x41f0_0000;
/// 5.0
pub const DEFAULT_SENSOR_OFFSET_DST: F32Bits = 0x40a0_0000;
pub const DEFAULT_SENSOR_SIZE: u32 = 1;

#[derive(Clone, Copy, Debug, PartialEq, Eq, Structural)]
pub enum AppPreset {
    Default,
    SuperNova,
}

/// How the initial agent population is laid out.
#[derive(Clone, Copy, Debug, PartialEq, Eq, Structural)]
pub enum AgentDistribution {
    InnerCircle,
    OuterCircle,
    InnerDisk,
    Random,
}

/// Everything the host may edit: the layout of a new simulation and the
/// parameters of a running one.
#[derive(Clone, Copy, Debug)]
pub struct AppSettings {
    pub app_preset: AppPreset,
    pub agent_distribution: AgentDistribution,
    pub width: u32,
    pub height: u32,
    pub num_agents: u32,
    pub trail_weight: F32Bits,
    pub decay_rate: F32Bits,
    pub diffuse_rate: F32Bits,
    pub render_sensors: bool,
    pub species_settings: [SpeciesSettings; 4],
}

pub open spec fn default_species() -> SpeciesSettings {
    SpeciesSettings {
        move_speed: DEFAULT_MOVE_SPEED,
        turn_speed: DEFAULT_TURN_SPEED,
        sensor_angle_spacing: DEFAULT_SENSOR_ANGLE_SPACING,
        sensor_offset_dst: DEFAULT_SENSOR_OFFSET_DST,
        sensor_size: DEFAULT_SENSOR_SIZE,
        memory_offset_1: 0,
        memory_offset_2: 0,
        memory_offset_3: 0,
    }
}

/// The species that a preset starts every species from.
pub open spec fn preset_species(preset: AppPreset) -> SpeciesSettings {
    match preset {
        AppPreset::Default => default_species(),
        AppPreset::SuperNova => SpeciesSettings { turn_speed: SUPER_NOVA_TURN_SPEED, ..default_species() },
    }
}

/// The diffusion parameters that `settings` ask for.
pub open spec fn diffuse_settings_of(settings: AppSettings) -> DiffuseSettings {
    DiffuseSettings { decay_rate: settings.decay_rate, diffuse_rate: settings.diffuse_rate }
}

/// The simulation parameters that `settings` ask for, for a population of `num_agents`.
pub open spec fn slime_settings_of(settings: AppSettings, num_agents: u32) -> SlimeSettings {
    SlimeSettings {
        num_agents,
        trail_weight: settings.trail_weight,
        memory_offset_1: 0,
        memory_offset_2: 0,
        species_settings: settings.species_settings,
    }
}

impl SpeciesSettings {
    pub fn new_default() -> (r: SpeciesSettings)
        ensures
            r == default_species(),
    {
        SpeciesSettings {
            move_speed: DEFAULT_MOVE_SPEED,
            turn_speed: DEFAULT_TURN_SPEED,
            sensor_angle_spacing: DEFAULT_SENSOR_ANGLE_SPACING,
            sensor_offset_dst: DEFAULT_SENSOR_OFFSET_DST,
            sensor_size: DEFAULT_SENSOR_SIZE,
            memory_offset_1: 0,
            memory_offset_2: 0,
            memory_offset_3: 0,
        }
    }
}

impl Default for SpeciesSettings {
    fn default() -> (r: SpeciesSettings)
        ensures
            r == default_species(),
    {
        SpeciesSettings::new_default()
    }
}

fn species_for(preset: AppPreset) -> (r: SpeciesSettings)
    ensures
        r == preset_species(preset),
{
    let s = SpeciesSettings::new_default();
    match preset {
        AppPreset::Default => s,
        AppPreset::SuperNova => SpeciesSettings { turn_speed: SUPER_NOVA_TURN_SPEED, ..s },
    }
}

impl AppSettings {
    /// The tunable fields hold the values of `preset`; layout choices
    /// (`app_preset`, `agent_distribution`) are left to the caller.
    pub open spec fn tunables_are(self, preset: AppPreset) -> bool {
        &&& self.width == DEFAULT_WIDTH
        &&& self.height == DEFAULT_HEIGHT
        &&& self.num_agents == DEFAULT_NUM_AGENTS
        &&& self.trail_weight == DEFAULT_TRAIL_WEIGHT
        &&& self.decay_rate == DEFAULT_DECAY_RATE
        &&& self.diffuse_rate == DEFAULT_DIFFUSE_RATE
        &&& !self.render_sensors
        &&& forall|i: int| 0 <= i < 4 ==> self.species_settings[i] == preset_species(preset)
    }

    pub fn new_default() -> (r: AppSettings)
        ensures
            r.app_preset == AppPreset::Default,
            r.agent_distribution == AgentDistribution::InnerCircle,
            r.tunables_are(AppPreset::Default),
    {
        let s = SpeciesSettings::new_default();
        AppSettings {
            app_preset: AppPreset::Default,
            agent_distribution: AgentDistribution::InnerCircle,
            width: DEFAULT_WIDTH,
            height: DEFAULT_HEIGHT,
            num_agents: DEFAULT_NUM_AGENTS,
            trail_weight: DEFAULT_TRAIL_WEIGHT,
            decay_rate: DEFAULT_DECAY_RATE,
            diffuse_rate: DEFAULT_DIFFUSE_RATE,
            render_sensors: false,
            species_settings: [s, s, s, s],
        }
    }

    /// Restores the tunable fields to the values of the selected preset.
    pub fn reset_settings(&mut self)
        ensures
            final(self).app_preset == old(self).app_preset,
            final(self).agent_distribution == old(self).agent_distribution,
            final(self).tunables_are(old(self).app_preset),
    {
        let s = species_for(self.app_preset);
        self.width = DEFAULT_WIDTH;
        self.height = DEFAULT_HEIGHT;
        self.num_agents = DEFAULT_NUM_AGENTS;
        self.trail_weight = DEFAULT_TRAIL_WEIGHT;
        self.decay_rate = DEFAULT_DECAY_RATE;
        self.diffuse_rate = DEFAULT_DIFFUSE_RATE;
        self.render_sensors = false;
        self.species_settings = [s, s, s, s];
    }

    /// Applies the selected preset: its distribution and its tunable values.
    pub fn apply_preset(&mut self)
        ensures
            final(self).app_preset == old(self).app_preset,
            final(self).agent_distribution == AgentDistribution::InnerCircle,
            final(self).tunables_are(old(self).app_preset),
    {
        match self.app_preset {
            AppPreset::Default => {
                self.agent_distribution = AgentDistribution::InnerCircle;
            },
            AppPreset::SuperNova => {
                self.agent_distribution = AgentDistribution::InnerCircle;
            },
        }
        self.reset_settings();
    }

    pub open spec fn size_settings_spec(self) -> SizeSettings {
        SizeSettings { width: self.width, height: self.height }
    }

    /// Dimensions of the simulated surface.
    pub fn size_settings(&self) -> (r: SizeSettings)
        ensures
            r == self.size_settings_spec(),
    {
        SizeSettings { width: self.width, height: self.height }
    }

    /// Parameters of the diffusion stage.
    pub fn diffuse_settings(&self) -> (r: DiffuseSettings)
        ensures
            r == diffuse_settings_of(*self),
    {
        DiffuseSettings { decay_rate: self.decay_rate, diffuse_rate: self.diffuse_rate }
    }

    /// Global simulation parameters for a population of `num_agents`.
    pub fn slime_settings(&self, num_agents: u32) -> (r: SlimeSettings)
        ensures
            r == slime_settings_of(*self, num_agents),
    {
        SlimeSettings {
            num_agents,
            trail_weight: self.trail_weight,
            memory_offset_1: 0,
            memory_offset_2: 0,
            species_settings: self.species_settings,
        }
    }
}

impl Default for AppSettings {
    fn default() -> (r: AppSettings)
        ensures
            r.app_preset == AppPreset::Default,
            r.agent_distribution == AgentDistribution::InnerCircle,
            r.tunables_are(AppPreset::Default),
    {
        AppSettings::new_default()
    }
}

} // verus!
