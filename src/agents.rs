use vstd::prelude::*;

use crate::app_settings::AgentDistribution;

verus! {

/// Where one agent of the initial population starts, before it is turned
/// into coordinates.
///
/// A `Ring` agent sits on the circle of radius 200 around the centre, at the
/// angle `2π · index / count`; it faces the centre when `facing_inward`, and
/// away from it otherwise. A `Disk` agent takes a random angle and radius
/// within that circle and faces outward plus π. An `Anywhere` agent takes a
/// random point of the whole surface and a random heading.
#[derive(Clone, Copy, Debug, PartialEq, Eq, Structural)]
pub enum AgentSeed {
    Ring { index: u32, count: u32, facing_inward: bool },
    Disk,
    Anywhere,
}

/// The seed of agent `i` of `n` under `distribution`.
pub open spec fn seed_of(distribution: AgentDistribution, i: int, n: int) -> AgentSeed {
    match distribution {
        AgentDistribution::InnerCircle => AgentSeed::Ring {
            index: i as u32,
            count: n as u32,
            facing_inward: true,
        },
        AgentDistribution::OuterCircle => AgentSeed::Ring {
            index: i as u32,
            count: n as u32,
            facing_inward: false,
        },
        AgentDistribution::InnerDisk => AgentSeed::Disk,
        AgentDistribution::Random => AgentSeed::Anywhere,
    }
}

/// The initial population of `num_agents` agents: one seed per agent.
pub fn agent_seeds(num_agents: u32, distribution: AgentDistribution) -> (r: Vec<AgentSeed>)
    ensures
        r@.len() == num_agents,
        forall|i: int| 0 <= i < num_agents ==> r@[i] == seed_of(distribution, i, num_agents as int),
{
    let mut out: Vec<AgentSeed> = Vec::new();
    let mut i: u32 = 0;
    while i < num_agents
        invariant
            i <= num_agents,
            out@.len() == i,
            forall|j: int| 0 <= j < i ==> out@[j] == seed_of(distribution, j, num_agents as int),
        decreases num_agents - i,
    {
        let seed = match distribution {
            AgentDistribution::InnerCircle => AgentSeed::Ring {
                index: i,
                count: num_agents,
                facing_inward: true,
            },
            AgentDistribution::OuterCircle => AgentSeed::Ring {
                index: i,
                count: num_agents,
                facing_inward: false,
            },
            AgentDistribution::InnerDisk => AgentSeed::Disk,
            AgentDistribution::Random => AgentSeed::Anywhere,
        };
        out.push(seed);
        i = i + 1;
    }
    out
}

/// On both circle layouts the agents' angles partition the full turn evenly:
/// agent `i` of `n` stands at step `i` of `n` equal steps, so no two agents
/// share an angle and every step is taken.
pub proof fn lemma_ring_angles_partition(distribution: AgentDistribution, n: u32)
    requires
        distribution == AgentDistribution::InnerCircle || distribution
            == AgentDistribution::OuterCircle,
    ensures
        forall|i: int|
            #![trigger seed_of(distribution, i, n as int)]
            0 <= i < n ==> {
                let s = seed_of(distribution, i, n as int);
                &&& s is Ring
                &&& s->index == i
                &&& s->count == n
                &&& s->facing_inward == (distribution == AgentDistribution::InnerCircle)
            },
        forall|i: int, j: int|
            0 <= i < n && 0 <= j < n && i != j ==> seed_of(distribution, i, n as int)
                != seed_of(distribution, j, n as int),
{
}

} // verus!
