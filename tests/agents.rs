use slime_compute::{agent_seeds, AgentDistribution, AgentSeed};

const ALL: [AgentDistribution; 4] = [
    AgentDistribution::InnerCircle,
    AgentDistribution::OuterCircle,
    AgentDistribution::InnerDisk,
    AgentDistribution::Random,
];

#[test]
fn population_has_requested_size_for_every_distribution() {
    for d in ALL {
        for n in [0u32, 1, 4, 1000] {
            assert_eq!(agent_seeds(n, d).len(), n as usize);
        }
    }
}

#[test]
fn empty_population_is_empty() {
    for d in ALL {
        assert!(agent_seeds(0, d).is_empty());
    }
}

#[test]
fn circle_layouts_take_every_step_of_the_turn_once() {
    for (d, inward) in [(AgentDistribution::InnerCircle, true), (AgentDistribution::OuterCircle, false)] {
        let seeds = agent_seeds(5, d);
        for (i, s) in seeds.iter().enumerate() {
            assert_eq!(*s, AgentSeed::Ring { index: i as u32, count: 5, facing_inward: inward });
        }
    }
}

#[test]
fn random_layouts_have_random_seeds() {
    assert!(agent_seeds(3, AgentDistribution::InnerDisk).iter().all(|s| *s == AgentSeed::Disk));
    assert!(agent_seeds(3, AgentDistribution::Random).iter().all(|s| *s == AgentSeed::Anywhere));
}
