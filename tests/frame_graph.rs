use slime_compute::{
    all_programs_ready, all_stages, bindings_of, stage_shader, workgroups_for, AgentDistribution, AppSettings, Binding,
    BufferSlot, ComputeRenderNode, ComputeSlimeBindGroup, ComputeSlimePipeline, ComputeSlimeState,
    ComputeTimeUpdate, CopyPipeline, CopyTextureView, Shader, SizeSettings, SlimeSimPipeline,
    SlimeSimSetup, Stage, Texture, TimeBuffer, Workgroups,
};

fn settings(num_agents: u32, width: u32, height: u32) -> AppSettings {
    let mut s = AppSettings::default();
    s.num_agents = num_agents;
    s.width = width;
    s.height = height;
    s
}

fn bound(s: &AppSettings, view: u64) -> ComputeSlimePipeline {
    let mut p = ComputeSlimePipeline::new(s);
    p.queue_bind_group(&ComputeSlimeBindGroup { display_texture_view: view });
    p
}

fn stages_of(p: &ComputeSlimePipeline, state: ComputeSlimeState, s: &AppSettings) -> Vec<Stage> {
    p.execute(&state, s).iter().map(|x| x.stage).collect()
}

const SIM: [Stage; 4] =
    [Stage::CopyDisplayToTrail, Stage::SlimeSim, Stage::Diffuse, Stage::CopyDiffuseToDisplay];

#[test]
fn ceiling_division() {
    assert_eq!(workgroups_for(0, 64), 0);
    assert_eq!(workgroups_for(1, 64), 1);
    assert_eq!(workgroups_for(64, 64), 1);
    assert_eq!(workgroups_for(65, 64), 2);
    assert_eq!(workgroups_for(u32::MAX, 8), 536870912);
    assert_eq!(workgroups_for(u32::MAX, 1), u32::MAX);
}

#[test]
fn default_dispatch_sizes() {
    let s = settings(100000, 1280, 720);
    let p = bound(&s, 1);
    for pass in p.execute(&ComputeSlimeState::Loaded, &s) {
        let w = pass.dispatch.workgroups;
        match pass.stage {
            Stage::SlimeSim | Stage::DrawSensor => assert_eq!(w, Workgroups { x: 1563, y: 1, z: 1 }),
            _ => assert_eq!(w, Workgroups { x: 160, y: 90, z: 1 }),
        }
    }
    assert_eq!(p.slime_sim_pipeline.workgroup_size, 1563);
    assert_eq!(p.draw_sensor_pipeline.workgroup_size, 1563);
    assert_eq!(p.diffuse_pipeline.workgroup_size, (160, 90));
    assert_eq!(p.copy_display_to_trail_pipeline.workgroup_size, (160, 90));
}

#[test]
fn zero_agents_dispatch_zero_workgroups() {
    let s = settings(0, 100, 100);
    let p = bound(&s, 1);
    let passes = p.execute(&ComputeSlimeState::Loaded, &s);
    let sim = passes.iter().find(|x| x.stage == Stage::SlimeSim).unwrap();
    assert_eq!(sim.dispatch.workgroups, Workgroups { x: 0, y: 1, z: 1 });
}

#[test]
fn stage_create_bind_execute() {
    let mut c = CopyPipeline::new(&SizeSettings { width: 17, height: 8 });
    assert!(c.bind_group.is_none());
    assert_eq!(c.workgroup_size, (3, 1));
    let view = CopyTextureView {
        size_buffer: BufferSlot::Size,
        texture_view_read: Texture::Trail,
        texture_view_write: Texture::Sensor,
    };
    c.queue_bind_group(&view);
    let d = c.execute();
    assert_eq!(d.shader, Shader::Copy);
    assert_eq!(
        d.bindings,
        vec![
            Binding::Uniform(BufferSlot::Size),
            Binding::ReadTexture(Texture::Trail),
            Binding::WriteTexture(Texture::Sensor),
        ]
    );
    assert_eq!(d.workgroups, Workgroups { x: 3, y: 1, z: 1 });
    let s = SlimeSimPipeline::new(&SlimeSimSetup { num_agents: 129 });
    assert_eq!(s.workgroup_size, 3);
}

#[test]
fn new_pipeline_is_unbound() {
    let p = ComputeSlimePipeline::new(&settings(10, 10, 10));
    assert!(p.copy_render_display_to_display_pipeline.bind_group.is_none());
    assert!(p.draw_sensor_pipeline.bind_group.is_none());
    assert_eq!(p.num_agents, 10);
}

#[test]
fn bindings_follow_topology() {
    let s = settings(4, 100, 100);
    let p = bound(&s, 9);
    let host = Texture::RenderDisplay { view: 9 };
    let passes = p.execute(&ComputeSlimeState::Loaded, &s);
    let sim = &passes[1].dispatch;
    assert_eq!(sim.shader, Shader::SlimeSimulation);
    assert_eq!(
        sim.bindings,
        vec![
            Binding::Uniform(BufferSlot::Size),
            Binding::Uniform(BufferSlot::Settings),
            Binding::Uniform(BufferSlot::Time),
            Binding::Storage(BufferSlot::Agents),
            Binding::ReadTexture(Texture::Display),
            Binding::WriteTexture(Texture::Trail),
        ]
    );
    let diffuse = &passes[2].dispatch;
    assert_eq!(diffuse.shader, Shader::Diffuse);
    assert_eq!(diffuse.bindings[3], Binding::ReadTexture(Texture::Trail));
    assert_eq!(diffuse.bindings[4], Binding::WriteTexture(Texture::Diffuse));
    let present = &passes[4].dispatch;
    assert_eq!(present.bindings[2], Binding::WriteTexture(host));
    for pass in passes.iter() {
        let reads: Vec<_> = pass.dispatch.bindings.iter().filter_map(|b| match b {
            Binding::ReadTexture(t) => Some(*t),
            _ => None,
        }).collect();
        let writes: Vec<_> = pass.dispatch.bindings.iter().filter_map(|b| match b {
            Binding::WriteTexture(t) => Some(*t),
            _ => None,
        }).collect();
        assert_eq!(reads.len(), 1);
        assert_eq!(writes.len(), 1);
        assert_ne!(reads[0], writes[0]);
    }
}

#[test]
fn rebinding_replaces_the_host_view() {
    let s = settings(4, 100, 100);
    let mut p = bound(&s, 1);
    p.queue_bind_group(&ComputeSlimeBindGroup { display_texture_view: 2 });
    let init = p.execute(&ComputeSlimeState::Init, &s);
    assert_eq!(init[0].dispatch.bindings[1], Binding::ReadTexture(Texture::RenderDisplay { view: 2 }));
    let loaded = p.execute(&ComputeSlimeState::Loaded, &s);
    assert_eq!(loaded[4].dispatch.bindings[2], Binding::WriteTexture(Texture::RenderDisplay { view: 2 }));
}

#[test]
fn loaded_frame_without_overlay() {
    let s = settings(4, 100, 100);
    let p = bound(&s, 1);
    let mut expected = SIM.to_vec();
    expected.push(Stage::CopyDisplayToRenderDisplay);
    assert_eq!(stages_of(&p, ComputeSlimeState::Loaded, &s), expected);
}

#[test]
fn loaded_frame_with_overlay() {
    let mut s = settings(4, 100, 100);
    s.render_sensors = true;
    let p = bound(&s, 1);
    let mut expected = SIM.to_vec();
    expected.extend([Stage::CopyDisplayToSensor, Stage::DrawSensor, Stage::CopySensorToRenderDisplay]);
    let got = stages_of(&p, ComputeSlimeState::Loaded, &s);
    assert_eq!(got, expected);
    assert!(!got.contains(&Stage::CopyDisplayToRenderDisplay));
}

#[test]
fn readiness_needs_all_nine() {
    let s = settings(4, 100, 100);
    let p = bound(&s, 1);
    let mut state = ComputeSlimeState::Init;
    for i in 0..9 {
        let mut ready = [true; 9];
        ready[i] = false;
        assert!(!all_programs_ready(&ready));
        p.update_state(&ready, &mut state);
        assert_eq!(state, ComputeSlimeState::Init);
    }
    p.update_state(&[true; 9], &mut state);
    assert_eq!(state, ComputeSlimeState::Loaded);
    p.update_state(&[false; 9], &mut state);
    assert_eq!(state, ComputeSlimeState::Loaded);
}

#[test]
fn stage_order_has_nine_stages() {
    let st = all_stages();
    assert_eq!(st.len(), 9);
    assert_eq!(st[0], Stage::CopyRenderDisplayToDisplay);
    assert_eq!(st[8], Stage::CopySensorToRenderDisplay);
}

#[test]
fn settings_update_writes_only_parameters() {
    let mut s = settings(4, 100, 100);
    let p = bound(&s, 1);
    s.num_agents = 999;
    s.decay_rate = 0.5f32.to_bits();
    let w = p.update_settings(&s);
    assert_eq!(w.len(), 2);
    assert_eq!(w[0].buffer, BufferSlot::Diffuse);
    assert_eq!(w[0].words, vec![0.5f32.to_bits(), 5.0f32.to_bits()]);
    assert_eq!(w[1].buffer, BufferSlot::Settings);
    assert_eq!(w[1].words.len(), 36);
    assert_eq!(w[1].words[0], 4);
    assert_eq!(w[1].bytes().len(), 144);
}

#[test]
fn settings_only_update_leaves_frame_passes_unchanged() {
    let s = settings(4, 100, 100);
    let p = bound(&s, 1);
    let t = TimeBuffer { time: 1.5f32.to_bits(), delta_time: 0.25f32.to_bits() };
    let mut a = ComputeRenderNode::new();
    let mut b = ComputeRenderNode::new();
    let wa = a.update(&p, &s, true, &t, &[true; 9]);
    let wb = b.update(&p, &s, false, &t, &[true; 9]);
    assert_eq!(wa.len(), 3);
    assert_eq!(wb.len(), 1);
    assert_eq!(wa[2].buffer, BufferSlot::Time);
    assert_eq!(wa[2].words, wb[0].words);
    assert!(wa.iter().all(|w| w.buffer != BufferSlot::Agents && w.buffer != BufferSlot::Size));
    let pa: Vec<_> = a.run(&p, &s).into_iter().map(|x| (x.stage, x.dispatch.bindings, x.dispatch.workgroups)).collect();
    let pb: Vec<_> = b.run(&p, &s).into_iter().map(|x| (x.stage, x.dispatch.bindings, x.dispatch.workgroups)).collect();
    assert_eq!(pa, pb);
}

#[test]
fn time_update_writes_time_buffer() {
    let s = settings(4, 100, 100);
    let p = bound(&s, 1);
    let t = TimeBuffer { time: 2.0f32.to_bits(), delta_time: 0.5f32.to_bits() };
    let w = p.update_time(&ComputeTimeUpdate { time_buffer: t });
    assert_eq!(w.buffer, BufferSlot::Time);
    assert_eq!(w.words, vec![2.0f32.to_bits(), 0.5f32.to_bits()]);
}

#[test]
fn initial_buffers_hold_settings_and_agents() {
    let s = settings(2, 100, 50);
    let p = ComputeSlimePipeline::new(&s);
    let a = slime_compute::Agent { position: [1, 2], angle: 3, species_index: 0 };
    let w = p.initial_buffers(&s, &vec![a, a]);
    let kinds: Vec<_> = w.iter().map(|x| x.buffer).collect();
    assert_eq!(kinds, vec![BufferSlot::Agents, BufferSlot::Size, BufferSlot::Diffuse, BufferSlot::Settings, BufferSlot::Time]);
    assert_eq!(w[0].words, vec![1, 2, 3, 0, 1, 2, 3, 0]);
    assert_eq!(w[1].words, vec![100, 50]);
    assert_eq!(w[3].words[0], 2);
    assert_eq!(w[4].words, vec![0, 0]);
}

#[test]
fn scenario_bootstrap_frame_only_seeds_display() {
    let mut s = settings(4, 100, 100);
    s.agent_distribution = AgentDistribution::Random;
    let p = bound(&s, 5);
    let node = ComputeRenderNode::new();
    assert_eq!(node.state, ComputeSlimeState::Init);
    let passes = node.run(&p, &s);
    assert_eq!(passes.len(), 1);
    assert_eq!(passes[0].stage, Stage::CopyRenderDisplayToDisplay);
    assert_eq!(passes[0].dispatch.shader, Shader::Copy);
    assert_eq!(
        passes[0].dispatch.bindings,
        vec![
            Binding::Uniform(BufferSlot::Size),
            Binding::ReadTexture(Texture::RenderDisplay { view: 5 }),
            Binding::WriteTexture(Texture::Display),
        ]
    );
    assert_eq!(passes[0].dispatch.workgroups, Workgroups { x: 13, y: 13, z: 1 });
}

#[test]
fn scenario_loads_once_and_stops_bootstrapping() {
    let s = settings(4, 100, 100);
    let p = bound(&s, 1);
    let mut node = ComputeRenderNode::new();
    let t = TimeBuffer { time: 0, delta_time: 0 };
    let mut transitions = 0;
    let mut loaded_at = None;
    for frame in 0..20usize {
        let mut ready = [false; 9];
        for (i, r) in ready.iter_mut().enumerate() {
            *r = frame >= 5 + i || (frame >= 15 && i % 2 == 0);
        }
        if frame > 14 {
            ready[3] = false;
        }
        let before = node.state;
        node.update(&p, &s, false, &t, &ready);
        if before != node.state {
            transitions += 1;
            loaded_at = Some(frame);
        }
        let stages: Vec<_> = node.run(&p, &s).iter().map(|x| x.stage).collect();
        if node.state == ComputeSlimeState::Loaded {
            assert!(!stages.contains(&Stage::CopyRenderDisplayToDisplay));
        } else {
            assert_eq!(stages, vec![Stage::CopyRenderDisplayToDisplay]);
        }
    }
    assert_eq!(transitions, 1);
    assert_eq!(loaded_at, Some(13));
    assert_eq!(node.state, ComputeSlimeState::Loaded);
}

#[test]
fn buffer_sizes_follow_records() {
    let p = ComputeSlimePipeline::new(&settings(1000, 64, 64));
    assert_eq!(p.buffer_size(BufferSlot::Size), 8);
    assert_eq!(p.buffer_size(BufferSlot::Settings), 144);
    assert_eq!(p.buffer_size(BufferSlot::Diffuse), 8);
    assert_eq!(p.buffer_size(BufferSlot::Time), 8);
    assert_eq!(p.buffer_size(BufferSlot::Agents), 16000);
    let big = ComputeSlimePipeline::new(&settings(u32::MAX, 8, 8));
    assert_eq!(big.buffer_size(BufferSlot::Agents), 16 * u32::MAX as u64);
}

#[test]
fn stage_programs_and_binding_sets() {
    assert_eq!(stage_shader(Stage::SlimeSim), Shader::SlimeSimulation);
    assert_eq!(stage_shader(Stage::Diffuse), Shader::Diffuse);
    assert_eq!(stage_shader(Stage::DrawSensor), Shader::DrawSensor);
    let copies = all_stages()
        .into_iter()
        .filter(|s| stage_shader(*s) == Shader::Copy)
        .count();
    assert_eq!(copies, 6);
    assert_eq!(
        bindings_of(Stage::CopySensorToRenderDisplay, 3),
        vec![
            Binding::Uniform(BufferSlot::Size),
            Binding::ReadTexture(Texture::Sensor),
            Binding::WriteTexture(Texture::RenderDisplay { view: 3 }),
        ]
    );
    assert_eq!(bindings_of(Stage::DrawSensor, 0).len(), 5);
}

#[test]
fn bound_check_reports_binding() {
    let s = settings(4, 16, 16);
    let mut p = ComputeSlimePipeline::new(&s);
    assert!(!p.all_stages_bound());
    p.queue_bind_group(&ComputeSlimeBindGroup { display_texture_view: 0 });
    assert!(p.all_stages_bound());
    p.copy_display_to_sensor_pipeline.bind_group = None;
    assert!(!p.all_stages_bound());
}
