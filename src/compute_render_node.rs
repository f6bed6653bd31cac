use vstd::prelude::*;

use crate::app_settings::AppSettings;
use crate::compute_slime_pipeline::{
    frame_stages, pass_views, stage_bindings, write_views, BufferWrite, ComputeSlimePipeline,
    ComputeTimeUpdate, Stage, StagePass,
};
use crate::pipeline::{Binding, BufferSlot, Shader, Texture};
use crate::types::TimeBuffer;

verus! {

/// Whether the compute programs of all stages have finished compiling.
#[derive(Clone, Copy, Debug, PartialEq, Eq, Structural)]
pub enum ComputeSlimeState {
    /// Some program may still be compiling: only the bootstrap copy runs.
    Init,
    /// Every program is ready: the full frame runs.
    Loaded,
}

/// Number of stages, and of program-ready checks per frame.
pub const STAGE_COUNT: usize = 9;

/// Every one of the stage programs reports ready.
pub open spec fn all_ready(ready: Seq<bool>) -> bool {
    &&& ready.len() == STAGE_COUNT
    &&& forall|i: int| 0 <= i < ready.len() ==> ready[i]
}

/// The state after one readiness check.
pub open spec fn next_state(state: ComputeSlimeState, ready: Seq<bool>) -> ComputeSlimeState {
    match state {
        ComputeSlimeState::Init => if all_ready(ready) {
            ComputeSlimeState::Loaded
        } else {
            ComputeSlimeState::Init
        },
        ComputeSlimeState::Loaded => ComputeSlimeState::Loaded,
    }
}

/// Whether every program reports ready.
pub fn all_programs_ready(ready: &[bool; 9]) -> (r: bool)
    ensures
        r == all_ready(ready@),
{
    let mut i: usize = 0;
    while i < STAGE_COUNT
        invariant
            i <= STAGE_COUNT,
            ready@.len() == STAGE_COUNT,
            forall|j: int| 0 <= j < i ==> ready@[j],
        decreases STAGE_COUNT - i,
    {
        if !ready[i] {
            return false;
        }
        i = i + 1;
    }
    true
}

/// The state after a run of readiness checks, one per frame, from `start`.
pub open spec fn state_after(start: ComputeSlimeState, checks: Seq<Seq<bool>>) -> ComputeSlimeState
    decreases checks.len(),
{
    if checks.len() == 0 {
        start
    } else {
        next_state(state_after(start, checks.drop_last()), checks.last())
    }
}

/// The buffer writes of one frame's update: the parameters when the
/// settings changed, then the time, always.
pub open spec fn frame_writes(
    pipeline: ComputeSlimePipeline,
    settings: AppSettings,
    settings_updated: bool,
    time: TimeBuffer,
) -> Seq<(BufferSlot, Seq<u32>)> {
    (if settings_updated {
        pipeline.settings_writes(settings)
    } else {
        seq![]
    }) + seq![(BufferSlot::Time, time.words())]
}

/// The render-graph node that drives the simulation: it keeps the readiness
/// state between frames.
pub struct ComputeRenderNode {
    pub state: ComputeSlimeState,
}

impl ComputeRenderNode {
    pub fn new() -> (r: ComputeRenderNode)
        ensures
            r.state == ComputeSlimeState::Init,
    {
        ComputeRenderNode { state: ComputeSlimeState::Init }
    }

    /// The per-frame update: the buffer writes to perform, in order, and one
    /// readiness check with `ready` (whether each stage's program has
    /// compiled, in stage order).
    pub fn update(
        &mut self,
        pipeline: &ComputeSlimePipeline,
        app_settings: &AppSettings,
        settings_updated: bool,
        time: &TimeBuffer,
        ready: &[bool; 9],
    ) -> (r: Vec<BufferWrite>)
        ensures
            write_views(r@) == frame_writes(*pipeline, *app_settings, settings_updated, *time),
            final(self).state == next_state(old(self).state, ready@),
    {
        let mut writes: Vec<BufferWrite> = if settings_updated {
            pipeline.update_settings(app_settings)
        } else {
            Vec::new()
        };
        writes.push(pipeline.update_time(&ComputeTimeUpdate { time_buffer: *time }));
        assert(write_views(writes@) =~= frame_writes(*pipeline, *app_settings, settings_updated, *time));
        pipeline.update_state(ready, &mut self.state);
        writes
    }

    /// The passes of this frame.
    pub fn run(&self, pipeline: &ComputeSlimePipeline, app_settings: &AppSettings) -> (r: Vec<StagePass>)
        requires
            pipeline.all_bound(),
        ensures
            pass_views(r@) == pipeline.frame_passes(self.state, app_settings.render_sensors),
    {
        pipeline.execute(&self.state, app_settings)
    }
}

impl Default for ComputeRenderNode {
    fn default() -> (r: ComputeRenderNode)
        ensures
            r.state == ComputeSlimeState::Init,
    {
        ComputeRenderNode::new()
    }
}

/// Readiness is monotonic: a loaded simulation stays loaded whatever a
/// check reports, and a bootstrapping one loads exactly when all nine
/// programs report ready at once.
pub proof fn lemma_readiness_step(state: ComputeSlimeState, ready: Seq<bool>)
    ensures
        state == ComputeSlimeState::Loaded ==> next_state(state, ready) == ComputeSlimeState::Loaded,
        state == ComputeSlimeState::Init ==> (next_state(state, ready) == ComputeSlimeState::Loaded
            <==> all_ready(ready)),
{
}

/// Over any run of frames from the start, the simulation is loaded after
/// the first `k` checks exactly when one of them found every program ready;
/// so it loads once, at the first such check, and never reverts.
pub proof fn lemma_loads_once(checks: Seq<Seq<bool>>, k: int)
    requires
        0 <= k <= checks.len(),
    ensures
        state_after(ComputeSlimeState::Init, checks.take(k)) == ComputeSlimeState::Loaded <==> exists|
            i: int,
        |
            0 <= i < k && #[trigger] all_ready(checks[i]),
    decreases k,
{
    if k > 0 {
        lemma_loads_once(checks, k - 1);
        assert(checks.take(k).drop_last() =~= checks.take(k - 1));
        assert(checks.take(k).last() == checks[k - 1]);
        if exists|i: int| 0 <= i < k - 1 && #[trigger] all_ready(checks[i]) {
            let i = choose|i: int| 0 <= i < k - 1 && #[trigger] all_ready(checks[i]);
            assert(0 <= i < k && all_ready(checks[i]));
        }
    }
}

/// Once loaded, the simulation stays loaded over any later frames, and the
/// bootstrap copy never runs again.
pub proof fn lemma_loaded_stays_loaded(checks: Seq<Seq<bool>>, k: int, j: int, render_sensors: bool)
    requires
        0 <= k <= j <= checks.len(),
        state_after(ComputeSlimeState::Init, checks.take(k)) == ComputeSlimeState::Loaded,
    ensures
        state_after(ComputeSlimeState::Init, checks.take(j)) == ComputeSlimeState::Loaded,
        !frame_stages(state_after(ComputeSlimeState::Init, checks.take(j)), render_sensors).contains(
            Stage::CopyRenderDisplayToDisplay,
        ),
{
    lemma_loads_once(checks, k);
    lemma_loads_once(checks, j);
    let i = choose|i: int| 0 <= i < k && #[trigger] all_ready(checks[i]);
    assert(0 <= i < j && all_ready(checks[i]));
    let f = frame_stages(ComputeSlimeState::Loaded, render_sensors);
    assert forall|x: int| 0 <= x < f.len() implies f[x] != Stage::CopyRenderDisplayToDisplay by {
        if x >= 4 {
            assert(f[x] == (if render_sensors {
                seq![Stage::CopyDisplayToSensor, Stage::DrawSensor, Stage::CopySensorToRenderDisplay]
            } else {
                seq![Stage::CopyDisplayToRenderDisplay]
            })[x - 4]);
        }
    }
}

/// The loaded frame always runs the trail copy, the agent step, the
/// diffusion and the copy back to the display, in that order, and then
/// exactly one presentation branch: the sensor overlay (copy to sensor,
/// draw sensors, present the sensor) when `render_sensors`, the plain
/// presentation copy otherwise.
pub proof fn lemma_loaded_frame_order(render_sensors: bool)
    ensures
        ({
            let f = frame_stages(ComputeSlimeState::Loaded, render_sensors);
            &&& f.take(4) == seq![
                Stage::CopyDisplayToTrail,
                Stage::SlimeSim,
                Stage::Diffuse,
                Stage::CopyDiffuseToDisplay,
            ]
            &&& render_sensors ==> f.skip(4) == seq![
                Stage::CopyDisplayToSensor,
                Stage::DrawSensor,
                Stage::CopySensorToRenderDisplay,
            ]
            &&& !render_sensors ==> f.skip(4) == seq![Stage::CopyDisplayToRenderDisplay]
            &&& f.contains(Stage::CopyDisplayToRenderDisplay) <==> !render_sensors
            &&& f.contains(Stage::DrawSensor) <==> render_sensors
        }),
{
    let f = frame_stages(ComputeSlimeState::Loaded, render_sensors);
    let head = seq![
        Stage::CopyDisplayToTrail,
        Stage::SlimeSim,
        Stage::Diffuse,
        Stage::CopyDiffuseToDisplay,
    ];
    let tail = if render_sensors {
        seq![Stage::CopyDisplayToSensor, Stage::DrawSensor, Stage::CopySensorToRenderDisplay]
    } else {
        seq![Stage::CopyDisplayToRenderDisplay]
    };
    assert(f == head + tail);
    assert(f.take(4) =~= head);
    assert(f.skip(4) =~= tail);
    if render_sensors {
        assert(f[5] == Stage::DrawSensor);
        assert(!f.contains(Stage::CopyDisplayToRenderDisplay)) by {
            assert forall|x: int| 0 <= x < f.len() implies f[x] != Stage::CopyDisplayToRenderDisplay by {
                if x >= 4 {
                    assert(f[x] == tail[x - 4]);
                }
            }
        }
    } else {
        assert(f[4] == Stage::CopyDisplayToRenderDisplay);
        assert(!f.contains(Stage::DrawSensor)) by {
            assert forall|x: int| 0 <= x < f.len() implies f[x] != Stage::DrawSensor by {
                if x >= 4 {
                    assert(f[x] == tail[x - 4]);
                }
            }
        }
    }
}

/// A settings-only update adds nothing to a frame but the two parameter
/// writes, and those touch only the diffusion and simulation parameter
/// buffers, never a texture: the passes of the frame are those of the
/// frame without the update.
pub proof fn lemma_settings_update_only_rewrites_parameters(
    pipeline: ComputeSlimePipeline,
    settings: AppSettings,
    time: TimeBuffer,
    state: ComputeSlimeState,
)
    ensures
        frame_writes(pipeline, settings, true, time) == pipeline.settings_writes(settings)
            + frame_writes(pipeline, settings, false, time),
        pipeline.settings_writes(settings).len() == 2,
        forall|i: int|
            0 <= i < 2 ==> {
                let b = (#[trigger] pipeline.settings_writes(settings)[i]).0;
                b == BufferSlot::Diffuse || b == BufferSlot::Settings
            },
{
    assert(frame_writes(pipeline, settings, false, time) =~= seq![(BufferSlot::Time, time.words())]);
}

/// While programs compile, a frame is the one bootstrap copy: it reads the
/// host's surface and writes only the internal display, so the host's
/// surface is left as it was.
pub proof fn lemma_bootstrap_frame(pipeline: ComputeSlimePipeline, view: u64, render_sensors: bool)
    requires
        pipeline.bound_to(view),
    ensures
        pipeline.frame_passes(ComputeSlimeState::Init, render_sensors) == seq![
            (Stage::CopyRenderDisplayToDisplay, pipeline.stage_pass(Stage::CopyRenderDisplayToDisplay)),
        ],
        pipeline.stage_pass(Stage::CopyRenderDisplayToDisplay).0 == Shader::Copy,
        pipeline.stage_pass(Stage::CopyRenderDisplayToDisplay).1 == stage_bindings(
            Stage::CopyRenderDisplayToDisplay,
            view,
        ),
        !stage_bindings(Stage::CopyRenderDisplayToDisplay, view).contains(
            Binding::WriteTexture(Texture::RenderDisplay { view }),
        ),
{
    assert(pipeline.bound_entries(Stage::CopyRenderDisplayToDisplay) == Some(
        stage_bindings(Stage::CopyRenderDisplayToDisplay, view),
    ));
    assert(pipeline.frame_passes(ComputeSlimeState::Init, render_sensors) =~= seq![
        (Stage::CopyRenderDisplayToDisplay, pipeline.stage_pass(Stage::CopyRenderDisplayToDisplay)),
    ]);
    let b = stage_bindings(Stage::CopyRenderDisplayToDisplay, view);
    assert(b[0] != Binding::WriteTexture(Texture::RenderDisplay { view }));
    assert(b[1] != Binding::WriteTexture(Texture::RenderDisplay { view }));
    assert(b[2] != Binding::WriteTexture(Texture::RenderDisplay { view }));
}

/// No stage reads the texture it writes: the last two entries of every
/// binding set are the texture it reads and a different texture it writes,
/// and all others are buffers. The overlay stages write only the sensor
/// texture or the host's surface, so the overlay never feeds back into the
/// display, trail and diffusion textures that the simulation carries from
/// frame to frame.
pub proof fn lemma_stage_textures(stage: Stage, view: u64)
    ensures
        ({
            let b = stage_bindings(stage, view);
            let n = b.len() as int;
            &&& n >= 3
            &&& b[n - 2] is ReadTexture
            &&& b[n - 1] is WriteTexture
            &&& b[n - 2]->ReadTexture_0 != b[n - 1]->WriteTexture_0
            &&& forall|k: int| 0 <= k < n - 2 ==> (b[k] is Uniform || b[k] is Storage)
        }),
        (stage == Stage::CopyDisplayToSensor || stage == Stage::DrawSensor || stage
            == Stage::CopySensorToRenderDisplay) ==> {
            let w = stage_bindings(stage, view).last()->WriteTexture_0;
            w == Texture::Sensor || w == Texture::RenderDisplay { view }
        },
{
}

} // verus!
