//! The render loop's state: which scene is active, and how commands change it.
use crate::command::message_command;
use crate::scene::{black, colour_of_step, scene_id_of, scene_name, DrawOp, Scene, SceneId};
use vstd::prelude::*;
use vstd::utf8::valid_utf8;

verus! {

/// The scene that is active after `command` arrives while `scene` is active.
/// A command that names the active scene changes nothing; any other command
/// enters its scene afresh.
pub open spec fn transition(scene: Scene, command: Seq<char>) -> Scene {
    if scene_id_of(command) == scene.spec_id() {
        scene
    } else {
        Scene::entered(scene_id_of(command))
    }
}

/// The scene that is active after the render loop has looked for a command:
/// unchanged when none was pending.
pub open spec fn after_poll(scene: Scene, command: Option<Seq<char>>) -> Scene {
    match command {
        Some(c) => transition(scene, c),
        None => scene,
    }
}

/// The state of the render loop: exactly one scene is active at any time.
pub struct SceneEngine {
    pub scene: Scene,
}

impl SceneEngine {
    /// The engine as it starts, showing the blank scene.
    pub fn new() -> (r: SceneEngine)
        ensures
            r.scene == Scene::Blank,
    {
        SceneEngine { scene: Scene::Blank }
    }

    /// The identifier of the active scene.
    pub fn active(&self) -> (r: SceneId)
        ensures
            r == self.scene.spec_id(),
    {
        self.scene.id()
    }

    /// Applies one command: a command naming the active scene is ignored,
    /// any other one enters the scene it selects.
    pub fn apply_command(&mut self, command: &str)
        ensures
            final(self).scene == transition(old(self).scene, command@),
    {
        let id = SceneId::from_command(command);
        if id != self.scene.id() {
            self.scene = Scene::enter(id);
        }
    }

    /// One iteration of the render loop: takes at most one pending command,
    /// then produces the active scene's next frame.
    pub fn render(&mut self, command: Option<&str>) -> (frame: Vec<DrawOp>)
        ensures
            ({
                let scene = after_poll(
                    old(self).scene,
                    match command {
                        Some(c) => Some(c@),
                        None => None,
                    },
                );
                &&& frame@ == scene.frame()
                &&& final(self).scene == scene.after_frame()
            }),
    {
        match command {
            Some(c) => self.apply_command(c),
            None => {},
        }
        self.scene.next_frame()
    }
}

/// A command that names none of the scenes leaves the blank scene active,
/// whatever was active before.
pub proof fn unknown_command_selects_blank(scene: Scene, command: Seq<char>)
    requires
        command != scene_name(SceneId::Blank),
        command != scene_name(SceneId::ColourCycle),
        command != scene_name(SceneId::OnAir),
    ensures
        transition(scene, command) == Scene::Blank,
{
}

/// Sending the command of the active scene again, however many frames later,
/// changes nothing: in particular the colour cycle keeps its counter.
pub proof fn repeated_command_keeps_state(scene: Scene, command: Seq<char>, frames: nat)
    ensures
        ({
            let entered = transition(scene, command).after_frames(frames);
            transition(entered, command) == entered
        }),
{
    lemma_frames_keep_id(transition(scene, command), frames);
}

/// Leaving the colour cycle for another scene and coming back starts its
/// counter again at 0.
pub proof fn reentered_colour_cycle_starts_at_zero(
    step: u32,
    frames: nat,
    away: Seq<char>,
    back: Seq<char>,
)
    requires
        scene_id_of(away) != SceneId::ColourCycle,
        scene_id_of(back) == SceneId::ColourCycle,
    ensures
        ({
            let left = transition(Scene::ColourCycle { step }.after_frames(frames), away);
            transition(left, back) == (Scene::ColourCycle { step: 0 })
        }),
{
    lemma_frames_keep_id(Scene::ColourCycle { step }, frames);
}

proof fn lemma_frames_keep_id(scene: Scene, frames: nat)
    ensures
        scene.after_frames(frames).spec_id() == scene.spec_id(),
    decreases frames,
{
    if frames > 0 {
        lemma_frames_keep_id(scene, (frames - 1) as nat);
    }
}

/// After `n` frames from entry the colour cycle's counter is `n` modulo 2^24.
pub proof fn colour_cycle_counter_after(n: nat)
    ensures
        Scene::entered(SceneId::ColourCycle).after_frames(n) == (Scene::ColourCycle {
            step: (n % 0x100_0000) as u32,
        }),
    decreases n,
{
    if n > 0 {
        colour_cycle_counter_after((n - 1) as nat);
        let p = ((n - 1) as nat % 0x100_0000) as u32;
        assert(p as int == (n - 1) % 0x100_0000);
        assert((p % 0x100_0000 + 1) % 0x100_0000 == n % 0x100_0000);
    }
}

/// The colour cycle's frames repeat with period 2^24: frame `n + 2^24` after
/// entry equals frame `n`, and frame 2^24 is black again.
pub proof fn colour_cycle_repeats(n: nat)
    ensures
        Scene::entered(SceneId::ColourCycle).after_frames(n + 0x100_0000).frame()
            == Scene::entered(SceneId::ColourCycle).after_frames(n).frame(),
        Scene::entered(SceneId::ColourCycle).after_frames(0x100_0000).frame() == seq![
            DrawOp::Fill { colour: black() },
        ],
        Scene::entered(SceneId::ColourCycle).after_frames(n).frame() == seq![
            DrawOp::Fill { colour: colour_of_step((n % 0x100_0000) as u32) },
        ],
{
    colour_cycle_counter_after(n);
    colour_cycle_counter_after(n + 0x100_0000);
    colour_cycle_counter_after(0x100_0000);
    assert((n + 0x100_0000) % 0x100_0000 == n % 0x100_0000);
    assert(colour_of_step(0) == black()) by (bit_vector);
}

/// The blank scene draws the same all-black frame on every call.
pub proof fn blank_is_always_black(n: nat)
    ensures
        Scene::Blank.after_frames(n) == Scene::Blank,
        Scene::Blank.after_frames(n).frame() == seq![DrawOp::Fill { colour: black() }],
    decreases n,
{
    if n > 0 {
        blank_is_always_black((n - 1) as nat);
    }
}

/// The on-air sign draws an identical frame on every call.
pub proof fn on_air_is_constant(n: nat)
    ensures
        Scene::OnAir.after_frames(n) == Scene::OnAir,
        Scene::OnAir.after_frames(n).frame() == Scene::OnAir.frame(),
    decreases n,
{
    if n > 0 {
        on_air_is_constant((n - 1) as nat);
    }
}

/// A message whose body is not well-formed UTF-8 carries no command, so the
/// scene that was active stays active with its state untouched.
pub proof fn malformed_payload_keeps_scene(scene: Scene, topic: Seq<char>, payload: Seq<u8>)
    requires
        !valid_utf8(payload),
    ensures
        message_command(topic, payload) is None,
        after_poll(scene, message_command(topic, payload)) == scene,
{
}

} // verus!
