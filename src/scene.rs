//! The three scenes and the frames each one produces.
use vstd::prelude::*;

verus! {

/// Width of the physical matrix, in pixels.
pub const MATRIX_WIDTH: u32 = 32;

/// Height of the physical matrix, in pixels.
pub const MATRIX_HEIGHT: u32 = 16;

/// The colour cycle's counter runs modulo this value (2^24).
pub const STEP_MODULUS: u32 = 0x100_0000;

/// A colour with eight bits per channel.
#[derive(Clone, Copy, Debug, PartialEq, Eq, Structural)]
pub struct Rgb {
    pub red: u8,
    pub green: u8,
    pub blue: u8,
}

pub open spec fn black() -> Rgb {
    Rgb { red: 0, green: 0, blue: 0 }
}

/// The accent colour of the on-air sign.
pub open spec fn accent() -> Rgb {
    Rgb { red: 255, green: 0, blue: 0 }
}

/// The colour that the colour cycle shows at counter value `s`:
/// bits 16 to 23 are red, 8 to 15 green, 0 to 7 blue.
pub open spec fn colour_of_step(s: u32) -> Rgb {
    Rgb {
        red: ((s >> 16u32) & 0xFFu32) as u8,
        green: ((s >> 8u32) & 0xFFu32) as u8,
        blue: (s & 0xFFu32) as u8,
    }
}

impl Rgb {
    pub fn black() -> (r: Rgb)
        ensures
            r == black(),
    {
        Rgb { red: 0, green: 0, blue: 0 }
    }

    pub fn accent() -> (r: Rgb)
        ensures
            r == accent(),
    {
        Rgb { red: 255, green: 0, blue: 0 }
    }

    /// The 24-bit counter value `s` unpacked big-endian into three channels.
    pub fn from_step(s: u32) -> (r: Rgb)
        ensures
            r == colour_of_step(s),
    {
        Rgb {
            red: ((s >> 16u32) & 0xFFu32) as u8,
            green: ((s >> 8u32) & 0xFFu32) as u8,
            blue: (s & 0xFFu32) as u8,
        }
    }
}

/// A text label drawn in the matrix's fixed-width font.
#[derive(Clone, Copy, Debug, PartialEq, Eq, Structural)]
pub enum Label {
    On,
    Air,
}

impl Label {
    pub open spec fn spec_text(self) -> Seq<char> {
        match self {
            Label::On => seq!['O', 'N'],
            Label::Air => seq!['A', 'I', 'R'],
        }
    }

    /// The characters of the label.
    pub fn text(&self) -> (r: &'static str)
        ensures
            r@ == self.spec_text(),
    {
        match self {
            Label::On => {
                proof {
                    reveal_strlit("ON");
                }
                "ON"
            },
            Label::Air => {
                proof {
                    reveal_strlit("AIR");
                }
                "AIR"
            },
        }
    }
}

/// One drawing operation on an off-screen buffer of the matrix.
#[derive(Clone, Copy, Debug, PartialEq, Eq, Structural)]
pub enum DrawOp {
    /// Paint every pixel in one colour.
    Fill { colour: Rgb },
    /// The outline of a rectangle, `stroke` pixels wide, not filled.
    RectOutline { x: i32, y: i32, width: u32, height: u32, stroke: u32, colour: Rgb },
    /// A label whose baseline starts at `(x, y)`.
    Text { x: i32, y: i32, label: Label, colour: Rgb },
}

/// What the on-air sign draws: a cleared buffer, an outline round the whole
/// matrix, and the words "ON" and "AIR" set close together.
pub open spec fn on_air_ops() -> Seq<DrawOp> {
    seq![
        DrawOp::Fill { colour: black() },
        DrawOp::RectOutline {
            x: 0,
            y: 0,
            width: MATRIX_WIDTH,
            height: MATRIX_HEIGHT,
            stroke: 1,
            colour: accent(),
        },
        DrawOp::Text { x: 3, y: 10, label: Label::On, colour: accent() },
        DrawOp::Text { x: 15, y: 10, label: Label::Air, colour: accent() },
    ]
}

/// The identifier of a scene.
#[derive(Clone, Copy, Debug, PartialEq, Eq, Structural)]
pub enum SceneId {
    Blank,
    ColourCycle,
    OnAir,
}

/// The command text that selects each scene.
pub open spec fn scene_name(id: SceneId) -> Seq<char> {
    match id {
        SceneId::Blank => seq!['b', 'l', 'a', 'n', 'k'],
        SceneId::ColourCycle => seq!['c', 'o', 'l', 'o', 'u', 'r', 'c', 'y', 'c', 'l', 'e'],
        SceneId::OnAir => seq!['o', 'n', 'a', 'i', 'r'],
    }
}

/// The scene that a command selects: any text but the three names selects
/// the blank scene.
pub open spec fn scene_id_of(command: Seq<char>) -> SceneId {
    if command == scene_name(SceneId::ColourCycle) {
        SceneId::ColourCycle
    } else if command == scene_name(SceneId::OnAir) {
        SceneId::OnAir
    } else {
        SceneId::Blank
    }
}

/// Whether two strings hold the same characters.
fn same_text(a: &str, b: &str) -> (r: bool)
    ensures
        r == (a@ == b@),
{
    let n = a.unicode_len();
    if n != b.unicode_len() {
        return false;
    }
    let mut i: usize = 0;
    while i < n
        invariant
            n == a@.len(),
            n == b@.len(),
            0 <= i <= n,
            a@.subrange(0, i as int) == b@.subrange(0, i as int),
        decreases n - i,
    {
        if a.get_char(i) != b.get_char(i) {
            return false;
        }
        assert(a@.subrange(0, i + 1) == a@.subrange(0, i as int).push(a@[i as int]));
        assert(b@.subrange(0, i + 1) == b@.subrange(0, i as int).push(b@[i as int]));
        i = i + 1;
    }
    assert(a@ == a@.subrange(0, n as int));
    assert(b@ == b@.subrange(0, n as int));
    true
}

impl SceneId {
    /// The command text that selects this scene.
    pub fn name(&self) -> (r: &'static str)
        ensures
            r@ == scene_name(*self),
    {
        match self {
            SceneId::Blank => {
                proof {
                    reveal_strlit("blank");
                }
                "blank"
            },
            SceneId::ColourCycle => {
                proof {
                    reveal_strlit("colourcycle");
                }
                "colourcycle"
            },
            SceneId::OnAir => {
                proof {
                    reveal_strlit("onair");
                }
                "onair"
            },
        }
    }

    /// The scenes that a command can select, in the order offered to the bus.
    pub fn all() -> (r: Vec<SceneId>)
        ensures
            r@ == seq![SceneId::Blank, SceneId::ColourCycle, SceneId::OnAir],
    {
        vec![SceneId::Blank, SceneId::ColourCycle, SceneId::OnAir]
    }

    /// The scene that `command` selects; unknown commands select the blank scene.
    pub fn from_command(command: &str) -> (r: SceneId)
        ensures
            r == scene_id_of(command@),
    {
        if same_text(command, SceneId::ColourCycle.name()) {
            SceneId::ColourCycle
        } else if same_text(command, SceneId::OnAir.name()) {
            SceneId::OnAir
        } else {
            SceneId::Blank
        }
    }
}

/// The counter value that follows `s`, modulo 2^24.
pub open spec fn next_step(s: u32) -> u32 {
    ((s % 0x100_0000 + 1) % 0x100_0000) as u32
}

/// A scene with the state it needs to produce frames.
#[derive(Clone, Copy, Debug, PartialEq, Eq, Structural)]
pub enum Scene {
    /// Every pixel off.
    Blank,
    /// The whole matrix in one colour that changes on every frame.
    ColourCycle { step: u32 },
    /// A red frame with the words "ON AIR".
    OnAir,
}

impl Scene {
    pub open spec fn spec_id(self) -> SceneId {
        match self {
            Scene::Blank => SceneId::Blank,
            Scene::ColourCycle { .. } => SceneId::ColourCycle,
            Scene::OnAir => SceneId::OnAir,
        }
    }

    /// The frame that this scene draws next.
    pub open spec fn frame(self) -> Seq<DrawOp> {
        match self {
            Scene::Blank => seq![DrawOp::Fill { colour: black() }],
            Scene::ColourCycle { step } => seq![DrawOp::Fill { colour: colour_of_step(step) }],
            Scene::OnAir => on_air_ops(),
        }
    }

    /// The scene's state once it has drawn a frame.
    pub open spec fn after_frame(self) -> Scene {
        match self {
            Scene::ColourCycle { step } => Scene::ColourCycle { step: next_step(step) },
            _ => self,
        }
    }

    /// The scene's state once it has drawn `n` frames.
    pub open spec fn after_frames(self, n: nat) -> Scene
        decreases n,
    {
        if n == 0 {
            self
        } else {
            self.after_frames((n - 1) as nat).after_frame()
        }
    }

    /// The scene as it is on entry: the colour cycle starts at 0.
    pub open spec fn entered(id: SceneId) -> Scene {
        match id {
            SceneId::Blank => Scene::Blank,
            SceneId::ColourCycle => Scene::ColourCycle { step: 0 },
            SceneId::OnAir => Scene::OnAir,
        }
    }

    pub fn id(&self) -> (r: SceneId)
        ensures
            r == self.spec_id(),
    {
        match self {
            Scene::Blank => SceneId::Blank,
            Scene::ColourCycle { .. } => SceneId::ColourCycle,
            Scene::OnAir => SceneId::OnAir,
        }
    }

    /// A fresh scene for `id`.
    pub fn enter(id: SceneId) -> (r: Scene)
        ensures
            r == Scene::entered(id),
    {
        match id {
            SceneId::Blank => Scene::Blank,
            SceneId::ColourCycle => Scene::ColourCycle { step: 0 },
            SceneId::OnAir => Scene::OnAir,
        }
    }

    /// Produces the next frame and advances the colour cycle's counter,
    /// which wraps to 0 after 2^24 - 1.
    pub fn next_frame(&mut self) -> (frame: Vec<DrawOp>)
        ensures
            frame@ == old(self).frame(),
            *final(self) == old(self).after_frame(),
    {
        match self {
            Scene::Blank => vec![DrawOp::Fill { colour: Rgb::black() }],
            Scene::ColourCycle { step } => {
                let s: u32 = *step;
                let frame = vec![DrawOp::Fill { colour: Rgb::from_step(s) }];
                let low: u32 = s & 0xFF_FFFFu32;
                assert(low == s % 0x100_0000) by (bit_vector)
                    requires
                        low == s & 0xFF_FFFFu32,
                ;
                *step = if low == 0xFF_FFFFu32 {
                    0
                } else {
                    low + 1
                };
                frame
            },
            Scene::OnAir => {
                let accent = Rgb::accent();
                vec![
                    DrawOp::Fill { colour: Rgb::black() },
                    DrawOp::RectOutline {
                        x: 0,
                        y: 0,
                        width: MATRIX_WIDTH,
                        height: MATRIX_HEIGHT,
                        stroke: 1,
                        colour: accent,
                    },
                    DrawOp::Text { x: 3, y: 10, label: Label::On, colour: accent },
                    DrawOp::Text { x: 15, y: 10, label: Label::Air, colour: accent },
                ]
            },
        }
    }
}

} // verus!
