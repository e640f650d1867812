use vstd::prelude::*;

use crate::color::{rgb565, Color565};

verus! {

/// Number of dye colours to choose from, one per digit key.
pub const PALETTE_SIZE: usize = 10;

/// The 8-bit-per-channel dye colour of digit key `i`.
pub open spec fn palette_rgb888(i: int) -> (int, int, int) {
    if i == 0 {
        (0, 255, 255)  // Electric Cyan

    } else if i == 1 {
        (0, 255, 0)  // Neon Green

    } else if i == 2 {
        (255, 0, 127)  // Hot Pink

    } else if i == 3 {
        (255, 128, 0)  // Vivid Orange

    } else if i == 4 {
        (255, 255, 0)  // Solar Yellow

    } else if i == 5 {
        (178, 0, 255)  // Electric Purple

    } else if i == 6 {
        (51, 102, 255)  // Ultramarine

    } else if i == 7 {
        (255, 0, 51)  // Bright Crimson

    } else if i == 8 {
        (0, 255, 128)  // Spring Green

    } else {
        (255, 255, 255)  // Plasma White

    }
}

/// The RGB565 code of dye colour `i`.
pub open spec fn palette_rgb565(i: int) -> int {
    let (r, g, b) = palette_rgb888(i);
    rgb565(r / 8, g / 4, b / 8)
}

/// The ten dye colours, as RGB565 codes: cyan, green, hot pink, orange,
/// yellow, purple, ultramarine, crimson, spring green and white. No two digit
/// keys give the same colour.
pub proof fn lemma_palette_codes(i: int, j: int)
    ensures
        palette_rgb565(0) == 0x07FF,
        palette_rgb565(1) == 0x07E0,
        palette_rgb565(2) == 0xF80F,
        palette_rgb565(3) == 0xFC00,
        palette_rgb565(4) == 0xFFE0,
        palette_rgb565(5) == 0xB01F,
        palette_rgb565(6) == 0x333F,
        palette_rgb565(7) == 0xF806,
        palette_rgb565(8) == 0x07F0,
        palette_rgb565(9) == 0xFFFF,
        0 <= i < PALETTE_SIZE && 0 <= j < PALETTE_SIZE && i != j ==> palette_rgb565(i)
            != palette_rgb565(j),
{
}

/// The dye colour chosen with digit key `i`.
pub fn fluid_color(i: usize) -> (c: Color565)
    requires
        i < PALETTE_SIZE,
    ensures
        c.value == palette_rgb565(i as int),
        i == 0 ==> c.value == 0x07FF,  // Electric Cyan
        i == 1 ==> c.value == 0x07E0,  // Neon Green
        i == 2 ==> c.value == 0xF80F,  // Hot Pink
        i == 3 ==> c.value == 0xFC00,  // Vivid Orange
        i == 4 ==> c.value == 0xFFE0,  // Solar Yellow
        i == 5 ==> c.value == 0xB01F,  // Electric Purple
        i == 6 ==> c.value == 0x333F,  // Ultramarine
        i == 7 ==> c.value == 0xF806,  // Bright Crimson
        i == 8 ==> c.value == 0x07F0,  // Spring Green
        i == 9 ==> c.value == 0xFFFF,  // Plasma White
{
    if i == 0 {
        Color565::from_rgb888(0, 255, 255)
    } else if i == 1 {
        Color565::from_rgb888(0, 255, 0)
    } else if i == 2 {
        Color565::from_rgb888(255, 0, 127)
    } else if i == 3 {
        Color565::from_rgb888(255, 128, 0)
    } else if i == 4 {
        Color565::from_rgb888(255, 255, 0)
    } else if i == 5 {
        Color565::from_rgb888(178, 0, 255)
    } else if i == 6 {
        Color565::from_rgb888(51, 102, 255)
    } else if i == 7 {
        Color565::from_rgb888(255, 0, 51)
    } else if i == 8 {
        Color565::from_rgb888(0, 255, 128)
    } else {
        Color565::from_rgb888(255, 255, 255)
    }
}

/// The keys seen in one frame: which were just pressed or released, and
/// which are held.
pub struct Keys {
    pub back_released: bool,
    pub backspace_pressed: bool,
    pub exe_pressed: bool,
    /// `digit_pressed[i]`: digit key `i` was just pressed.
    pub digit_pressed: [bool; PALETTE_SIZE],
    pub ok_held: bool,
    pub left_held: bool,
    pub right_held: bool,
    pub up_held: bool,
    pub down_held: bool,
}

/// What the program does in one frame.
pub struct FrameActions {
    /// Leave the program; nothing else happens in this frame.
    pub quit: bool,
    /// Start again from a grid at rest.
    pub reset: bool,
    /// Spawn dye of this colour in the centre.
    pub dye: Option<Color565>,
    /// Direction of the push on the fluid: each component -1, 0 or 1
    /// (right and down positive).
    pub push_x: i32,
    pub push_y: i32,
}

/// The user's settings that last from frame to frame.
pub struct Controls {
    /// The dye colour in use.
    pub color_idx: usize,
    /// Dye flows in every frame, not only while OK is held.
    pub constant_flow: bool,
}

/// The digit chosen among the first `n` digit keys: the highest one just
/// pressed, or `current` if none was.
pub open spec fn chosen_digit(pressed: Seq<bool>, n: int, current: int) -> int
    decreases n,
{
    if n <= 0 {
        current
    } else if pressed[n - 1] {
        n - 1
    } else {
        chosen_digit(pressed, n - 1, current)
    }
}

/// `1` if `b` holds, else `0`.
pub open spec fn count(b: bool) -> int {
    if b {
        1
    } else {
        0
    }
}

/// A digit key picks its colour unless a higher digit is pressed in the same
/// frame; with no digit pressed the colour stays.
pub proof fn lemma_chosen_digit(pressed: Seq<bool>, n: int, current: int, d: int)
    ensures
        (forall|i: int| 0 <= i < n ==> !#[trigger] pressed[i]) ==> chosen_digit(pressed, n, current)
            == current,
        0 <= d < n && pressed[d] && (forall|j: int| d < j < n ==> !#[trigger] pressed[j])
            ==> chosen_digit(pressed, n, current) == d,
    decreases n,
{
    if n > 0 {
        lemma_chosen_digit(pressed, n - 1, current, d);
    }
}

impl Controls {
    /// The settings at start: the first colour, dye only while OK is held.
    pub fn new() -> (c: Self)
        ensures
            c.color_idx == 0,
            !c.constant_flow,
    {
        Controls { color_idx: 0, constant_flow: false }
    }

    /// One frame of input: BACK released quits; BACKSPACE resets the grid; EXE
    /// toggles the constant flow; a digit picks the dye colour; dye is spawned
    /// while OK is held, while the program is warming up, or always with the
    /// constant flow; the arrow keys push the fluid.
    pub fn update(&mut self, keys: &Keys, warming_up: bool) -> (a: FrameActions)
        requires
            old(self).color_idx < PALETTE_SIZE,
        ensures
            final(self).color_idx < PALETTE_SIZE,
            a.quit == keys.back_released,
            a.quit ==> {
                &&& final(self).color_idx == old(self).color_idx
                &&& final(self).constant_flow == old(self).constant_flow
                &&& !a.reset
                &&& a.dye is None
                &&& a.push_x == 0
                &&& a.push_y == 0
            },
            !a.quit ==> {
                &&& a.reset == keys.backspace_pressed
                &&& final(self).constant_flow == (old(self).constant_flow != keys.exe_pressed)
                &&& final(self).color_idx == chosen_digit(
                    keys.digit_pressed@,
                    PALETTE_SIZE as int,
                    old(self).color_idx as int,
                )
                &&& (keys.ok_held || warming_up || final(self).constant_flow) ==> a.dye == Some(
                    Color565 { value: palette_rgb565(final(self).color_idx as int) as u16 },
                )
                &&& !(keys.ok_held || warming_up || final(self).constant_flow) ==> a.dye is None
                &&& a.push_x == count(keys.right_held) - count(keys.left_held)
                &&& a.push_y == count(keys.down_held) - count(keys.up_held)
            },
    {
        if keys.back_released {
            return FrameActions { quit: true, reset: false, dye: None, push_x: 0, push_y: 0 };
        }
        if keys.exe_pressed {
            self.constant_flow = !self.constant_flow;
        }
        let ghost current = old(self).color_idx as int;
        let mut i: usize = 0;
        while i < PALETTE_SIZE
            invariant
                i <= PALETTE_SIZE,
                0 <= current < PALETTE_SIZE,
                self.color_idx == chosen_digit(keys.digit_pressed@, i as int, current),
                self.color_idx < PALETTE_SIZE,
                self.constant_flow == (old(self).constant_flow != keys.exe_pressed),
            decreases PALETTE_SIZE - i,
        {
            if keys.digit_pressed[i] {
                self.color_idx = i;
            }
            i = i + 1;
        }
        let dye = if keys.ok_held || warming_up || self.constant_flow {
            let c = fluid_color(self.color_idx);
            assert(c == Color565 { value: palette_rgb565(self.color_idx as int) as u16 });
            Some(c)
        } else {
            None
        };
        let mut push_x: i32 = 0;
        let mut push_y: i32 = 0;
        if keys.left_held {
            push_x = push_x - 1;
        }
        if keys.right_held {
            push_x = push_x + 1;
        }
        if keys.up_held {
            push_y = push_y - 1;
        }
        if keys.down_held {
            push_y = push_y + 1;
        }
        FrameActions { quit: false, reset: keys.backspace_pressed, dye, push_x, push_y }
    }
}

} // verus!
