//! A 16-bit joypad input mask, one bit per libretro joypad button id
//! (B, Y, Select, Start, Up, Down, Left, Right, A, X, L, R, L2, R2, L3, R3).
//! All mutators are value-returning: the type is plain 16-bit data.

use vstd::prelude::*;

verus! {

pub const JOYPAD_ID_B: u32 = 0;

pub const JOYPAD_ID_Y: u32 = 1;

pub const JOYPAD_ID_SELECT: u32 = 2;

pub const JOYPAD_ID_START: u32 = 3;

pub const JOYPAD_ID_UP: u32 = 4;

pub const JOYPAD_ID_DOWN: u32 = 5;

pub const JOYPAD_ID_LEFT: u32 = 6;

pub const JOYPAD_ID_RIGHT: u32 = 7;

pub const JOYPAD_ID_A: u32 = 8;

pub const JOYPAD_ID_X: u32 = 9;

pub const JOYPAD_ID_L: u32 = 10;

pub const JOYPAD_ID_R: u32 = 11;

pub const JOYPAD_ID_L2: u32 = 12;

pub const JOYPAD_ID_R2: u32 = 13;

pub const JOYPAD_ID_L3: u32 = 14;

pub const JOYPAD_ID_R3: u32 = 15;

/// Whether bit `id` of a packed button mask is set.
pub open spec fn mask_bit(m: i16, id: u32) -> bool {
    m & (1i16 << id) != 0
}

/// A packed button mask with bit `id` forced to `b`.
pub open spec fn mask_with_bit(m: i16, id: u32, b: bool) -> i16 {
    if b {
        m | (1i16 << id)
    } else {
        m & !(1i16 << id)
    }
}

#[derive(Copy, Clone, PartialEq, Eq, Structural, PartialOrd, Ord, Hash, Debug)]
pub struct Buttons(i16);

impl Buttons {
    /// The packed 16-bit mask this value stands for.
    pub closed spec fn raw(self) -> i16 {
        self.0
    }

    pub fn new() -> (b: Buttons)
        ensures
            b.raw() == 0,
    {
        Buttons(0)
    }

    /// Whether the button with the given joypad id is held.
    pub fn get(self, id: u32) -> (r: bool)
        requires
            id < 16,
        ensures
            r == mask_bit(self.raw(), id),
    {
        (self.0 & (1i16 << id)) != 0
    }

    /// This mask with the button of the given joypad id forced to `b`.
    pub fn mask_inout(self, b: bool, id: u32) -> (r: Buttons)
        requires
            id < 16,
        ensures
            r.raw() == mask_with_bit(self.raw(), id, b),
    {
        if b {
            Buttons(self.0 | (1i16 << id))
        } else {
            Buttons(self.0 & !(1i16 << id))
        }
    }

    pub fn up(self, b: bool) -> (r: Buttons)
        ensures
            r.raw() == mask_with_bit(self.raw(), JOYPAD_ID_UP, b),
    {
        self.mask_inout(b, JOYPAD_ID_UP)
    }

    pub fn down(self, b: bool) -> (r: Buttons)
        ensures
            r.raw() == mask_with_bit(self.raw(), JOYPAD_ID_DOWN, b),
    {
        self.mask_inout(b, JOYPAD_ID_DOWN)
    }

    pub fn left(self, b: bool) -> (r: Buttons)
        ensures
            r.raw() == mask_with_bit(self.raw(), JOYPAD_ID_LEFT, b),
    {
        self.mask_inout(b, JOYPAD_ID_LEFT)
    }

    pub fn right(self, b: bool) -> (r: Buttons)
        ensures
            r.raw() == mask_with_bit(self.raw(), JOYPAD_ID_RIGHT, b),
    {
        self.mask_inout(b, JOYPAD_ID_RIGHT)
    }

    pub fn select(self, b: bool) -> (r: Buttons)
        ensures
            r.raw() == mask_with_bit(self.raw(), JOYPAD_ID_SELECT, b),
    {
        self.mask_inout(b, JOYPAD_ID_SELECT)
    }

    pub fn start(self, b: bool) -> (r: Buttons)
        ensures
            r.raw() == mask_with_bit(self.raw(), JOYPAD_ID_START, b),
    {
        self.mask_inout(b, JOYPAD_ID_START)
    }

    pub fn a(self, b: bool) -> (r: Buttons)
        ensures
            r.raw() == mask_with_bit(self.raw(), JOYPAD_ID_A, b),
    {
        self.mask_inout(b, JOYPAD_ID_A)
    }

    pub fn b(self, b: bool) -> (r: Buttons)
        ensures
            r.raw() == mask_with_bit(self.raw(), JOYPAD_ID_B, b),
    {
        self.mask_inout(b, JOYPAD_ID_B)
    }

    pub fn y(self, b: bool) -> (r: Buttons)
        ensures
            r.raw() == mask_with_bit(self.raw(), JOYPAD_ID_Y, b),
    {
        self.mask_inout(b, JOYPAD_ID_Y)
    }

    pub fn x(self, b: bool) -> (r: Buttons)
        ensures
            r.raw() == mask_with_bit(self.raw(), JOYPAD_ID_X, b),
    {
        self.mask_inout(b, JOYPAD_ID_X)
    }

    pub fn l1(self, b: bool) -> (r: Buttons)
        ensures
            r.raw() == mask_with_bit(self.raw(), JOYPAD_ID_L, b),
    {
        self.mask_inout(b, JOYPAD_ID_L)
    }

    pub fn r1(self, b: bool) -> (r: Buttons)
        ensures
            r.raw() == mask_with_bit(self.raw(), JOYPAD_ID_R, b),
    {
        self.mask_inout(b, JOYPAD_ID_R)
    }

    pub fn l2(self, b: bool) -> (r: Buttons)
        ensures
            r.raw() == mask_with_bit(self.raw(), JOYPAD_ID_L2, b),
    {
        self.mask_inout(b, JOYPAD_ID_L2)
    }

    pub fn r2(self, b: bool) -> (r: Buttons)
        ensures
            r.raw() == mask_with_bit(self.raw(), JOYPAD_ID_R2, b),
    {
        self.mask_inout(b, JOYPAD_ID_R2)
    }

    pub fn l3(self, b: bool) -> (r: Buttons)
        ensures
            r.raw() == mask_with_bit(self.raw(), JOYPAD_ID_L3, b),
    {
        self.mask_inout(b, JOYPAD_ID_L3)
    }

    pub fn r3(self, b: bool) -> (r: Buttons)
        ensures
            r.raw() == mask_with_bit(self.raw(), JOYPAD_ID_R3, b),
    {
        self.mask_inout(b, JOYPAD_ID_R3)
    }

    pub fn get_up(self) -> (r: bool)
        ensures
            r == mask_bit(self.raw(), JOYPAD_ID_UP),
    {
        self.get(JOYPAD_ID_UP)
    }

    pub fn get_down(self) -> (r: bool)
        ensures
            r == mask_bit(self.raw(), JOYPAD_ID_DOWN),
    {
        self.get(JOYPAD_ID_DOWN)
    }

    pub fn get_left(self) -> (r: bool)
        ensures
            r == mask_bit(self.raw(), JOYPAD_ID_LEFT),
    {
        self.get(JOYPAD_ID_LEFT)
    }

    pub fn get_right(self) -> (r: bool)
        ensures
            r == mask_bit(self.raw(), JOYPAD_ID_RIGHT),
    {
        self.get(JOYPAD_ID_RIGHT)
    }

    pub fn get_select(self) -> (r: bool)
        ensures
            r == mask_bit(self.raw(), JOYPAD_ID_SELECT),
    {
        self.get(JOYPAD_ID_SELECT)
    }

    pub fn get_start(self) -> (r: bool)
        ensures
            r == mask_bit(self.raw(), JOYPAD_ID_START),
    {
        self.get(JOYPAD_ID_START)
    }

    pub fn get_a(self) -> (r: bool)
        ensures
            r == mask_bit(self.raw(), JOYPAD_ID_A),
    {
        self.get(JOYPAD_ID_A)
    }

    pub fn get_b(self) -> (r: bool)
        ensures
            r == mask_bit(self.raw(), JOYPAD_ID_B),
    {
        self.get(JOYPAD_ID_B)
    }

    pub fn get_y(self) -> (r: bool)
        ensures
            r == mask_bit(self.raw(), JOYPAD_ID_Y),
    {
        self.get(JOYPAD_ID_Y)
    }

    pub fn get_x(self) -> (r: bool)
        ensures
            r == mask_bit(self.raw(), JOYPAD_ID_X),
    {
        self.get(JOYPAD_ID_X)
    }

    pub fn get_l1(self) -> (r: bool)
        ensures
            r == mask_bit(self.raw(), JOYPAD_ID_L),
    {
        self.get(JOYPAD_ID_L)
    }

    pub fn get_r1(self) -> (r: bool)
        ensures
            r == mask_bit(self.raw(), JOYPAD_ID_R),
    {
        self.get(JOYPAD_ID_R)
    }

    pub fn get_l2(self) -> (r: bool)
        ensures
            r == mask_bit(self.raw(), JOYPAD_ID_L2),
    {
        self.get(JOYPAD_ID_L2)
    }

    pub fn get_r2(self) -> (r: bool)
        ensures
            r == mask_bit(self.raw(), JOYPAD_ID_R2),
    {
        self.get(JOYPAD_ID_R2)
    }

    pub fn get_l3(self) -> (r: bool)
        ensures
            r == mask_bit(self.raw(), JOYPAD_ID_L3),
    {
        self.get(JOYPAD_ID_L3)
    }

    pub fn get_r3(self) -> (r: bool)
        ensures
            r == mask_bit(self.raw(), JOYPAD_ID_R3),
    {
        self.get(JOYPAD_ID_R3)
    }
}

impl Default for Buttons {
    fn default() -> (b: Buttons)
        ensures
            b.raw() == 0,
    {
        Buttons(0)
    }
}

impl From<Buttons> for i16 {
    fn from(b: Buttons) -> (r: i16) {
        b.0
    }
}

impl vstd::std_specs::convert::FromSpecImpl<Buttons> for i16 {
    open spec fn obeys_from_spec() -> bool {
        true
    }

    open spec fn from_spec(b: Buttons) -> i16 {
        b.raw()
    }
}

/// Setting any of the 16 button bits on a fresh mask makes that button read
/// back as held, and the raw mask has exactly that bit set.
pub proof fn lemma_set_bit_reads_back(m: i16, i: u32)
    requires
        i < 16,
    ensures
        mask_bit(mask_with_bit(m, i, true), i),
        mask_with_bit(m, i, true) & (1i16 << i) != 0,
        !mask_bit(mask_with_bit(m, i, false), i),
{
    assert({
        &&& (m | (1i16 << i)) & (1i16 << i) != 0
        &&& (m & !(1i16 << i)) & (1i16 << i) == 0
    }) by (bit_vector)
        requires
            i < 16,
    ;
}

} // verus!
