//! The joypad buttons and sets of buttons held down at once.

use vstd::prelude::*;

verus! {

#[derive(Debug, Clone, Copy, PartialEq, Eq, Structural)]
pub enum Button {
    A,
    B,
    Start,
    Select,
    Up,
    Down,
    Left,
    Right,
}

/// The bit that stands for a button in a packed button set.
pub open spec fn button_mask(b: Button) -> u8 {
    match b {
        Button::A => 0x01,
        Button::B => 0x02,
        Button::Start => 0x04,
        Button::Select => 0x08,
        Button::Up => 0x10,
        Button::Down => 0x20,
        Button::Left => 0x40,
        Button::Right => 0x80,
    }
}

/// A set of buttons, one bit per button.
#[derive(Debug, Clone, Copy, PartialEq, Eq, Structural)]
pub struct ButtonSet {
    pub bits: u8,
}

impl ButtonSet {
    /// Whether the set holds the button.
    pub open spec fn spec_contains(self, b: Button) -> bool {
        self.bits & button_mask(b) != 0
    }

    pub fn empty() -> (r: ButtonSet)
        ensures
            r.bits == 0,
    {
        ButtonSet { bits: 0 }
    }

    pub fn contains(&self, b: Button) -> (r: bool)
        ensures
            r == self.spec_contains(b),
    {
        (self.bits & mask_of(b)) != 0
    }

    pub fn insert(&mut self, b: Button)
        ensures
            final(self).bits == old(self).bits | button_mask(b),
    {
        self.bits = self.bits | mask_of(b);
    }

    pub fn remove(&mut self, b: Button)
        ensures
            final(self).bits == old(self).bits & !button_mask(b),
    {
        self.bits = self.bits & !mask_of(b);
    }
}

fn mask_of(b: Button) -> (r: u8)
    ensures
        r == button_mask(b),
{
    match b {
        Button::A => 0x01,
        Button::B => 0x02,
        Button::Start => 0x04,
        Button::Select => 0x08,
        Button::Up => 0x10,
        Button::Down => 0x20,
        Button::Left => 0x40,
        Button::Right => 0x80,
    }
}

} // verus!
