//! Button state: eight named buttons collapse into a 4-bit read-only
//! status nibble, selected by two write-only select bits (direction
//! group versus action group).  A nibble bit reads 0 while its button is
//! held.

use vstd::prelude::*;

verus! {

/// The eight console buttons.  Mapping host keys onto these is the
//  frontend's concern.
#[derive(Clone, Copy, PartialEq, Eq, Structural, Debug)]
pub enum Button {
    Right,
    Left,
    Up,
    Down,
    A,
    B,
    Select,
    Start,
}

pub struct Joypad {
    /// The last value written to the select register (0xFF00).
    pub select_switch: u8,
    pub right: bool,
    pub left: bool,
    pub up: bool,
    pub down: bool,
    pub a: bool,
    pub b: bool,
    pub select: bool,
    pub start: bool,
}

impl Joypad {
    pub fn new() -> (r: Joypad)
        ensures
            r == (Joypad {
                select_switch: 0u8,
                right: false,
                left: false,
                up: false,
                down: false,
                a: false,
                b: false,
                select: false,
                start: false,
            }),
    {
        Joypad {
            select_switch: 0,
            right: false,
            left: false,
            up: false,
            down: false,
            a: false,
            b: false,
            select: false,
            start: false,
        }
    }

    /// The active-low nibble for the direction group.
    pub open spec fn dir_nibble(&self) -> u8 {
        (((if self.right {
            0int
        } else {
            1int
        }) + (if self.left {
            0int
        } else {
            2int
        }) + (if self.up {
            0int
        } else {
            4int
        }) + (if self.down {
            0int
        } else {
            8int
        })) as u8)
    }

    /// The active-low nibble for the action group.
    pub open spec fn action_nibble(&self) -> u8 {
        (((if self.a {
            0int
        } else {
            1int
        }) + (if self.b {
            0int
        } else {
            2int
        }) + (if self.select {
            0int
        } else {
            4int
        }) + (if self.start {
            0int
        } else {
            8int
        })) as u8)
    }

    /// What a read of the joypad register returns: the select bits pick
    /// the direction group (bit 4 low) or the action group (bit 5 low);
    /// with neither group selected only the written select value reads
    /// back.
    pub open spec fn spec_read(&self) -> u8 {
        if (self.select_switch / 16) % 2 == 0 {
            self.select_switch | self.dir_nibble()
        } else if (self.select_switch / 32) % 2 == 0 {
            self.select_switch | self.action_nibble()
        } else {
            self.select_switch
        }
    }

    pub fn read(&self, addr: u16) -> (r: u8)
        requires
            addr == 0xFF00,
        ensures
            r == self.spec_read(),
    {
        if (self.select_switch / 16) % 2 == 0 {
            let mut keys: u8 = 0;
            if !self.right {
                keys += 1;
            }
            if !self.left {
                keys += 2;
            }
            if !self.up {
                keys += 4;
            }
            if !self.down {
                keys += 8;
            }
            self.select_switch | keys
        } else if (self.select_switch / 32) % 2 == 0 {
            let mut keys: u8 = 0;
            if !self.a {
                keys += 1;
            }
            if !self.b {
                keys += 2;
            }
            if !self.select {
                keys += 4;
            }
            if !self.start {
                keys += 8;
            }
            self.select_switch | keys
        } else {
            self.select_switch
        }
    }

    pub fn write(&mut self, addr: u16, dat: u8)
        requires
            addr == 0xFF00,
        ensures
            *final(self) == (Joypad { select_switch: dat, ..*old(self) }),
    {
        self.select_switch = dat;
    }

    /// The button state with `key` forced to `held`.
    pub open spec fn spec_with_key(&self, key: Button, held: bool) -> Joypad {
        match key {
            Button::Right => Joypad { right: held, ..*self },
            Button::Left => Joypad { left: held, ..*self },
            Button::Up => Joypad { up: held, ..*self },
            Button::Down => Joypad { down: held, ..*self },
            Button::A => Joypad { a: held, ..*self },
            Button::B => Joypad { b: held, ..*self },
            Button::Select => Joypad { select: held, ..*self },
            Button::Start => Joypad { start: held, ..*self },
        }
    }

    fn set_key(&mut self, key: Button, held: bool)
        ensures
            *final(self) == old(self).spec_with_key(key, held),
    {
        match key {
            Button::Right => self.right = held,
            Button::Left => self.left = held,
            Button::Up => self.up = held,
            Button::Down => self.down = held,
            Button::A => self.a = held,
            Button::B => self.b = held,
            Button::Select => self.select = held,
            Button::Start => self.start = held,
        }
    }

    /// Marks a button held and raises the joypad bit (bit 4) of the
    /// interrupt-flag register; no other interrupt bit changes.
    pub fn key_down(&mut self, key: Button, int_flag: &mut u8)
        ensures
            *final(self) == old(self).spec_with_key(key, true),
            *final(int_flag) == *old(int_flag) | 0x10,
    {
        *int_flag = *int_flag | 0x10;
        self.set_key(key, true);
    }

    /// Marks a button released; the interrupt flag is untouched.
    pub fn key_up(&mut self, key: Button)
        ensures
            *final(self) == old(self).spec_with_key(key, false),
    {
        self.set_key(key, false);
    }
}

} // verus!
