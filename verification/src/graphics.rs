//! The control register of the display.

use vstd::prelude::*;
use crate::util::has_bit;
use crate::util::BitGrabber;

verus! {

/// The eight switches of the display control register, one for each bit of
/// its byte.
#[derive(Clone, Copy, Debug, PartialEq, Eq, Structural)]
pub struct Lcd {
    /// Bit 7.
    pub enabled: bool,
    /// Bit 6.
    pub display_select: bool,
    /// Bit 5.
    pub window_enabled: bool,
    /// Bit 4.
    pub tile_data: bool,
    /// Bit 3.
    pub background_select: bool,
    /// Bit 2.
    pub sprite_size: bool,
    /// Bit 1.
    pub sprites_enabled: bool,
    /// Bit 0.
    pub background_enabled: bool,
}

impl Lcd {
    /// The switches that `byte` stands for.
    pub open spec fn of_byte(byte: u8) -> Lcd {
        Lcd {
            enabled: has_bit(byte as nat, 7),
            display_select: has_bit(byte as nat, 6),
            window_enabled: has_bit(byte as nat, 5),
            tile_data: has_bit(byte as nat, 4),
            background_select: has_bit(byte as nat, 3),
            sprite_size: has_bit(byte as nat, 2),
            sprites_enabled: has_bit(byte as nat, 1),
            background_enabled: has_bit(byte as nat, 0),
        }
    }

    /// All switches off.
    pub fn new() -> (lcd: Self)
        ensures
            lcd == Lcd::of_byte(0),
    {
        proof {
            crate::util::lemma_has_bit_u8(0);
        }
        Self {
            enabled: false,
            display_select: false,
            window_enabled: false,
            tile_data: false,
            background_select: false,
            sprite_size: false,
            sprites_enabled: false,
            background_enabled: false,
        }
    }

    /// Sets every switch from its bit of `byte`.
    pub fn update_with_byte(&mut self, byte: u8)
        ensures
            *final(self) == Lcd::of_byte(byte),
    {
        self.enabled = byte.nth_bit_as_bool(7);
        self.display_select = byte.nth_bit_as_bool(6);
        self.window_enabled = byte.nth_bit_as_bool(5);
        self.tile_data = byte.nth_bit_as_bool(4);
        self.background_select = byte.nth_bit_as_bool(3);
        self.sprite_size = byte.nth_bit_as_bool(2);
        self.sprites_enabled = byte.nth_bit_as_bool(1);
        self.background_enabled = byte.nth_bit_as_bool(0);
    }
}

} // verus!
