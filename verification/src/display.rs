//! The four shades of the screen and where each pixel is drawn.

use vstd::prelude::*;

verus! {

/// One of the four shades a pixel can have.
#[derive(PartialEq, Eq, Clone, Copy, Debug, Structural)]
pub enum Pixel {
    LightestGreen,
    LightGreen,
    DarkGreen,
    DarkestGreen,
}

/// A colour by its red, green and blue parts.
#[derive(PartialEq, Eq, Clone, Copy, Debug, Structural)]
pub struct Rgb {
    pub red: u8,
    pub green: u8,
    pub blue: u8,
}

/// A rectangle of the window: its upper left corner and its size.
#[derive(PartialEq, Eq, Clone, Copy, Debug, Structural)]
pub struct Cell {
    pub x: i32,
    pub y: i32,
    pub width: u32,
    pub height: u32,
}

/// The number of pixels in a line of the screen.
pub const SCREEN_WIDTH: usize = 160;

/// The number of lines of the screen.
pub const SCREEN_HEIGHT: usize = 144;

/// The colour that the window is cleared to: black.
pub fn background() -> (colour: Rgb)
    ensures
        colour == (Rgb { red: 0, green: 0, blue: 0 }),
{
    Rgb { red: 0, green: 0, blue: 0 }
}

impl Pixel {
    /// The colour in which the shade is drawn.
    pub open spec fn spec_colour(self) -> Rgb {
        match self {
            Pixel::LightestGreen => Rgb { red: 0x9B, green: 0xBC, blue: 0x0F },
            Pixel::LightGreen => Rgb { red: 0x8B, green: 0xAC, blue: 0x0F },
            Pixel::DarkGreen => Rgb { red: 0x30, green: 0x62, blue: 0x30 },
            Pixel::DarkestGreen => Rgb { red: 0x0F, green: 0x38, blue: 0x0F },
        }
    }

    #[verifier::when_used_as_spec(spec_colour)]
    pub fn colour(self) -> (colour: Rgb)
        ensures
            colour == self.spec_colour(),
    {
        match self {
            Pixel::LightestGreen => Rgb { red: 0x9B, green: 0xBC, blue: 0x0F },
            Pixel::LightGreen => Rgb { red: 0x8B, green: 0xAC, blue: 0x0F },
            Pixel::DarkGreen => Rgb { red: 0x30, green: 0x62, blue: 0x30 },
            Pixel::DarkestGreen => Rgb { red: 0x0F, green: 0x38, blue: 0x0F },
        }
    }
}

/// The square of the window that shows the pixel in column `x` of line `y`,
/// where every pixel is drawn `pixel_size` units wide and high; `None` where
/// the pixel lies outside the screen or the square outside the range of the
/// window's coordinates.
pub fn cell_of(x: usize, y: usize, pixel_size: u32) -> (cell: Option<Cell>)
    ensures
        cell is Some <==> x < SCREEN_WIDTH && y < SCREEN_HEIGHT && x * pixel_size <= i32::MAX && y * pixel_size <= i32::MAX,
        cell is Some ==> cell->0 == (Cell {
            x: (x * pixel_size) as i32,
            y: (y * pixel_size) as i32,
            width: pixel_size,
            height: pixel_size,
        }),
{
    if x >= SCREEN_WIDTH || y >= SCREEN_HEIGHT {
        return None;
    }
    assert(x * pixel_size <= 160 * 0xFFFF_FFFF && y * pixel_size <= 144 * 0xFFFF_FFFF) by (nonlinear_arith)
        requires
            x < 160,
            y < 144,
            pixel_size <= 0xFFFF_FFFF,
    ;
    let left: u64 = x as u64 * pixel_size as u64;
    let top: u64 = y as u64 * pixel_size as u64;
    if left > 0x7FFF_FFFF || top > 0x7FFF_FFFF {
        return None;
    }
    Some(Cell { x: left as i32, y: top as i32, width: pixel_size, height: pixel_size })
}

} // verus!
