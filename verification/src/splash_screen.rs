//! The full-screen pictures shown before the first level and after the last.

use vstd::prelude::*;

verus! {

/// Width of a full-screen picture, in tiles.
pub const SPLASH_WIDTH: u16 = 30;

/// Height of a full-screen picture, in tiles.
pub const SPLASH_HEIGHT: u16 = 20;

/// Which picture to show.
#[derive(Clone, Copy, Debug, PartialEq, Eq, Structural)]
pub enum SplashScreen {
    /// The title picture.
    Start,
    /// The picture that thanks for playing.
    End,
}

/// The buttons that went down in one frame of a splash screen.
#[derive(Clone, Copy, Debug, PartialEq, Eq, Structural)]
pub struct SplashInput {
    pub a: bool,
    pub b: bool,
    pub start: bool,
    pub select: bool,
}

/// The tile map of a full-screen picture: every cell shows the tile whose
/// index is the row-major index of the cell.
pub fn splash_entries() -> (r: Vec<u16>)
    ensures
        r@.len() == 30 * 20,
        forall|i: int| 0 <= i < 30 * 20 ==> r@[i] == i,
{
    let mut entries: Vec<u16> = Vec::new();
    let mut tile_id: u16 = 0;
    while tile_id < SPLASH_WIDTH * SPLASH_HEIGHT
        invariant
            0 <= tile_id <= 600,
            entries@.len() == tile_id,
            forall|i: int| 0 <= i < tile_id ==> entries@[i] == i,
        decreases 600 - tile_id,
    {
        entries.push(tile_id);
        tile_id += 1;
    }
    entries
}

/// Whether a splash screen is left in a frame: any of the four buttons ends
/// it.
pub fn splash_is_over(input: &SplashInput) -> (r: bool)
    ensures
        r == (input.a || input.b || input.start || input.select),
{
    input.a || input.b || input.start || input.select
}

} // verus!
