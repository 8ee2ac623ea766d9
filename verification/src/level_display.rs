//! The banner that names a level: the word LEVEL, the number of the world, a
//! hyphen and the number of the level, as tile indices.

use vstd::prelude::*;

verus! {

/// First of the three tiles of the word LEVEL.
pub const LEVEL_START: u16 = 12 * 28;

/// Tile of the digit zero; the other digits follow it.
pub const NUMBERS_START: u16 = 12 * 28 + 3;

/// Tile of the hyphen.
pub const HYPHEN: u16 = 12 * 28 + 11;

/// The empty tile.
pub const BLANK: u16 = 11 * 28;

/// The decimal digits of `n`, the least significant first. Zero has the one
/// digit 0.
pub open spec fn digits(n: nat) -> Seq<u8>
    decreases n,
{
    if n < 10 {
        seq![n as u8]
    } else {
        seq![(n % 10) as u8] + digits(n / 10)
    }
}

/// The decimal digits of `n`, the least significant first.
pub fn num_digits_iter(n: u32) -> (r: Vec<u8>)
    ensures
        r@ == digits(n as nat),
{
    let mut digits_so_far: Vec<u8> = Vec::new();
    let mut n = n;
    let ghost start = n;
    while n >= 10
        invariant
            digits_so_far@ + digits(n as nat) == digits(start as nat),
        decreases n,
    {
        let c = n % 10;
        proof {
            assert(digits_so_far@.push(c as u8) + digits((n / 10) as nat) =~= digits_so_far@ + (
            seq![c as u8] + digits((n / 10) as nat)));
        }
        digits_so_far.push(c as u8);
        n /= 10;
    }
    digits_so_far.push(n as u8);
    digits_so_far
}

/// A banner store of blank tiles.
pub fn new_map_store() -> (r: [u16; 20])
    ensures
        forall|i: int| 0 <= i < 20 ==> r@[i] == BLANK,
{
    [BLANK;20]
}

/// The banner for the world `world` and the level `level`, written over
/// `store`: the three tiles of the word, one tile left as it is, the digit of
/// the world, the hyphen and the digit of the level.
pub open spec fn banner(store: Seq<u16>, world: int, level: int) -> Seq<u16> {
    store.update(0, LEVEL_START).update(1, (LEVEL_START + 1) as u16).update(
        2,
        (LEVEL_START + 2) as u16,
    ).update(4, (world + NUMBERS_START - 1) as u16).update(5, HYPHEN).update(
        6,
        (level + NUMBERS_START - 1) as u16,
    )
}

/// Writes the banner for the world `world` and the level `level` into `map`.
/// Returns the scroll position that centres the banner on a screen of 240 by
/// 160 pixels.
pub fn write_level(map: &mut [u16; 20], world: u32, level: u32) -> (r: (i32, i32))
    requires
        world + NUMBERS_START <= u16::MAX,
        level + NUMBERS_START <= u16::MAX,
    ensures
        final(map)@ == banner(old(map)@, world as int, level as int),
        r.0 == -(240int / 2 - 7 * 8 / 2),
        r.1 == -(160int / 2 - 4),
{
    let mut counter: usize = 0;

    map[0] = LEVEL_START;
    map[1] = LEVEL_START + 1;
    map[2] = LEVEL_START + 2;

    counter += 4;

    map[counter] = world as u16 + NUMBERS_START - 1;
    counter += 1;
    map[counter] = HYPHEN;
    counter += 1;
    map[counter] = level as u16 + NUMBERS_START - 1;
    counter += 1;

    (-(240 / 2 - counter as i32 * 8 / 2), -(160 / 2 - 4))
}

} // verus!
