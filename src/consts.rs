use vstd::prelude::*;

use std::collections::HashMap;

verus! {

broadcast use vstd::std_specs::hash::group_hash_axioms;

pub const MEMORY_SIZE: usize = 4096;
pub const PROGRAM_MEMORY_ADDR: usize = 0x200;
pub const DISPLAY_WIDTH: usize = 64;
pub const DISPLAY_HEIGHT: usize = 32;
pub const SCALE_FACTOR: usize = 8;
/// The delay timer loses `DELAY_TIMER_TICKS_PER_SECOND` ticks every 1000 milliseconds.
pub const DELAY_TIMER_TICKS_PER_SECOND: u128 = 255;
pub const FONT_START_ADDR: usize = 0x00;
/// Each digit glyph is five rows of one byte.
pub const FONT_GLYPH_SIZE: usize = 5;
/// The host key whose press ends a key wait.
pub const CONFIRM_KEY_NAME: &'static str = "Return";

/// The sixteen glyphs of the digits 0 to F, five bytes each, in digit order.
pub open spec fn font_bytes() -> Seq<u8> {
    seq![
        0xF0, 0x90, 0x90, 0x90, 0xF0,
        0x20, 0x60, 0x20, 0x20, 0x70,
        0xF0, 0x10, 0xF0, 0x80, 0xF0,
        0xF0, 0x10, 0xF0, 0x10, 0xF0,
        0x90, 0x90, 0xF0, 0x10, 0x10,
        0xF0, 0x80, 0xF0, 0x10, 0xF0,
        0xF0, 0x80, 0xF0, 0x90, 0xF0,
        0xF0, 0x10, 0x20, 0x40, 0x40,
        0xF0, 0x90, 0xF0, 0x90, 0xF0,
        0xF0, 0x90, 0xF0, 0x10, 0xF0,
        0xF0, 0x90, 0xF0, 0x90, 0x90,
        0xE0, 0x90, 0xE0, 0x90, 0xE0,
        0xF0, 0x80, 0x80, 0x80, 0xF0,
        0xE0, 0x90, 0x90, 0x90, 0xE0,
        0xF0, 0x80, 0xF0, 0x80, 0xF0,
        0xF0, 0x80, 0xF0, 0x80, 0x80
    ]
}

/// The glyph bytes of `font_bytes`.
pub fn font_content() -> (r: Vec<u8>)
    ensures
        r@ == font_bytes(),
{
    let r: Vec<u8> = vec![
        0xF0, 0x90, 0x90, 0x90, 0xF0,
        0x20, 0x60, 0x20, 0x20, 0x70,
        0xF0, 0x10, 0xF0, 0x80, 0xF0,
        0xF0, 0x10, 0xF0, 0x10, 0xF0,
        0x90, 0x90, 0xF0, 0x10, 0x10,
        0xF0, 0x80, 0xF0, 0x10, 0xF0,
        0xF0, 0x80, 0xF0, 0x90, 0xF0,
        0xF0, 0x10, 0x20, 0x40, 0x40,
        0xF0, 0x90, 0xF0, 0x90, 0xF0,
        0xF0, 0x90, 0xF0, 0x10, 0xF0,
        0xF0, 0x90, 0xF0, 0x90, 0x90,
        0xE0, 0x90, 0xE0, 0x90, 0xE0,
        0xF0, 0x80, 0x80, 0x80, 0xF0,
        0xE0, 0x90, 0x90, 0x90, 0xE0,
        0xF0, 0x80, 0xF0, 0x80, 0xF0,
        0xF0, 0x80, 0xF0, 0x80, 0x80
    ];
    assert(r@ =~= font_bytes());
    r
}

/// The keypad layout: keypad digit to the name of the host key that stands for it.
///
/// ```text
/// keypad          host keys
/// 1 2 3 C         1 2 3 4
/// 4 5 6 D         Q W E R
/// 7 8 9 E         A S D F
/// A 0 B F         Z X C V
/// ```
pub open spec fn standard_key_map() -> Map<u8, &'static str> {
    map![
        1u8 => "1", 2u8 => "2", 3u8 => "3", 0xCu8 => "4",
        4u8 => "Q", 5u8 => "W", 6u8 => "E", 0xDu8 => "R",
        7u8 => "A", 8u8 => "S", 9u8 => "D", 0xEu8 => "F",
        0xAu8 => "Z", 0u8 => "X", 0xBu8 => "C", 0xFu8 => "V"
    ]
}

pub fn get_chip_to_real_key_map() -> (map: HashMap<u8, &'static str>)
    ensures
        map@ == standard_key_map(),
{
    let mut map = HashMap::<u8, &'static str>::new();

    map.insert(1, "1");
    map.insert(2, "2");
    map.insert(3, "3");
    map.insert(0xC, "4");

    map.insert(4, "Q");
    map.insert(5, "W");
    map.insert(6, "E");
    map.insert(0xD, "R");

    map.insert(7, "A");
    map.insert(8, "S");
    map.insert(9, "D");
    map.insert(0xE, "F");

    map.insert(0xA, "Z");
    map.insert(0, "X");
    map.insert(0xB, "C");
    map.insert(0xF, "V");

    assert(map@ =~= standard_key_map());
    map
}

} // verus!
