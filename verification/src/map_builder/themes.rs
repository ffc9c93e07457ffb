//! The visual themes of the dungeon levels: which glyph draws each kind of tile.

use vstd::prelude::*;
use crate::bracket::glyph_of;
use crate::map::TileType;

verus! {

/// A visual theme: the glyph that draws each kind of tile.
pub trait MapTheme {
    fn tile_to_render(&self, tile_type: TileType) -> u16;
}

/// The characters of the dungeon theme.
pub open spec fn dungeon_char(t: TileType) -> char {
    match t {
        TileType::Floor => '.',
        TileType::Wall => '#',
        TileType::PoisonFloor => '-',
        TileType::Decorative => 'M',
        TileType::OtherDecorative => '3',
        TileType::Door => '4',
        TileType::Exit => '>',
    }
}

/// The characters of the forest theme.
pub open spec fn forest_char(t: TileType) -> char {
    match t {
        TileType::Floor => ';',
        TileType::Wall => '"',
        TileType::PoisonFloor => 'y',
        TileType::Decorative => '$',
        TileType::OtherDecorative => '%',
        TileType::Door => '2',
        TileType::Exit => '>',
    }
}

/// The characters of the volcano theme.
pub open spec fn volcano_char(t: TileType) -> char {
    match t {
        TileType::Floor => 'G',
        TileType::Wall => 'I',
        TileType::PoisonFloor => 'J',
        TileType::Decorative => 'H',
        TileType::OtherDecorative => 'X',
        TileType::Door => 'Y',
        TileType::Exit => '>',
    }
}

/// The characters of the temple theme.
pub open spec fn temple_char(t: TileType) -> char {
    match t {
        TileType::Floor => ')',
        TileType::Wall => '(',
        TileType::PoisonFloor => '*',
        TileType::Decorative => '=',
        TileType::OtherDecorative => '+',
        TileType::Door => '8',
        TileType::Exit => '>',
    }
}

pub struct DungeonTheme {}

impl DungeonTheme {
    pub fn new() -> (t: DungeonTheme) {
        DungeonTheme {}
    }
}

impl MapTheme for DungeonTheme {
    fn tile_to_render(&self, tile_type: TileType) -> (g: u16)
        ensures
            g == dungeon_char(tile_type) as u16,
    {
        match tile_type {
            TileType::Floor => glyph_of('.'),
            TileType::Wall => glyph_of('#'),
            TileType::PoisonFloor => glyph_of('-'),
            TileType::Decorative => glyph_of('M'),
            TileType::OtherDecorative => glyph_of('3'),
            TileType::Door => glyph_of('4'),
            TileType::Exit => glyph_of('>'),
        }
    }
}

pub struct ForestTheme {}

impl ForestTheme {
    pub fn new() -> (t: ForestTheme) {
        ForestTheme {}
    }
}

impl MapTheme for ForestTheme {
    fn tile_to_render(&self, tile_type: TileType) -> (g: u16)
        ensures
            g == forest_char(tile_type) as u16,
    {
        match tile_type {
            TileType::Floor => glyph_of(';'),
            TileType::Wall => glyph_of('"'),
            TileType::PoisonFloor => glyph_of('y'),
            TileType::Decorative => glyph_of('$'),
            TileType::OtherDecorative => glyph_of('%'),
            TileType::Door => glyph_of('2'),
            TileType::Exit => glyph_of('>'),
        }
    }
}

pub struct VolcanoTheme {}

impl VolcanoTheme {
    pub fn new() -> (t: VolcanoTheme) {
        VolcanoTheme {}
    }
}

impl MapTheme for VolcanoTheme {
    fn tile_to_render(&self, tile_type: TileType) -> (g: u16)
        ensures
            g == volcano_char(tile_type) as u16,
    {
        match tile_type {
            TileType::Floor => glyph_of('G'),
            TileType::Wall => glyph_of('I'),
            TileType::PoisonFloor => glyph_of('J'),
            TileType::Decorative => glyph_of('H'),
            TileType::OtherDecorative => glyph_of('X'),
            TileType::Door => glyph_of('Y'),
            TileType::Exit => glyph_of('>'),
        }
    }
}

pub struct TempleTheme {}

impl TempleTheme {
    pub fn new() -> (t: TempleTheme) {
        TempleTheme {}
    }
}

impl MapTheme for TempleTheme {
    fn tile_to_render(&self, tile_type: TileType) -> (g: u16)
        ensures
            g == temple_char(tile_type) as u16,
    {
        match tile_type {
            TileType::Floor => glyph_of(')'),
            TileType::Wall => glyph_of('('),
            TileType::PoisonFloor => glyph_of('*'),
            TileType::Decorative => glyph_of('='),
            TileType::OtherDecorative => glyph_of('+'),
            TileType::Door => glyph_of('8'),
            TileType::Exit => glyph_of('>'),
        }
    }
}

} // verus!
