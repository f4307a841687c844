//! The eight tile kinds of the map grid and their static rules.

use vstd::prelude::*;

verus! {

/// One cell of the map grid. Each kind fits in three bits; the grid packs
/// two of them per byte.
#[derive(Clone, Copy, PartialEq, Eq, Structural, Debug, Hash)]
pub enum MapTile {
    /// An empty gridspace. Text form: a space.
    Empty,
    /// An unpassable block. Text form: `x`.
    Block,
    /// A mirror slanted up. Text form: `/`.
    UpMirror,
    /// A mirror slanted down. Text form: `\`.
    DownMirror,
    /// A straight horizontal mirror: bounces vertically travelling bullets
    /// straight back and kills horizontally travelling ones. Text form:
    /// `-`.
    HorizMirror,
    /// A straight vertical mirror: bounces horizontally travelling bullets
    /// straight back and kills vertically travelling ones. Text form:
    /// `|`.
    VertMirror,
    /// A pipe passable only horizontally; lethal to vertical bullets. Text
    /// form: `=`.
    HorizPipe,
    /// A pipe passable only vertically; lethal to horizontal bullets. Text
    /// form: `"`.
    VertPipe,
}

impl Default for MapTile {
    /// An empty gridspace.
    fn default() -> (r: Self)
        ensures
            r == MapTile::Empty,
    {
        MapTile::Empty
    }
}

/// The three-bit code of a tile kind.
pub open spec fn spec_tile_code(t: MapTile) -> u8 {
    match t {
        MapTile::Empty => 0,
        MapTile::Block => 1,
        MapTile::UpMirror => 2,
        MapTile::DownMirror => 3,
        MapTile::HorizMirror => 4,
        MapTile::VertMirror => 5,
        MapTile::HorizPipe => 6,
        MapTile::VertPipe => 7,
    }
}

/// The tile kind of a three-bit code; raw values have their top bits
/// masked away first.
pub open spec fn spec_tile_of(raw: u8) -> MapTile {
    let masked = raw & 0x07;
    if masked == 0 {
        MapTile::Empty
    } else if masked == 1 {
        MapTile::Block
    } else if masked == 2 {
        MapTile::UpMirror
    } else if masked == 3 {
        MapTile::DownMirror
    } else if masked == 4 {
        MapTile::HorizMirror
    } else if masked == 5 {
        MapTile::VertMirror
    } else if masked == 6 {
        MapTile::HorizPipe
    } else {
        MapTile::VertPipe
    }
}

/// Decoding inverts encoding: the codes of the eight kinds are exactly the
/// three-bit values.
pub proof fn lemma_tile_code_round_trip(t: MapTile)
    ensures
        spec_tile_of(spec_tile_code(t)) == t,
        spec_tile_code(t) < 8,
{
    assert(0u8 & 0x07 == 0 && 1u8 & 0x07 == 1 && 2u8 & 0x07 == 2 && 3u8 & 0x07 == 3 && 4u8
        & 0x07 == 4 && 5u8 & 0x07 == 5 && 6u8 & 0x07 == 6 && 7u8 & 0x07 == 7) by (bit_vector);
}

impl MapTile {
    /// This kind's three-bit code.
    pub fn to_u8(self) -> (r: u8)
        ensures
            r == spec_tile_code(self),
            r < 8,
    {
        match self {
            MapTile::Empty => 0,
            MapTile::Block => 1,
            MapTile::UpMirror => 2,
            MapTile::DownMirror => 3,
            MapTile::HorizMirror => 4,
            MapTile::VertMirror => 5,
            MapTile::HorizPipe => 6,
            MapTile::VertPipe => 7,
        }
    }

    /// The kind encoded in the low three bits of `raw`.
    pub fn from_u8(raw: u8) -> (r: MapTile)
        ensures
            r == spec_tile_of(raw),
    {
        let masked = raw & 0x07;
        assert(raw & 0x07 < 8) by (bit_vector);
        if masked == 0 {
            MapTile::Empty
        } else if masked == 1 {
            MapTile::Block
        } else if masked == 2 {
            MapTile::UpMirror
        } else if masked == 3 {
            MapTile::DownMirror
        } else if masked == 4 {
            MapTile::HorizMirror
        } else if masked == 5 {
            MapTile::VertMirror
        } else if masked == 6 {
            MapTile::HorizPipe
        } else {
            MapTile::VertPipe
        }
    }

    /// Whether the sprite for this kind is drawn mirrored horizontally.
    pub fn needs_hflip(self) -> (r: bool)
        ensures
            r == (self == MapTile::DownMirror),
    {
        match self {
            MapTile::DownMirror => true,
            _ => false,
        }
    }

    /// Whether the sprite for this kind is drawn mirrored vertically.
    pub fn needs_vflip(self) -> (r: bool)
        ensures
            r == false,
    {
        false
    }

    /// Whether this kind can change over a match (only the slanted mirrors
    /// do).
    pub fn can_change(self) -> (r: bool)
        ensures
            r == (self == MapTile::DownMirror || self == MapTile::UpMirror),
    {
        match self {
            MapTile::DownMirror | MapTile::UpMirror => true,
            _ => false,
        }
    }

    /// The kind with the two slanted mirrors exchanged.
    pub open spec fn spec_flipped(self) -> MapTile {
        match self {
            MapTile::DownMirror => MapTile::UpMirror,
            MapTile::UpMirror => MapTile::DownMirror,
            other => other,
        }
    }

    pub fn flipped(self) -> (r: MapTile)
        ensures
            r == self.spec_flipped(),
    {
        match self {
            MapTile::DownMirror => MapTile::UpMirror,
            MapTile::UpMirror => MapTile::DownMirror,
            other => other,
        }
    }

    /// The background tile index this kind is drawn with, if any.
    pub fn sprite_idx(self) -> (r: Option<u16>)
        ensures
            r == (match self {
                MapTile::Empty => Option::<u16>::None,
                MapTile::Block => Option::<u16>::Some(0u16),
                MapTile::UpMirror => Option::<u16>::None,
                MapTile::DownMirror => Option::<u16>::None,
                MapTile::HorizMirror => Option::<u16>::Some(2u16),
                MapTile::VertMirror => Option::<u16>::Some(3u16),
                MapTile::HorizPipe => Option::<u16>::Some(4u16),
                MapTile::VertPipe => Option::<u16>::Some(5u16),
            }),
    {
        match self {
            MapTile::Empty => None,
            MapTile::Block => Some(0),
            MapTile::UpMirror | MapTile::DownMirror => None,
            MapTile::HorizMirror => Some(2),
            MapTile::VertMirror => Some(3),
            MapTile::HorizPipe => Some(4),
            MapTile::VertPipe => Some(5),
        }
    }

    /// Whether a player may stand on this kind: everything but blocks and
    /// pipes allows player presence.
    pub open spec fn spec_allows_player(self) -> bool {
        match self {
            MapTile::Empty => true,
            MapTile::UpMirror => true,
            MapTile::DownMirror => true,
            MapTile::HorizMirror => true,
            MapTile::VertMirror => true,
            MapTile::Block => false,
            MapTile::HorizPipe => false,
            MapTile::VertPipe => false,
        }
    }

    pub fn allows_player(self) -> (r: bool)
        ensures
            r == self.spec_allows_player(),
    {
        match self {
            MapTile::Empty | MapTile::UpMirror | MapTile::DownMirror | MapTile::HorizMirror
                | MapTile::VertMirror => true,
            _ => false,
        }
    }

    /// The one-character text form of this kind.
    pub open spec fn spec_repr(self) -> char {
        match self {
            MapTile::Empty => ' ',
            MapTile::Block => 'x',
            MapTile::UpMirror => '/',
            MapTile::DownMirror => '\\',
            MapTile::HorizMirror => '-',
            MapTile::VertMirror => '|',
            MapTile::HorizPipe => '=',
            MapTile::VertPipe => '"',
        }
    }

    pub fn repr(self) -> (r: char)
        ensures
            r == self.spec_repr(),
    {
        match self {
            MapTile::Empty => ' ',
            MapTile::Block => 'x',
            MapTile::UpMirror => '/',
            MapTile::DownMirror => '\\',
            MapTile::HorizMirror => '-',
            MapTile::VertMirror => '|',
            MapTile::HorizPipe => '=',
            MapTile::VertPipe => '"',
        }
    }
}

} // verus!
