use vstd::prelude::*;

use crate::error::{lemma_prepend_twice, prepend, truncated, within, Context, DataPart, DecodeError, ErrorView};
use crate::floor::{floor_at, Floor, FloorView};
use crate::glyph::GlyphTable;
use crate::pointer::{parse_ptr, ptr_value};

verus! {

/// The floors listed from offset `off` on, the first of them at 1-based
/// position `index`: pointers are read one after another until a zero one.
pub open spec fn floors_from(s: Seq<u8>, off: int, index: nat) -> Result<Seq<FloorView>, ErrorView>
    decreases s.len() - off,
{
    if off < 0 || off + 4 > s.len() {
        Err(within(truncated(DataPart::Pointer), Context::NextFloorPointer))
    } else if ptr_value(s, off) == 0 {
        Ok(Seq::empty())
    } else {
        match floor_at(s, ptr_value(s, off) as int) {
            Err(e) => Err(within(e, Context::Floor(index as usize))),
            Ok(f) => prepend(seq![f], floors_from(s, off + 4, index + 1)),
        }
    }
}

/// The floors of the dungeon file `s`, whose floor list starts at offset 0.
pub open spec fn dungeon_at(s: Seq<u8>) -> Result<Seq<FloorView>, ErrorView> {
    floors_from(s, 0, 1)
}

pub open spec fn floor_views(fs: Seq<Floor>) -> Seq<FloorView> {
    fs.map_values(|f: Floor| f@)
}

/// A decoded dungeon file: its floors, in file order.
#[derive(Debug)]
pub struct Dungeon {
    pub floors: Vec<Floor>,
}

impl View for Dungeon {
    type V = Seq<FloorView>;

    open spec fn view(&self) -> Seq<FloorView> {
        floor_views(self.floors@)
    }
}

impl Dungeon {
    /// Decodes a whole dungeon file. Nothing is returned of a file that fails
    /// anywhere.
    pub fn try_from(raw: &[u8]) -> (r: Result<Dungeon, DecodeError>)
        ensures
            match r {
                Ok(d) => dungeon_at(raw@) == Ok::<Seq<FloorView>, ErrorView>(d@),
                Err(e) => dungeon_at(raw@) == Err::<Seq<FloorView>, ErrorView>(e@),
            },
    {
        let glyphs = GlyphTable::new();
        let mut floors: Vec<Floor> = Vec::new();
        let mut off: usize = 0;
        let mut i: usize = 1;
        assert(floor_views(floors@) =~= Seq::empty());
        loop
            invariant
                i >= 1,
                off == 4 * (i - 1),
                off <= raw.len(),
                dungeon_at(raw@) == prepend(floor_views(floors@), floors_from(raw@, off as int, i as nat)),
            decreases raw@.len() - off,
        {
            let p = match parse_ptr(raw, off) {
                Ok(p) => p,
                Err(e) => {
                    return Err(e.within(Context::NextFloorPointer));
                },
            };
            if p == 0 {
                assert(floor_views(floors@) + Seq::<FloorView>::empty() =~= floor_views(floors@));
                return Ok(Dungeon { floors });
            }
            match Floor::new(&glyphs, raw, p) {
                Ok(f) => {
                    proof {
                        lemma_prepend_twice(floor_views(floors@), seq![f@], floors_from(raw@, off + 4, (i + 1) as nat));
                    }
                    let ghost before = floor_views(floors@);
                    floors.push(f);
                    assert(floor_views(floors@) =~= before + seq![f@]);
                },
                Err(e) => {
                    return Err(e.within(Context::Floor(i)));
                },
            }
            off = off + 4;
            i = i + 1;
        }
    }
}

} // verus!
