use vstd::prelude::*;

use crate::error::{truncated, within, Context, DataPart, DecodeError, ErrorKind, ErrorView};
use crate::glyph::GlyphTable;
use crate::layout::{layout_at, ptr_in_table, Layout, LayoutView};
use crate::pointer::{parse_ptr, ptr_value};
use crate::text::{parse_string, text_at};

verus! {

/// Layout slots in a floor table.
pub const SLOTS: usize = 8;

/// Offset of the first layout pointer from the start of a floor table. The
/// four bytes between the name pointer and it are reserved.
pub const FIRST_SLOT: usize = 8;

/// The pointer held by layout slot `i` of the floor table at `t`.
pub open spec fn slot_ptr(s: Seq<u8>, t: int, i: int) -> nat {
    ptr_value(s, t + FIRST_SLOT + 4 * i)
}

/// Whether a layout with pointer table `p` is among `done`.
pub open spec fn decoded(done: Seq<LayoutView>, p: nat) -> bool {
    exists|k: int| 0 <= k < done.len() && done[k].table_ptr == p
}

/// The layouts of the floor table at `t`, after `done` was decoded for the
/// slots before `i`: each later slot whose pointer no layout decoded so far
/// has is decoded in turn and added at the end.
pub open spec fn slot_layouts(s: Seq<u8>, t: int, i: nat, done: Seq<LayoutView>) -> Result<
    Seq<LayoutView>,
    ErrorView,
>
    decreases SLOTS - i,
{
    if i >= SLOTS {
        Ok(done)
    } else if t + FIRST_SLOT + 4 * i + 4 > s.len() {
        Err(within(truncated(DataPart::Pointer), Context::LayoutPointer))
    } else if decoded(done, slot_ptr(s, t, i as int)) {
        slot_layouts(s, t, i + 1, done)
    } else {
        match layout_at(s, slot_ptr(s, t, i as int) as int) {
            Err(e) => Err(within(e, Context::Layout((i + 1) as usize))),
            Ok(l) => slot_layouts(s, t, i + 1, done.push(l)),
        }
    }
}

/// A floor as the specifications see it.
pub struct FloorView {
    pub title: Seq<char>,
    pub slots: Seq<nat>,
    pub layouts: Seq<LayoutView>,
}

/// The floor whose table is at `t`: its title, the pointers of its eight
/// slots, and one layout for each distinct slot pointer, in the order of the
/// slots that first hold them.
pub open spec fn floor_at(s: Seq<u8>, t: int) -> Result<FloorView, ErrorView> {
    if t < 0 || t + 4 > s.len() {
        Err(within(truncated(DataPart::Pointer), Context::NamePointer))
    } else {
        match text_at(s, ptr_value(s, t) as int) {
            Err(e) => Err(within(e, Context::Name)),
            Ok(title) => if t + FIRST_SLOT > s.len() {
                Err(truncated(DataPart::FloorTable))
            } else {
                match slot_layouts(s, t, 0, Seq::empty()) {
                    Err(e) => Err(e),
                    Ok(ls) => Ok(
                        FloorView {
                            title,
                            slots: Seq::new(SLOTS as nat, |i: int| slot_ptr(s, t, i)),
                            layouts: ls,
                        },
                    ),
                }
            },
        }
    }
}

pub open spec fn layout_views(ls: Seq<Layout>) -> Seq<LayoutView> {
    ls.map_values(|l: Layout| l@)
}

/// One floor: its title, the layout pointer of each of its eight slots, and
/// the layouts those pointers lead to, each decoded once. A slot refers to
/// the layout whose `table_ptr` equals its pointer.
#[derive(Debug)]
pub struct Floor {
    pub title: String,
    pub slots: Vec<usize>,
    pub layouts: Vec<Layout>,
}

impl View for Floor {
    type V = FloorView;

    open spec fn view(&self) -> FloorView {
        FloorView {
            title: self.title@,
            slots: self.slots@.map_values(|p: usize| p as nat),
            layouts: layout_views(self.layouts@),
        }
    }
}

/// Whether one of `layouts` was decoded from the pointer table at `p`.
fn already_decoded(layouts: &Vec<Layout>, p: usize) -> (r: bool)
    ensures
        r == decoded(layout_views(layouts@), p as nat),
{
    let mut k: usize = 0;
    while k < layouts.len()
        invariant
            k <= layouts.len(),
            forall|j: int| 0 <= j < k ==> layouts@[j].table_ptr != p,
        decreases layouts.len() - k,
    {
        if layouts[k].table_ptr == p {
            assert(layout_views(layouts@)[k as int].table_ptr == p);
            return true;
        }
        k = k + 1;
    }
    false
}

impl Floor {
    /// Decodes the floor whose table is at `table_ptr`.
    pub fn new(glyphs: &GlyphTable, raw: &[u8], table_ptr: usize) -> (r: Result<
        Floor,
        DecodeError,
    >)
        ensures
            match r {
                Ok(f) => floor_at(raw@, table_ptr as int) == Ok::<FloorView, ErrorView>(f@),
                Err(e) => floor_at(raw@, table_ptr as int) == Err::<FloorView, ErrorView>(e@),
            },
    {
        let name_ptr = match parse_ptr(raw, table_ptr) {
            Ok(p) => p,
            Err(e) => {
                return Err(e.within(Context::NamePointer));
            },
        };
        let title = match parse_string(glyphs, raw, name_ptr) {
            Ok(t) => t,
            Err(e) => {
                return Err(e.within(Context::Name));
            },
        };
        if raw.len() < FIRST_SLOT || table_ptr > raw.len() - FIRST_SLOT {
            return Err(DecodeError::new(ErrorKind::TruncatedData(DataPart::FloorTable)));
        }
        let ghost s = raw@;
        let ghost t = table_ptr as int;
        let mut slots: Vec<usize> = Vec::new();
        let mut layouts: Vec<Layout> = Vec::new();
        let mut i: usize = 0;
        assert(layout_views(layouts@) =~= Seq::empty());
        while i < SLOTS
            invariant
                s == raw@,
                t == table_ptr,
                i <= SLOTS,
                t + FIRST_SLOT <= raw.len(),
                name_ptr as nat == ptr_value(s, t),
                text_at(s, name_ptr as int) == Ok::<Seq<char>, ErrorView>(title@),
                slots@.len() == i,
                forall|j: int| 0 <= j < i ==> slots@[j] as nat == slot_ptr(s, t, j),
                slot_layouts(s, t, 0, Seq::empty()) == slot_layouts(
                    s,
                    t,
                    i as nat,
                    layout_views(layouts@),
                ),
            decreases SLOTS - i,
        {
            if raw.len() - (table_ptr + FIRST_SLOT) < 4 * i + 4 {
                let e = DecodeError::new(ErrorKind::TruncatedData(DataPart::Pointer));
                return Err(e.within(Context::LayoutPointer));
            }
            let p = ptr_in_table(raw, table_ptr + FIRST_SLOT + 4 * i);
            slots.push(p);
            if !already_decoded(&layouts, p) {
                match Layout::new(raw, p) {
                    Ok(l) => {
                        let ghost before = layout_views(layouts@);
                        layouts.push(l);
                        assert(layout_views(layouts@) =~= before.push(l@));
                    },
                    Err(e) => {
                        return Err(e.within(Context::Layout(i + 1)));
                    },
                }
            }
            i = i + 1;
        }
        let f = Floor { title, slots, layouts };
        assert(f@.slots =~= Seq::new(SLOTS as nat, |j: int| slot_ptr(s, t, j)));
        Ok(f)
    }
}

} // verus!
