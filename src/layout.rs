use vstd::prelude::*;

use crate::error::{truncated, within, Context, DataPart, DecodeError, ErrorKind, ErrorView};
use crate::pointer::{parse_ptr, ptr_value};

verus! {

/// Rows of a floor plan.
pub const ROWS: usize = 48;

/// Columns of a floor plan.
pub const COLUMNS: usize = 32;

/// Bytes of a floor plan: one per tile.
pub const PLAN_SIZE: usize = 1536;

/// Bytes of a layout's pointer table: five pointers.
pub const LAYOUT_TABLE_SIZE: usize = 20;

/// The tiles of the floor plan stored at `at`, row by row.
pub open spec fn plan_at(s: Seq<u8>, at: int) -> Result<Seq<u8>, ErrorView> {
    if 0 <= at && at + PLAN_SIZE <= s.len() {
        Ok(s.subrange(at, at + PLAN_SIZE))
    } else {
        Err(truncated(DataPart::FloorPlan))
    }
}

/// A 48 by 32 grid of tile bytes, kept row by row.
#[derive(Debug)]
pub struct FloorPlan {
    tiles: Vec<u8>,
}

impl View for FloorPlan {
    type V = Seq<u8>;

    closed spec fn view(&self) -> Seq<u8> {
        self.tiles@
    }
}

impl FloorPlan {
    #[verifier::type_invariant]
    spec fn inv(&self) -> bool {
        self.tiles.len() == PLAN_SIZE
    }

    /// Copies out the floor plan stored at `offset`.
    pub fn new(raw: &[u8], offset: usize) -> (r: Result<FloorPlan, DecodeError>)
        ensures
            match r {
                Ok(p) => plan_at(raw@, offset as int) == Ok::<Seq<u8>, ErrorView>(p@),
                Err(e) => plan_at(raw@, offset as int) == Err::<Seq<u8>, ErrorView>(e@),
            },
    {
        if raw.len() < PLAN_SIZE || offset > raw.len() - PLAN_SIZE {
            return Err(DecodeError::new(ErrorKind::TruncatedData(DataPart::FloorPlan)));
        }
        let mut tiles: Vec<u8> = Vec::with_capacity(PLAN_SIZE);
        let mut i: usize = 0;
        while i < PLAN_SIZE
            invariant
                i <= PLAN_SIZE,
                offset + PLAN_SIZE <= raw.len(),
                tiles@ == raw@.subrange(offset as int, offset + i),
            decreases PLAN_SIZE - i,
        {
            tiles.push(raw[offset + i]);
            i = i + 1;
            assert(tiles@ =~= raw@.subrange(offset as int, offset + i));
        }
        Ok(FloorPlan { tiles })
    }

    /// The tile at `row` and `col`.
    pub fn tile(&self, row: usize, col: usize) -> (r: u8)
        requires
            row < ROWS,
            col < COLUMNS,
        ensures
            self@.len() == PLAN_SIZE,
            r == self@[row * COLUMNS + col],
    {
        proof {
            use_type_invariant(self);
        }
        self.tiles[row * COLUMNS + col]
    }
}

/// A layout as the specifications see it: where its pointer table is, its
/// tiles, and the four offsets it records without decoding.
pub struct LayoutView {
    pub table_ptr: nat,
    pub floor_plan_ptr: nat,
    pub floor_plan: Seq<u8>,
    pub warps_ptr: nat,
    pub chests_ptr: nat,
    pub traps_ptr: nat,
    pub spawn_ptr: nat,
}

/// The layout whose pointer table is at `at`: the floor plan it points to
/// is decoded, the warps, chests, traps and spawn pointers are only read.
pub open spec fn layout_at(s: Seq<u8>, at: int) -> Result<LayoutView, ErrorView> {
    if at < 0 || at + LAYOUT_TABLE_SIZE > s.len() {
        Err(truncated(DataPart::LayoutTable))
    } else {
        match plan_at(s, ptr_value(s, at) as int) {
            Err(e) => Err(within(e, Context::FloorPlan)),
            Ok(p) => Ok(
                LayoutView {
                    table_ptr: at as nat,
                    floor_plan_ptr: ptr_value(s, at),
                    floor_plan: p,
                    warps_ptr: ptr_value(s, at + 4),
                    chests_ptr: ptr_value(s, at + 8),
                    traps_ptr: ptr_value(s, at + 12),
                    spawn_ptr: ptr_value(s, at + 16),
                },
            ),
        }
    }
}

/// One layout variant of a floor.
#[derive(Debug)]
pub struct Layout {
    /// Where the layout's pointer table is.
    pub table_ptr: usize,
    pub floor_plan_ptr: usize,
    pub floor_plan: FloorPlan,
    pub warps_ptr: usize,
    pub chests_ptr: usize,
    pub traps_ptr: usize,
    pub spawn_ptr: usize,
}

impl View for Layout {
    type V = LayoutView;

    open spec fn view(&self) -> LayoutView {
        LayoutView {
            table_ptr: self.table_ptr as nat,
            floor_plan_ptr: self.floor_plan_ptr as nat,
            floor_plan: self.floor_plan@,
            warps_ptr: self.warps_ptr as nat,
            chests_ptr: self.chests_ptr as nat,
            traps_ptr: self.traps_ptr as nat,
            spawn_ptr: self.spawn_ptr as nat,
        }
    }
}

/// Reads the pointer at `offset`, which the caller knows to be in the buffer.
pub(crate) fn ptr_in_table(raw: &[u8], offset: usize) -> (r: usize)
    requires
        offset + 4 <= raw@.len(),
    ensures
        r as nat == ptr_value(raw@, offset as int),
{
    match parse_ptr(raw, offset) {
        Ok(p) => p,
        Err(_) => 0,
    }
}

impl Layout {
    /// Decodes the layout whose pointer table is at `table_ptr`.
    pub fn new(raw: &[u8], table_ptr: usize) -> (r: Result<Layout, DecodeError>)
        ensures
            match r {
                Ok(l) => layout_at(raw@, table_ptr as int) == Ok::<LayoutView, ErrorView>(l@),
                Err(e) => layout_at(raw@, table_ptr as int) == Err::<LayoutView, ErrorView>(e@),
            },
    {
        if raw.len() < LAYOUT_TABLE_SIZE || table_ptr > raw.len() - LAYOUT_TABLE_SIZE {
            return Err(DecodeError::new(ErrorKind::TruncatedData(DataPart::LayoutTable)));
        }
        let floor_plan_ptr = ptr_in_table(raw, table_ptr);
        let floor_plan = match FloorPlan::new(raw, floor_plan_ptr) {
            Ok(p) => p,
            Err(e) => {
                return Err(e.within(Context::FloorPlan));
            },
        };
        let warps_ptr = ptr_in_table(raw, table_ptr + 4);
        let chests_ptr = ptr_in_table(raw, table_ptr + 8);
        let traps_ptr = ptr_in_table(raw, table_ptr + 12);
        let spawn_ptr = ptr_in_table(raw, table_ptr + 16);
        Ok(
            Layout {
                table_ptr,
                floor_plan_ptr,
                floor_plan,
                warps_ptr,
                chests_ptr,
                traps_ptr,
                spawn_ptr,
            },
        )
    }
}

} // verus!
