//! Laws that relate the decoders' spec functions to one another and to the
//! byte layouts they read.
use vstd::prelude::*;

use crate::dungeon::dungeon_at;
use crate::error::{truncated, Context, DataPart, ErrorKind, ErrorView};
use crate::floor::{decoded, floor_at, slot_layouts, slot_ptr, FloorView, SLOTS};
use crate::glyph::{glyph_token, EXTENDED_PREFIX, TERMINATOR};
use crate::layout::{layout_at, plan_at, LayoutView, COLUMNS, PLAN_SIZE, ROWS};
use crate::pointer::{ptr_at, ptr_value};
use crate::text::{extended_code, text_at};

verus! {

/// The bytes that stand for character code `c` in a string.
pub open spec fn code_bytes(c: u16) -> Seq<u8> {
    if c < 0x100 {
        seq![c as u8]
    } else {
        seq![EXTENDED_PREFIX, (c - 0xF000) as u8]
    }
}

/// The bytes of a run of character codes, without the terminator.
pub open spec fn encode_codes(codes: Seq<u16>) -> Seq<u8>
    decreases codes.len(),
{
    if codes.len() == 0 {
        Seq::empty()
    } else {
        code_bytes(codes[0]) + encode_codes(codes.drop_first())
    }
}

/// The tokens of a run of mapped codes, one after another.
pub open spec fn tokens_of(codes: Seq<u16>) -> Seq<char>
    decreases codes.len(),
{
    if codes.len() == 0 {
        Seq::empty()
    } else {
        glyph_token(codes[0]).unwrap() + tokens_of(codes.drop_first())
    }
}

/// Every mapped code is a plain byte other than the prefix and the
/// terminator, or the prefix followed by one byte.
proof fn lemma_mapped_code_shape(c: u16)
    requires
        glyph_token(c) is Some,
    ensures
        c < 0x100 ==> c != EXTENDED_PREFIX as u16 && c != TERMINATOR as u16,
        c >= 0x100 ==> 0xF000 <= c < 0xF100 && extended_code((c - 0xF000) as u8) == c,
{
}

proof fn lemma_text_run(s: Seq<u8>, at: int, codes: Seq<u16>)
    requires
        0 <= at,
        forall|i: int| 0 <= i < codes.len() ==> glyph_token(#[trigger] codes[i]) is Some,
        at + encode_codes(codes).len() + 1 <= s.len(),
        s.subrange(at, at + encode_codes(codes).len() + 1) == encode_codes(codes).push(
            TERMINATOR,
        ),
    ensures
        text_at(s, at) == Ok::<Seq<char>, ErrorView>(tokens_of(codes)),
    decreases codes.len(),
{
    let e = encode_codes(codes);
    assert(s[at] == s.subrange(at, at + e.len() + 1)[0]);
    if codes.len() > 0 {
        let c = codes[0];
        let rest = codes.drop_first();
        let k = code_bytes(c).len() as int;
        lemma_mapped_code_shape(c);
        assert(s[at + 1] == s.subrange(at, at + e.len() + 1)[1]);
        assert forall|i: int| 0 <= i < rest.len() implies glyph_token(#[trigger] rest[i]) is Some by {
            assert(rest[i] == codes[i + 1]);
        }
        let er = encode_codes(rest);
        assert(e == code_bytes(c) + er);
        assert(s.subrange(at + k, at + k + er.len() + 1) =~= er.push(TERMINATOR)) by {
            assert forall|j: int| 0 <= j < er.len() + 1 implies #[trigger] s.subrange(
                at + k,
                at + k + er.len() + 1,
            )[j] == er.push(TERMINATOR)[j] by {
                assert(s[at + k + j] == s.subrange(at, at + e.len() + 1)[k + j]);
            }
        }
        lemma_text_run(s, at + k, rest);
    }
}

/// A run of codes that the glyph table maps, followed by the terminator,
/// decodes to the concatenation of their tokens.
pub proof fn lemma_mapped_codes_decode(codes: Seq<u16>)
    requires
        forall|i: int| 0 <= i < codes.len() ==> glyph_token(#[trigger] codes[i]) is Some,
    ensures
        text_at(encode_codes(codes).push(TERMINATOR), 0) == Ok::<Seq<char>, ErrorView>(
            tokens_of(codes),
        ),
{
    let s = encode_codes(codes).push(TERMINATOR);
    assert(s.subrange(0, s.len() as int) =~= s);
    lemma_text_run(s, 0, codes);
}

/// A file whose first pointer is zero has no floors.
pub proof fn lemma_empty_floor_list(s: Seq<u8>)
    requires
        s.len() >= 4,
        s[0] == 0 && s[1] == 0 && s[2] == 0 && s[3] == 0,
    ensures
        dungeon_at(s) == Ok::<Seq<FloorView>, ErrorView>(Seq::empty()),
{
}

/// A floor plan is the 1536 bytes at its offset, row after row; with fewer
/// bytes left it is truncated.
pub proof fn lemma_plan_row_major(s: Seq<u8>, at: int)
    requires
        0 <= at,
    ensures
        s.len() - at >= PLAN_SIZE ==> plan_at(s, at) is Ok && forall|r: int, c: int|
            0 <= r < ROWS && 0 <= c < COLUMNS ==> (#[trigger] plan_at(s, at)->Ok_0[r * COLUMNS
                + c]) == s[at + r * COLUMNS + c],
        s.len() - at < PLAN_SIZE ==> plan_at(s, at) == Err::<Seq<u8>, ErrorView>(
            truncated(DataPart::FloorPlan),
        ),
{
}

/// Fewer than four bytes where a pointer is read, or no byte where a string
/// starts, is a truncation; neither decodes to a value.
pub proof fn lemma_short_reads_truncate(s: Seq<u8>, at: int)
    ensures
        at + 4 > s.len() ==> ptr_at(s, at) == Err::<nat, ErrorView>(
            truncated(DataPart::Pointer),
        ),
        at >= s.len() ==> text_at(s, at) == Err::<Seq<char>, ErrorView>(
            truncated(DataPart::Character),
        ),
{
}

/// A first floor pointer that is not zero and leads past the end of the
/// file fails on the bounds of the floor table, as the first floor.
pub proof fn lemma_floor_pointer_past_end(s: Seq<u8>)
    requires
        s.len() >= 4,
        ptr_value(s, 0) != 0,
        ptr_value(s, 0) >= s.len(),
    ensures
        dungeon_at(s) == Err::<Seq<FloorView>, ErrorView>(
            (
                ErrorKind::TruncatedData(DataPart::Pointer),
                seq![Context::NamePointer, Context::Floor(1)],
            ),
        ),
{
    assert(Seq::<Context>::empty().push(Context::NamePointer).push(Context::Floor(1)) =~= seq![
        Context::NamePointer,
        Context::Floor(1),
    ]);
}

proof fn lemma_slot_layouts_distinct(s: Seq<u8>, t: int, i: nat, done: Seq<LayoutView>)
    requires
        slot_layouts(s, t, i, done) is Ok,
        forall|a: int, b: int|
            0 <= a < b < done.len() ==> done[a].table_ptr != done[b].table_ptr,
    ensures
        ({
            let ls = slot_layouts(s, t, i, done)->Ok_0;
            &&& done.len() <= ls.len()
            &&& forall|k: int| 0 <= k < done.len() ==> ls[k] == done[k]
            &&& forall|a: int, b: int|
                0 <= a < b < ls.len() ==> ls[a].table_ptr != ls[b].table_ptr
            &&& forall|j: int| i <= j < SLOTS ==> decoded(ls, #[trigger] slot_ptr(s, t, j))
            &&& forall|k: int|
                done.len() <= k < ls.len() ==> exists|j: int|
                    i <= j < SLOTS && (#[trigger] ls[k]).table_ptr == #[trigger] slot_ptr(s, t, j)
        }),
    decreases SLOTS - i,
{
    if i < SLOTS {
        let p = slot_ptr(s, t, i as int);
        if decoded(done, p) {
            lemma_slot_layouts_distinct(s, t, i + 1, done);
            let ls = slot_layouts(s, t, i, done)->Ok_0;
            let k = choose|k: int| 0 <= k < done.len() && done[k].table_ptr == p;
            assert(ls[k] == done[k]);
        } else {
            let l = layout_at(s, p as int)->Ok_0;
            let d2 = done.push(l);
            assert(d2[done.len() as int] == l);
            assert forall|k: int| 0 <= k < done.len() implies d2[k] == done[k] by {}
            lemma_slot_layouts_distinct(s, t, i + 1, d2);
            let ls = slot_layouts(s, t, i, done)->Ok_0;
            assert(ls[done.len() as int] == l);
            assert forall|k: int| done.len() <= k < ls.len() implies exists|j: int|
                i <= j < SLOTS && (#[trigger] ls[k]).table_ptr == #[trigger] slot_ptr(s, t, j) by {
                if k == done.len() {
                    assert(ls[k].table_ptr == slot_ptr(s, t, i as int));
                }
            }
        }
    }
}

/// Each slot pointer of a floor leads to exactly one of its layouts, and no
/// two of its layouts come from one pointer: slots that hold one pointer share
/// one layout, and slots with different pointers get layouts of their own.
pub proof fn lemma_one_layout_per_pointer(s: Seq<u8>, t: int)
    requires
        floor_at(s, t) is Ok,
    ensures
        ({
            let f = floor_at(s, t)->Ok_0;
            &&& forall|i: int| 0 <= i < f.slots.len() ==> decoded(f.layouts, #[trigger] f.slots[i])
            &&& forall|k: int|
                0 <= k < f.layouts.len() ==> f.slots.contains(#[trigger] f.layouts[k].table_ptr)
            &&& forall|a: int, b: int|
                0 <= a < b < f.layouts.len() ==> f.layouts[a].table_ptr != f.layouts[b].table_ptr
        }),
{
    lemma_slot_layouts_distinct(s, t, 0, Seq::empty());
    let f = floor_at(s, t)->Ok_0;
    assert forall|k: int| 0 <= k < f.layouts.len() implies f.slots.contains(
        #[trigger] f.layouts[k].table_ptr,
    ) by {
        let j = choose|j: int| 0 <= j < SLOTS && f.layouts[k].table_ptr == slot_ptr(s, t, j);
        assert(f.slots[j] == slot_ptr(s, t, j));
    }
}

} // verus!
