use dungeon_file::{
    parse_list, parse_ptr, parse_string, parse_string_piece, Context, DataPart, Dungeon, ErrorKind,
    Floor, FloorPlan, GlyphTable, Layout,
};

fn put(buf: &mut Vec<u8>, at: usize, value: u32) {
    if buf.len() < at + 4 {
        buf.resize(at + 4, 0);
    }
    buf[at..at + 4].copy_from_slice(&value.to_le_bytes());
}

fn put_bytes(buf: &mut Vec<u8>, at: usize, bytes: &[u8]) {
    if buf.len() < at + bytes.len() {
        buf.resize(at + bytes.len(), 0);
    }
    buf[at..at + bytes.len()].copy_from_slice(bytes);
}

/// One floor at 16 named "ADigimon", whose eight slots share three layout
/// tables; the tables at 64 and 104 hold the same bytes.
fn sample_file() -> Vec<u8> {
    let mut buf = Vec::new();
    put(&mut buf, 0, 16);
    put(&mut buf, 4, 0);
    put(&mut buf, 16, 60);
    let slots = [64u32, 84, 64, 104, 84, 64, 104, 64];
    for (i, p) in slots.iter().enumerate() {
        put(&mut buf, 24 + 4 * i, *p);
    }
    put_bytes(&mut buf, 60, &[0x0A, 0xF0, 0x06, 0xFF]);
    for (table, plan) in [(64usize, 128u32), (84, 1664), (104, 128)] {
        put(&mut buf, table, plan);
        put(&mut buf, table + 4, 1);
        put(&mut buf, table + 8, 2);
        put(&mut buf, table + 12, 3);
        put(&mut buf, table + 16, 4);
    }
    for i in 0..1536 {
        put_bytes(&mut buf, 128 + i, &[(i % 251) as u8]);
        put_bytes(&mut buf, 1664 + i, &[(i % 7) as u8 + 100]);
    }
    buf
}

#[test]
fn pointer_is_little_endian() {
    assert_eq!(parse_ptr(&[0x34, 0x12, 0x00, 0x00], 0).unwrap(), 0x1234);
    assert_eq!(parse_ptr(&[0xFF, 0x78, 0x56, 0x34, 0x12], 1).unwrap(), 0x1234_5678);
    assert_eq!(parse_ptr(&[0xFF, 0xFF, 0xFF, 0xFF], 0).unwrap(), 0xFFFF_FFFF);
}

#[test]
fn short_pointer_is_truncated() {
    let e = parse_ptr(&[0x34, 0x12, 0x00], 0).unwrap_err();
    assert_eq!(e.kind, ErrorKind::TruncatedData(DataPart::Pointer));
    assert!(e.trail.is_empty());
    let e = parse_ptr(&[0, 0, 0, 0], 1).unwrap_err();
    assert_eq!(e.kind, ErrorKind::TruncatedData(DataPart::Pointer));
    let e = parse_ptr(&[0, 0, 0, 0], usize::MAX).unwrap_err();
    assert_eq!(e.kind, ErrorKind::TruncatedData(DataPart::Pointer));
}

#[test]
fn zero_first_pointer_gives_no_floors() {
    let d = Dungeon::try_from(&[0, 0, 0, 0]).unwrap();
    assert!(d.floors.is_empty());
    let d = Dungeon::try_from(&[0, 0, 0, 0, 9, 9, 9]).unwrap();
    assert!(d.floors.is_empty());
}

#[test]
fn empty_file_is_truncated() {
    let e = Dungeon::try_from(&[]).unwrap_err();
    assert_eq!(e.kind, ErrorKind::TruncatedData(DataPart::Pointer));
    assert_eq!(e.trail, vec![Context::NextFloorPointer]);
}

#[test]
fn string_of_mapped_codes() {
    let g = GlyphTable::new();
    assert_eq!(parse_string(&g, &[0x0A, 0x24, 0xFF], 0).unwrap(), "Aa");
    assert_eq!(parse_string(&g, &[0x00, 0x09, 0xFD, 0x3D, 0xFF], 0).unwrap(), "09 z");
    assert_eq!(parse_string(&g, &[0x99, 0xFF, 0x0A], 1).unwrap(), "");
    assert_eq!(parse_string(&g, &[0x56, 0x0B, 0xFE, 0xFF], 0).unwrap(), "B<ENTER>");
}

#[test]
fn extended_code_is_one_token() {
    let g = GlyphTable::new();
    assert_eq!(g.get(0xF006), Some("Digimon"));
    assert_eq!(parse_string(&g, &[0xF0, 0x06, 0xFF], 0).unwrap(), "Digimon");
    assert_eq!(parse_string_piece(&g, &[0xF0, 0x06, 0xFF], 0).unwrap(), Some(("Digimon", 2)));
    assert_eq!(
        parse_string(&g, &[0xF0, 0x07, 0xFD, 0xF0, 0x48, 0xFF], 0).unwrap(),
        "you time"
    );
}

#[test]
fn string_pieces_step_through_codes() {
    let g = GlyphTable::new();
    let raw = [0x0A, 0xF0, 0x00, 0xFF];
    assert_eq!(parse_string_piece(&g, &raw, 0).unwrap(), Some(("A", 1)));
    assert_eq!(parse_string_piece(&g, &raw, 1).unwrap(), Some(("Akira", 3)));
    assert_eq!(parse_string_piece(&g, &raw, 3).unwrap(), None);
    let e = parse_string_piece(&g, &raw, 4).unwrap_err();
    assert_eq!(e.kind, ErrorKind::TruncatedData(DataPart::Character));
}

#[test]
fn unmapped_code_is_illegal() {
    let g = GlyphTable::new();
    let e = parse_string(&g, &[0x42, 0xFF], 0).unwrap_err();
    assert_eq!(e.kind, ErrorKind::IllegalCharacterCode(0x42));
    let e = parse_string(&g, &[0x0A, 0xF0, 0x01, 0xFF], 0).unwrap_err();
    assert_eq!(e.kind, ErrorKind::IllegalCharacterCode(0xF001));
    assert_eq!(g.get(0x42), None);
    assert_eq!(g.get(0xF0), None);
    assert_eq!(g.get(0xFF), None);
}

#[test]
fn empty_or_unterminated_string_is_truncated() {
    let g = GlyphTable::new();
    let e = parse_string(&g, &[], 0).unwrap_err();
    assert_eq!(e.kind, ErrorKind::TruncatedData(DataPart::Character));
    let e = parse_string(&g, &[0x0A, 0x0B], 0).unwrap_err();
    assert_eq!(e.kind, ErrorKind::TruncatedData(DataPart::Character));
    let e = parse_string(&g, &[0x0A, 0xF0], 0).unwrap_err();
    assert_eq!(e.kind, ErrorKind::TruncatedData(DataPart::Character));
}

#[test]
fn list_runs_to_terminator() {
    assert_eq!(parse_list(&[1, 2, 3, 0xFF, 4], 0).unwrap(), vec![1, 2, 3]);
    assert_eq!(parse_list(&[1, 2, 3, 0xFF, 4], 1).unwrap(), vec![2, 3]);
    assert_eq!(parse_list(&[0xFF], 0).unwrap(), Vec::<u8>::new());
    let e = parse_list(&[1, 2, 3], 0).unwrap_err();
    assert_eq!(e.kind, ErrorKind::TruncatedData(DataPart::List));
    let e = parse_list(&[0xFF], 5).unwrap_err();
    assert_eq!(e.kind, ErrorKind::TruncatedData(DataPart::List));
}

#[test]
fn floor_plan_takes_exactly_its_region() {
    let raw: Vec<u8> = (0..1536u32).map(|i| (i * 7 % 256) as u8).collect();
    let p = FloorPlan::new(&raw, 0).unwrap();
    for row in 0..48 {
        for col in 0..32 {
            assert_eq!(p.tile(row, col), raw[row * 32 + col]);
        }
    }
    assert_eq!(p.tile(1, 0), raw[32]);
    assert_eq!(p.tile(47, 31), raw[1535]);
    let e = FloorPlan::new(&raw[..1535], 0).unwrap_err();
    assert_eq!(e.kind, ErrorKind::TruncatedData(DataPart::FloorPlan));
    let e = FloorPlan::new(&raw, 1).unwrap_err();
    assert_eq!(e.kind, ErrorKind::TruncatedData(DataPart::FloorPlan));
    let mut longer = vec![9u8; 3];
    longer.extend_from_slice(&raw);
    let p = FloorPlan::new(&longer, 3).unwrap();
    assert_eq!(p.tile(0, 0), raw[0]);
    assert_eq!(p.tile(20, 5), raw[20 * 32 + 5]);
}

#[test]
fn layout_reads_its_five_pointers() {
    let raw = sample_file();
    let l = Layout::new(&raw, 64).unwrap();
    assert_eq!(l.table_ptr, 64);
    assert_eq!(l.floor_plan_ptr, 128);
    assert_eq!((l.warps_ptr, l.chests_ptr, l.traps_ptr, l.spawn_ptr), (1, 2, 3, 4));
    assert_eq!(l.floor_plan.tile(0, 1), 1);
    let e = Layout::new(&raw, raw.len() - 19).unwrap_err();
    assert_eq!(e.kind, ErrorKind::TruncatedData(DataPart::LayoutTable));
    assert!(e.trail.is_empty());
    let e = Layout::new(&raw, 1600).unwrap_err();
    assert_eq!(e.kind, ErrorKind::TruncatedData(DataPart::FloorPlan));
    assert_eq!(e.trail, vec![Context::FloorPlan]);
}

#[test]
fn shared_slots_decode_one_layout() {
    let raw = sample_file();
    let g = GlyphTable::new();
    let f = Floor::new(&g, &raw, 16).unwrap();
    assert_eq!(f.title, "ADigimon");
    assert_eq!(f.slots, vec![64, 84, 64, 104, 84, 64, 104, 64]);
    assert_eq!(f.layouts.len(), 3);
    let ptrs: Vec<usize> = f.layouts.iter().map(|l| l.table_ptr).collect();
    assert_eq!(ptrs, vec![64, 84, 104]);
    assert_eq!(f.layouts[0].floor_plan_ptr, 128);
    assert_eq!(f.layouts[2].floor_plan_ptr, 128);
    assert_eq!(f.layouts[1].floor_plan.tile(0, 0), 100);
}

#[test]
fn floor_table_errors_carry_their_step() {
    let g = GlyphTable::new();
    let mut raw = sample_file();
    let e = Floor::new(&g, &raw, raw.len() - 2).unwrap_err();
    assert_eq!(e.kind, ErrorKind::TruncatedData(DataPart::Pointer));
    assert_eq!(e.trail, vec![Context::NamePointer]);
    raw[60] = 0x42;
    let e = Floor::new(&g, &raw, 16).unwrap_err();
    assert_eq!(e.kind, ErrorKind::IllegalCharacterCode(0x42));
    assert_eq!(e.trail, vec![Context::Name]);
    raw[60] = 0x0A;
    put(&mut raw, 24 + 4 * 3, 1600);
    let e = Floor::new(&g, &raw, 16).unwrap_err();
    assert_eq!(e.kind, ErrorKind::TruncatedData(DataPart::FloorPlan));
    assert_eq!(e.trail, vec![Context::FloorPlan, Context::Layout(4)]);
    put(&mut raw, 24 + 4 * 3, 64);
    put(&mut raw, 24 + 4 * 6, 5000);
    let e = Floor::new(&g, &raw, 16).unwrap_err();
    assert_eq!(e.kind, ErrorKind::TruncatedData(DataPart::LayoutTable));
    assert_eq!(e.trail, vec![Context::Layout(7)]);
}

#[test]
fn short_floor_table_is_truncated() {
    let g = GlyphTable::new();
    let mut raw = vec![0u8; 4];
    put(&mut raw, 0, 8);
    put_bytes(&mut raw, 4, &[0x0A, 0xFF, 0x00]);
    put(&mut raw, 8, 4);
    let e = Floor::new(&g, &raw, 8).unwrap_err();
    assert_eq!(e.kind, ErrorKind::TruncatedData(DataPart::FloorTable));
    assert!(e.trail.is_empty());
}

#[test]
fn dungeon_decodes_each_floor() {
    let raw = sample_file();
    let d = Dungeon::try_from(&raw).unwrap();
    assert_eq!(d.floors.len(), 1);
    assert_eq!(d.floors[0].title, "ADigimon");
    assert_eq!(d.floors[0].layouts.len(), 3);

    let mut two = raw.clone();
    put(&mut two, 4, 16);
    put(&mut two, 8, 0);
    let d = Dungeon::try_from(&two).unwrap();
    assert_eq!(d.floors.len(), 2);
    assert_eq!(d.floors[1].slots, d.floors[0].slots);
}

#[test]
fn floor_pointer_past_end_is_bounds_error() {
    let mut raw = vec![0u8; 8];
    put(&mut raw, 0, 0x1000);
    let e = Dungeon::try_from(&raw).unwrap_err();
    assert_eq!(e.kind, ErrorKind::TruncatedData(DataPart::Pointer));
    assert_eq!(e.trail, vec![Context::NamePointer, Context::Floor(1)]);
}

#[test]
fn later_floor_failure_names_its_position() {
    let mut raw = sample_file();
    let table = raw.len();
    put(&mut raw, table, table as u32 + 40);
    for i in 0..8 {
        put(&mut raw, table + 8 + 4 * i, 64);
    }
    put_bytes(&mut raw, table + 40, &[0xF0, 0xFF]);
    put(&mut raw, 4, 16);
    put(&mut raw, 8, table as u32);
    let e = Dungeon::try_from(&raw).unwrap_err();
    assert_eq!(e.kind, ErrorKind::IllegalCharacterCode(0xF0FF));
    assert_eq!(e.trail, vec![Context::Name, Context::Floor(3)]);
}

#[test]
fn truncated_slot_pointer_names_layout_pointer() {
    let g = GlyphTable::new();
    let mut raw = sample_file();
    let table = raw.len();
    put(&mut raw, table, 60);
    put(&mut raw, table + 8, 64);
    put(&mut raw, table + 12, 64);
    put_bytes(&mut raw, table + 16, &[1, 2]);
    let e = Floor::new(&g, &raw, table).unwrap_err();
    assert_eq!(e.kind, ErrorKind::TruncatedData(DataPart::Pointer));
    assert_eq!(e.trail, vec![Context::LayoutPointer]);
    let mut outer = raw.clone();
    put(&mut outer, 0, table as u32);
    let e = Dungeon::try_from(&outer).unwrap_err();
    assert_eq!(e.trail, vec![Context::LayoutPointer, Context::Floor(1)]);
}
