use vstd::prelude::*;

verus! {

/// The prefix byte of a two-byte character code.
pub const EXTENDED_PREFIX: u8 = 0xF0;

/// The byte that ends a string.
pub const TERMINATOR: u8 = 0xFF;

/// The token that the glyph table maps `code` to, if it maps it.
///
/// Single-byte codes cover digits, letters, punctuation and the control
/// markers (line break, new box); codes `0xF0xx` are whole words.
pub open spec fn glyph_token(code: u16) -> Option<Seq<char>> {
    match code {
        0x00 => Some("0"@),
        0x01 => Some("1"@),
        0x02 => Some("2"@),
        0x03 => Some("3"@),
        0x04 => Some("4"@),
        0x05 => Some("5"@),
        0x06 => Some("6"@),
        0x07 => Some("7"@),
        0x08 => Some("8"@),
        0x09 => Some("9"@),
        0x0A => Some("A"@),
        0x0B => Some("B"@),
        0x0C => Some("C"@),
        0x0D => Some("D"@),
        0x0E => Some("E"@),
        0x0F => Some("F"@),
        0x10 => Some("G"@),
        0x11 => Some("H"@),
        0x12 => Some("I"@),
        0x13 => Some("J"@),
        0x14 => Some("K"@),
        0x15 => Some("L"@),
        0x16 => Some("M"@),
        0x17 => Some("N"@),
        0x18 => Some("O"@),
        0x19 => Some("P"@),
        0x1A => Some("Q"@),
        0x1B => Some("R"@),
        0x1C => Some("S"@),
        0x1D => Some("T"@),
        0x1E => Some("U"@),
        0x1F => Some("V"@),
        0x20 => Some("W"@),
        0x21 => Some("X"@),
        0x22 => Some("Y"@),
        0x23 => Some("Z"@),
        0x24 => Some("a"@),
        0x25 => Some("b"@),
        0x26 => Some("c"@),
        0x27 => Some("d"@),
        0x28 => Some("e"@),
        0x29 => Some("f"@),
        0x2A => Some("g"@),
        0x2B => Some("h"@),
        0x2C => Some("i"@),
        0x2D => Some("j"@),
        0x2E => Some("k"@),
        0x2F => Some("l"@),
        0x30 => Some("m"@),
        0x31 => Some("n"@),
        0x32 => Some("o"@),
        0x33 => Some("p"@),
        0x34 => Some("q"@),
        0x35 => Some("r"@),
        0x36 => Some("s"@),
        0x37 => Some("t"@),
        0x38 => Some("u"@),
        0x39 => Some("v"@),
        0x3A => Some("w"@),
        0x3B => Some("x"@),
        0x3C => Some("y"@),
        0x3D => Some("z"@),
        0x41 => Some("<SQUARE>"@),
        0x44 => Some("?"@),
        0x45 => Some("!"@),
        0x46 => Some("/"@),
        0x49 => Some("-"@),
        0x54 => Some(","@),
        0x55 => Some("."@),
        0x56 => Some(""@),
        0x5B => Some("PLUS SIGN"@),
        0xFB => Some("<X>"@),
        0xFC => Some("<NEW BOX>"@),
        0xFD => Some(" "@),
        0xFE => Some("<ENTER>"@),
        0xF000 => Some("Akira"@),
        0xF006 => Some("Digimon"@),
        0xF007 => Some("you"@),
        0xF008 => Some("the"@),
        0xF009 => Some("Digi-Beetle"@),
        0xF00A => Some("Domain"@),
        0xF00B => Some("Guard"@),
        0xF00C => Some("Tamer"@),
        0xF00D => Some("here"@),
        0xF00E => Some("have"@),
        0xF00F => Some("Knights"@),
        0xF010 => Some("and"@),
        0xF011 => Some("thing"@),
        0xF012 => Some("Security"@),
        0xF013 => Some("that"@),
        0xF014 => Some("Bertran"@),
        0xF015 => Some("Tournament"@),
        0xF016 => Some("Crimson"@),
        0xF018 => Some("something"@),
        0xF019 => Some("Item"@),
        0xF01A => Some("Falcon"@),
        0xF01B => Some("for"@),
        0xF01C => Some("That's"@),
        0xF01D => Some("Commander"@),
        0xF01E => Some("Blood"@),
        0xF01F => Some("Leader"@),
        0xF020 => Some("Attendant"@),
        0xF021 => Some("Cecilia"@),
        0xF022 => Some("all"@),
        0xF023 => Some("mission"@),
        0xF024 => Some("this"@),
        0xF026 => Some("Archive"@),
        0xF027 => Some("Black"@),
        0xF028 => Some("I'll"@),
        0xF029 => Some("are"@),
        0xF02A => Some("Sword"@),
        0xF02B => Some("right"@),
        0xF02C => Some("Digivolve"@),
        0xF02D => Some("enter"@),
        0xF02E => Some("What"@),
        0xF02F => Some("will"@),
        0xF030 => Some("come"@),
        0xF031 => Some("You"@),
        0xF032 => Some("Coliseum"@),
        0xF033 => Some("about"@),
        0xF034 => Some("don't"@),
        0xF035 => Some("anything"@),
        0xF037 => Some("Parts"@),
        0xF038 => Some("where"@),
        0xF039 => Some("The"@),
        0xF03A => Some("know"@),
        0xF03B => Some("Leomon"@),
        0xF03C => Some("want"@),
        0xF03D => Some("Oldman"@),
        0xF03E => Some("like"@),
        0xF03F => Some("need"@),
        0xF040 => Some("Chief"@),
        0xF041 => Some("with"@),
        0xF042 => Some("Thank"@),
        0xF044 => Some("Island"@),
        0xF045 => Some("can"@),
        0xF046 => Some("really"@),
        0xF047 => Some("Blue"@),
        0xF048 => Some("time"@),
        _ => None,
    }
}

/// The fixed mapping from character codes to display tokens. It holds no
/// state: every value of it is the same table, and decoders take it by
/// shared reference.
#[derive(Clone, Copy, Debug)]
pub struct GlyphTable {}

impl GlyphTable {
    pub fn new() -> (r: GlyphTable) {
        GlyphTable {}
    }

    /// The token for `code`, or `None` where the table maps nothing.
    pub fn get(&self, code: u16) -> (r: Option<&'static str>)
        ensures
            match r {
                Some(t) => glyph_token(code) == Some(t@),
                None => glyph_token(code) is None,
            },
    {
        match code {
            0x00 => Some("0"),
            0x01 => Some("1"),
            0x02 => Some("2"),
            0x03 => Some("3"),
            0x04 => Some("4"),
            0x05 => Some("5"),
            0x06 => Some("6"),
            0x07 => Some("7"),
            0x08 => Some("8"),
            0x09 => Some("9"),
            0x0A => Some("A"),
            0x0B => Some("B"),
            0x0C => Some("C"),
            0x0D => Some("D"),
            0x0E => Some("E"),
            0x0F => Some("F"),
            0x10 => Some("G"),
            0x11 => Some("H"),
            0x12 => Some("I"),
            0x13 => Some("J"),
            0x14 => Some("K"),
            0x15 => Some("L"),
            0x16 => Some("M"),
            0x17 => Some("N"),
            0x18 => Some("O"),
            0x19 => Some("P"),
            0x1A => Some("Q"),
            0x1B => Some("R"),
            0x1C => Some("S"),
            0x1D => Some("T"),
            0x1E => Some("U"),
            0x1F => Some("V"),
            0x20 => Some("W"),
            0x21 => Some("X"),
            0x22 => Some("Y"),
            0x23 => Some("Z"),
            0x24 => Some("a"),
            0x25 => Some("b"),
            0x26 => Some("c"),
            0x27 => Some("d"),
            0x28 => Some("e"),
            0x29 => Some("f"),
            0x2A => Some("g"),
            0x2B => Some("h"),
            0x2C => Some("i"),
            0x2D => Some("j"),
            0x2E => Some("k"),
            0x2F => Some("l"),
            0x30 => Some("m"),
            0x31 => Some("n"),
            0x32 => Some("o"),
            0x33 => Some("p"),
            0x34 => Some("q"),
            0x35 => Some("r"),
            0x36 => Some("s"),
            0x37 => Some("t"),
            0x38 => Some("u"),
            0x39 => Some("v"),
            0x3A => Some("w"),
            0x3B => Some("x"),
            0x3C => Some("y"),
            0x3D => Some("z"),
            0x41 => Some("<SQUARE>"),
            0x44 => Some("?"),
            0x45 => Some("!"),
            0x46 => Some("/"),
            0x49 => Some("-"),
            0x54 => Some(","),
            0x55 => Some("."),
            0x56 => Some(""),
            0x5B => Some("PLUS SIGN"),
            0xFB => Some("<X>"),
            0xFC => Some("<NEW BOX>"),
            0xFD => Some(" "),
            0xFE => Some("<ENTER>"),
            0xF000 => Some("Akira"),
            0xF006 => Some("Digimon"),
            0xF007 => Some("you"),
            0xF008 => Some("the"),
            0xF009 => Some("Digi-Beetle"),
            0xF00A => Some("Domain"),
            0xF00B => Some("Guard"),
            0xF00C => Some("Tamer"),
            0xF00D => Some("here"),
            0xF00E => Some("have"),
            0xF00F => Some("Knights"),
            0xF010 => Some("and"),
            0xF011 => Some("thing"),
            0xF012 => Some("Security"),
            0xF013 => Some("that"),
            0xF014 => Some("Bertran"),
            0xF015 => Some("Tournament"),
            0xF016 => Some("Crimson"),
            0xF018 => Some("something"),
            0xF019 => Some("Item"),
            0xF01A => Some("Falcon"),
            0xF01B => Some("for"),
            0xF01C => Some("That's"),
            0xF01D => Some("Commander"),
            0xF01E => Some("Blood"),
            0xF01F => Some("Leader"),
            0xF020 => Some("Attendant"),
            0xF021 => Some("Cecilia"),
            0xF022 => Some("all"),
            0xF023 => Some("mission"),
            0xF024 => Some("this"),
            0xF026 => Some("Archive"),
            0xF027 => Some("Black"),
            0xF028 => Some("I'll"),
            0xF029 => Some("are"),
            0xF02A => Some("Sword"),
            0xF02B => Some("right"),
            0xF02C => Some("Digivolve"),
            0xF02D => Some("enter"),
            0xF02E => Some("What"),
            0xF02F => Some("will"),
            0xF030 => Some("come"),
            0xF031 => Some("You"),
            0xF032 => Some("Coliseum"),
            0xF033 => Some("about"),
            0xF034 => Some("don't"),
            0xF035 => Some("anything"),
            0xF037 => Some("Parts"),
            0xF038 => Some("where"),
            0xF039 => Some("The"),
            0xF03A => Some("know"),
            0xF03B => Some("Leomon"),
            0xF03C => Some("want"),
            0xF03D => Some("Oldman"),
            0xF03E => Some("like"),
            0xF03F => Some("need"),
            0xF040 => Some("Chief"),
            0xF041 => Some("with"),
            0xF042 => Some("Thank"),
            0xF044 => Some("Island"),
            0xF045 => Some("can"),
            0xF046 => Some("really"),
            0xF047 => Some("Blue"),
            0xF048 => Some("time"),
            _ => None,
        }
    }
}

} // verus!
