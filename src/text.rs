use vstd::prelude::*;

use crate::error::{
    illegal, lemma_prepend_twice, prepend, truncated, DataPart, DecodeError, ErrorKind, ErrorView,
};
use crate::glyph::{glyph_token, GlyphTable, EXTENDED_PREFIX, TERMINATOR};

verus! {

/// The code that the prefix byte followed by `second` stands for.
pub open spec fn extended_code(second: u8) -> u16 {
    (0xF000 + second as int) as u16
}

/// One step of string decoding at `at`: `None` at the terminator, else the
/// token of the code found there and the offset just past that code.
pub open spec fn piece_at(s: Seq<u8>, at: int) -> Result<Option<(Seq<char>, int)>, ErrorView> {
    if at < 0 || at >= s.len() {
        Err(truncated(DataPart::Character))
    } else if s[at] == TERMINATOR {
        Ok(None)
    } else if s[at] == EXTENDED_PREFIX {
        if at + 1 >= s.len() {
            Err(truncated(DataPart::Character))
        } else {
            match glyph_token(extended_code(s[at + 1])) {
                Some(t) => Ok(Some((t, at + 2))),
                None => Err(illegal(extended_code(s[at + 1]))),
            }
        }
    } else {
        match glyph_token(s[at] as u16) {
            Some(t) => Ok(Some((t, at + 1))),
            None => Err(illegal(s[at] as u16)),
        }
    }
}

/// The string stored at `at`: the tokens of its codes up to the terminator.
pub open spec fn text_at(s: Seq<u8>, at: int) -> Result<Seq<char>, ErrorView>
    decreases s.len() - at,
{
    if at < 0 || at >= s.len() {
        Err(truncated(DataPart::Character))
    } else if s[at] == TERMINATOR {
        Ok(Seq::empty())
    } else if s[at] == EXTENDED_PREFIX {
        if at + 1 >= s.len() {
            Err(truncated(DataPart::Character))
        } else {
            match glyph_token(extended_code(s[at + 1])) {
                Some(t) => prepend(t, text_at(s, at + 2)),
                None => Err(illegal(extended_code(s[at + 1]))),
            }
        }
    } else {
        match glyph_token(s[at] as u16) {
            Some(t) => prepend(t, text_at(s, at + 1)),
            None => Err(illegal(s[at] as u16)),
        }
    }
}

/// The bytes from `at` up to the first terminator byte.
pub open spec fn list_at(s: Seq<u8>, at: int) -> Result<Seq<u8>, ErrorView>
    decreases s.len() - at,
{
    if at < 0 || at >= s.len() {
        Err(truncated(DataPart::List))
    } else if s[at] == TERMINATOR {
        Ok(Seq::empty())
    } else {
        prepend(seq![s[at]], list_at(s, at + 1))
    }
}

/// Copies out the bytes from `offset` up to the first terminator byte.
pub fn parse_list(raw: &[u8], offset: usize) -> (r: Result<Vec<u8>, DecodeError>)
    ensures
        match r {
            Ok(v) => list_at(raw@, offset as int) == Ok::<Seq<u8>, ErrorView>(v@),
            Err(e) => list_at(raw@, offset as int) == Err::<Seq<u8>, ErrorView>(e@),
        },
{
    let mut v: Vec<u8> = Vec::new();
    let mut i: usize = offset;
    loop
        invariant
            list_at(raw@, offset as int) == prepend(v@, list_at(raw@, i as int)),
        decreases raw@.len() - i,
    {
        if i >= raw.len() {
            return Err(DecodeError::new(ErrorKind::TruncatedData(DataPart::List)));
        }
        if raw[i] == TERMINATOR {
            assert(v@ + Seq::<u8>::empty() =~= v@);
            return Ok(v);
        }
        proof {
            lemma_prepend_twice(v@, seq![raw@[i as int]], list_at(raw@, i + 1));
        }
        let ghost before = v@;
        v.push(raw[i]);
        assert(v@ =~= before + seq![raw@[i as int]]);
        i = i + 1;
    }
}

/// Decodes one character code at `offset`: `None` at the terminator, else
/// its token and the offset just past it.
pub fn parse_string_piece(glyphs: &GlyphTable, raw: &[u8], offset: usize) -> (r: Result<
    Option<(&'static str, usize)>,
    DecodeError,
>)
    ensures
        match r {
            Ok(None) => piece_at(raw@, offset as int) == Ok::<_, ErrorView>(
                None::<(Seq<char>, int)>,
            ),
            Ok(Some((t, n))) => piece_at(raw@, offset as int) == Ok::<_, ErrorView>(
                Some((t@, n as int)),
            ),
            Err(e) => piece_at(raw@, offset as int) == Err::<Option<(Seq<char>, int)>, ErrorView>(
                e@,
            ),
        },
{
    if offset >= raw.len() {
        return Err(DecodeError::new(ErrorKind::TruncatedData(DataPart::Character)));
    }
    let first = raw[offset];
    let (code, next) = if first == TERMINATOR {
        return Ok(None);
    } else if first == EXTENDED_PREFIX {
        if offset + 1 >= raw.len() {
            return Err(DecodeError::new(ErrorKind::TruncatedData(DataPart::Character)));
        }
        (0xF000u16 + raw[offset + 1] as u16, offset + 2)
    } else {
        (first as u16, offset + 1)
    };
    match glyphs.get(code) {
        Some(t) => Ok(Some((t, next))),
        None => Err(DecodeError::new(ErrorKind::IllegalCharacterCode(code))),
    }
}

/// Decodes the string at `offset`: the tokens of its codes, in order, up to
/// the terminator.
pub fn parse_string(glyphs: &GlyphTable, raw: &[u8], offset: usize) -> (r: Result<
    String,
    DecodeError,
>)
    ensures
        match r {
            Ok(v) => text_at(raw@, offset as int) == Ok::<Seq<char>, ErrorView>(v@),
            Err(e) => text_at(raw@, offset as int) == Err::<Seq<char>, ErrorView>(e@),
        },
{
    let mut value = String::new();
    let mut at: usize = offset;
    loop
        invariant
            text_at(raw@, offset as int) == prepend(value@, text_at(raw@, at as int)),
        decreases raw@.len() - at,
    {
        match parse_string_piece(glyphs, raw, at) {
            Err(e) => {
                return Err(e);
            },
            Ok(None) => {
                assert(value@ + Seq::<char>::empty() =~= value@);
                return Ok(value);
            },
            Ok(Some((t, next))) => {
                proof {
                    lemma_prepend_twice(value@, t@, text_at(raw@, next as int));
                }
                value.append(t);
                at = next;
            },
        }
    }
}

} // verus!
