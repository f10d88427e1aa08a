use vstd::prelude::*;

verus! {

/// Which piece of the format ran past the end of the buffer.
#[derive(Clone, Copy, Debug, PartialEq, Eq, Structural)]
pub enum DataPart {
    Pointer,
    List,
    Character,
    FloorPlan,
    LayoutTable,
    FloorTable,
}

/// The cause at the bottom of a failed decode.
#[derive(Clone, Copy, Debug, PartialEq, Eq, Structural)]
pub enum ErrorKind {
    /// Too few bytes were left for the given piece.
    TruncatedData(DataPart),
    /// A character code that the glyph table does not map.
    IllegalCharacterCode(u16),
}

/// One step of the decode that a failure passed through on its way out.
#[derive(Clone, Copy, Debug, PartialEq, Eq, Structural)]
pub enum Context {
    NextFloorPointer,
    /// The floor at this 1-based position of the floor list.
    Floor(usize),
    NamePointer,
    Name,
    LayoutPointer,
    /// The layout slot at this 1-based position of a floor table.
    Layout(usize),
    FloorPlan,
}

/// A failed decode: its cause, and the trail of steps it unwound through,
/// innermost first.
#[derive(Debug)]
pub struct DecodeError {
    pub kind: ErrorKind,
    pub trail: Vec<Context>,
}

/// An error as the specifications see it.
pub type ErrorView = (ErrorKind, Seq<Context>);

impl View for DecodeError {
    type V = ErrorView;

    open spec fn view(&self) -> ErrorView {
        (self.kind, self.trail@)
    }
}

pub open spec fn truncated(part: DataPart) -> ErrorView {
    (ErrorKind::TruncatedData(part), Seq::empty())
}

pub open spec fn illegal(code: u16) -> ErrorView {
    (ErrorKind::IllegalCharacterCode(code), Seq::empty())
}

/// The error `e` after it has passed through step `c`.
pub open spec fn within(e: ErrorView, c: Context) -> ErrorView {
    (e.0, e.1.push(c))
}

impl DecodeError {
    pub fn new(kind: ErrorKind) -> (r: DecodeError)
        ensures
            r@ == (kind, Seq::<Context>::empty()),
    {
        DecodeError { kind, trail: Vec::new() }
    }

    /// Records that the failure passed through step `c`.
    pub fn within(self, c: Context) -> (r: DecodeError)
        ensures
            r@ == within(self@, c),
    {
        let mut e = self;
        e.trail.push(c);
        e
    }
}

} // verus!

verus! {

/// `r` with `pre` put in front of its value, where it has one.
pub open spec fn prepend<T>(pre: Seq<T>, r: Result<Seq<T>, ErrorView>) -> Result<Seq<T>, ErrorView> {
    match r {
        Ok(v) => Ok(pre + v),
        Err(e) => Err(e),
    }
}

pub proof fn lemma_prepend_twice<T>(a: Seq<T>, b: Seq<T>, r: Result<Seq<T>, ErrorView>)
    ensures
        prepend(a, prepend(b, r)) == prepend(a + b, r),
{
    if let Ok(v) = r {
        assert(a + (b + v) =~= (a + b) + v);
    }
}

} // verus!
