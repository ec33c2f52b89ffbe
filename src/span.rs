use vstd::prelude::*;

verus! {

/// A range of byte offsets in the source text.
#[derive(Debug, Clone, Copy, PartialEq, Eq, Structural)]
pub struct Span {
    pub start: usize,
    pub end: usize,
}

impl Span {
    pub fn new(start: usize, end: usize) -> (r: Self)
        ensures
            r.start == start,
            r.end == end,
    {
        Span { start, end }
    }
}

impl From<(usize, usize)> for Span {
    fn from(pair: (usize, usize)) -> (r: Self) {
        Span::new(pair.0, pair.1)
    }
}

impl vstd::std_specs::convert::FromSpecImpl<(usize, usize)> for Span {
    open spec fn obeys_from_spec() -> bool {
        true
    }

    open spec fn from_spec(pair: (usize, usize)) -> Span {
        Span { start: pair.0, end: pair.1 }
    }
}

} // verus!
