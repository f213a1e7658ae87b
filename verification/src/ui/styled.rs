use vstd::prelude::*;

verus! {

/// The colour a piece of text is drawn in.
#[derive(Clone, Copy, Debug, PartialEq, Eq, Structural)]
pub enum Tint {
    Plain,
    DarkGray,
    Red,
    Yellow,
    Green,
    Magenta,
    Cyan,
    White,
    Blue,
    Highlight,
    Link,
}

/// A piece of text and its colour.
#[derive(Clone, Debug)]
pub struct Styled {
    pub text: String,
    pub tint: Tint,
}

impl Styled {
    pub fn new(text: &str, tint: Tint) -> (r: Styled)
        ensures
            r.text@ == text@,
            r.tint == tint,
    {
        Styled { text: text.to_owned(), tint }
    }

    /// The piece has the given text and colour.
    pub open spec fn is(self, text: Seq<char>, tint: Tint) -> bool {
        self.text@ == text && self.tint == tint
    }
}

} // verus!
