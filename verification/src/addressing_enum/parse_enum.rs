//! The input of the planner: an enum whose variants list the addressing
//! modes that they accept.
use vstd::prelude::*;

verus! {

/// An enum of instructions.
#[derive(Debug)]
pub struct Enum {
    pub ident: String,
    pub variants: Vec<Variant>,
}

/// One instruction with the names of the addressing modes that it accepts,
/// as they were written: a name may occur twice, and may be no mode's name.
#[derive(Debug)]
pub struct Variant {
    pub ident: String,
    pub modes: Vec<String>,
}

impl Enum {
    /// The lists of names of the variants, in the order of the variants.
    pub open spec fn names(&self) -> Seq<Seq<Seq<char>>> {
        Seq::new(self.variants@.len(), |i: int| self.variants@[i].names())
    }
}

impl Variant {
    /// The names that the variant lists.
    pub open spec fn names(&self) -> Seq<Seq<char>> {
        self.modes.deep_view()
    }
}

} // verus!
