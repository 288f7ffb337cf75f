use vstd::prelude::*;
use vstd::string::*;

verus! {

/// Graph operation error.
#[derive(Clone, Debug)]
pub enum GraphErr {
    /// There is no vertex with the given id in the graph.
    NoSuchVertex,
    /// Could not add a vertex to the graph.
    CannotAddVertex,
    /// Could not construct a board state from stored moves.
    CannotConstructState(String),
}

impl GraphErr {
    /// The text shown for this error: the variant's name, or the reason
    /// carried by `CannotConstructState`.
    pub open spec fn spec_text(self) -> Seq<char> {
        match self {
            GraphErr::NoSuchVertex => "NoSuchVertex"@,
            GraphErr::CannotAddVertex => "CannotAddVertex"@,
            GraphErr::CannotConstructState(reason) => reason@,
        }
    }

    pub fn text(&self) -> (out: String)
        ensures
            out@ == self.spec_text(),
    {
        match self {
            GraphErr::NoSuchVertex => String::from_str("NoSuchVertex"),
            GraphErr::CannotAddVertex => String::from_str("CannotAddVertex"),
            GraphErr::CannotConstructState(reason) => reason.clone(),
        }
    }
}

} // verus!
