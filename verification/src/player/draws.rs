//! The record of the random draws a queue has made.
use vstd::prelude::*;

verus! {

/// The values the random generator has returned to a queue, in the order
/// they were drawn. Only the generator's wrapper extends it; nothing else
/// can write it.
#[derive(Clone)]
pub struct DrawLog {
    drawn: Ghost<Seq<usize>>,
}

impl DrawLog {
    /// The values drawn so far, oldest first.
    pub closed spec fn drawn(&self) -> Seq<usize> {
        self.drawn@
    }

    /// A record with nothing drawn yet.
    pub fn new() -> (r: Self)
        ensures
            r.drawn() == Seq::<usize>::empty(),
    {
        DrawLog { drawn: Ghost(Seq::empty()) }
    }
}

} // verus!
