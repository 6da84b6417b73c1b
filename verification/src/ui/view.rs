//! The three top-level views of the dashboard and their cyclic order.

use vstd::prelude::*;

verus! {

/// One of the three top-level dashboard modes.
#[derive(Debug, Clone, Copy, PartialEq, Eq, Structural)]
pub enum View {
    Issues,
    Projects,
    Teams,
}

impl View {
    /// The view that follows `self` in the fixed cyclic order
    /// Issues, Projects, Teams, Issues, ...
    pub open spec fn spec_next(self) -> View {
        match self {
            View::Issues => View::Projects,
            View::Projects => View::Teams,
            View::Teams => View::Issues,
        }
    }

    /// The view that precedes `self` in the cyclic order.
    pub open spec fn spec_previous(self) -> View {
        match self {
            View::Issues => View::Teams,
            View::Projects => View::Issues,
            View::Teams => View::Projects,
        }
    }

    /// Position of the view in the tab bar.
    pub open spec fn spec_index(self) -> int {
        match self {
            View::Issues => 0,
            View::Projects => 1,
            View::Teams => 2,
        }
    }

    /// One step forward in the cyclic order.
    pub fn next(self) -> (r: View)
        ensures
            r == self.spec_next(),
            r.spec_index() == (self.spec_index() + 1) % 3,
    {
        match self {
            View::Issues => View::Projects,
            View::Projects => View::Teams,
            View::Teams => View::Issues,
        }
    }

    /// One step backward in the cyclic order.
    pub fn previous(self) -> (r: View)
        ensures
            r == self.spec_previous(),
            r.spec_index() == (self.spec_index() + 2) % 3,
    {
        match self {
            View::Issues => View::Teams,
            View::Projects => View::Issues,
            View::Teams => View::Projects,
        }
    }

    /// Position of the view in the tab bar: 0, 1 or 2.
    pub fn index(self) -> (r: usize)
        ensures
            r == self.spec_index(),
            r < 3,
    {
        match self {
            View::Issues => 0,
            View::Projects => 1,
            View::Teams => 2,
        }
    }
}

/// The cyclic order has period three: three steps forward lead back to the
/// start, one or two steps do not, and so four steps end one view further.
pub proof fn lemma_next_has_period_three(v: View)
    ensures
        v.spec_next().spec_next().spec_next() == v,
        v.spec_next() != v,
        v.spec_next().spec_next() != v,
        v.spec_next().spec_next().spec_next().spec_next() == v.spec_next(),
{
}

/// Three steps backward lead back to the start, one or two steps do not.
pub proof fn lemma_previous_has_period_three(v: View)
    ensures
        v.spec_previous().spec_previous().spec_previous() == v,
        v.spec_previous() != v,
        v.spec_previous().spec_previous() != v,
{
}

/// A step backward undoes a step forward, and the other way round.
pub proof fn lemma_previous_undoes_next(v: View)
    ensures
        v.spec_next().spec_previous() == v,
        v.spec_previous().spec_next() == v,
{
}

} // verus!
