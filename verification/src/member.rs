//! The reference a filter is bound to: a resolvable member, identified by
//! its full name. How the member turns into SQL text is the resolver's
//! business; this component only carries the reference through.

use vstd::prelude::*;

verus! {

/// A resolvable member (a dimension or measure expression) a filter refers
/// to. Its view is its full name.
pub struct MemberSymbol {
    full_name: String,
}

impl View for MemberSymbol {
    type V = Seq<char>;

    closed spec fn view(&self) -> Seq<char> {
        self.full_name@
    }
}

impl MemberSymbol {
    pub fn new(full_name: String) -> (r: Self)
        ensures
            r@ == full_name@,
    {
        MemberSymbol { full_name }
    }

    /// The member's full name.
    pub fn full_name(&self) -> (r: String)
        ensures
            r@ == self@,
    {
        self.full_name.clone()
    }

    /// A second reference to the same member.
    pub fn clone_symbol(&self) -> (r: Self)
        ensures
            r@ == self@,
    {
        MemberSymbol { full_name: self.full_name.clone() }
    }
}

} // verus!
