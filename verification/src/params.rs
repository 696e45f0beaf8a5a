//! Bind-parameter allocation. One allocator serves one statement compile:
//! it records every allocated literal in order and hands back a placeholder
//! token `$i$` whose index is the literal's position, so positional bind
//! parameters stay correct.

use vstd::prelude::*;

use crate::text::{dec_str, u64_to_string};

verus! {

/// The placeholder token for the parameter at position `i`: `$i$`.
pub open spec fn placeholder_seq(i: nat) -> Seq<char> {
    seq!['$'] + dec_str(i) + seq!['$']
}

/// Records the literals bound to a statement, in allocation order.
pub struct ParamsAllocator {
    params: Vec<String>,
}

impl View for ParamsAllocator {
    type V = Seq<Seq<char>>;

    closed spec fn view(&self) -> Seq<Seq<char>> {
        self.params.deep_view()
    }
}

impl ParamsAllocator {
    /// An allocator with no parameters yet.
    pub fn new() -> (r: Self)
        ensures
            r@ == Seq::<Seq<char>>::empty(),
    {
        let r = ParamsAllocator { params: Vec::new() };
        proof {
            assert(r@ =~= Seq::<Seq<char>>::empty());
        }
        r
    }

    /// Records `value` and returns the placeholder token for its position.
    pub fn allocate_param(&mut self, value: &str) -> (r: String)
        ensures
            final(self)@ == old(self)@.push(value@),
            r@ == placeholder_seq(old(self)@.len()),
    {
        let index = self.params.len() as u64;
        let mut token = String::from_str("$");
        let digits = u64_to_string(index);
        token.append(digits.as_str());
        token.append("$");
        self.params.push(String::from_str(value));
        proof {
            reveal_strlit("$");
            assert(token@ =~= placeholder_seq(old(self)@.len()));
            assert(self@ =~= old(self)@.push(value@));
        }
        token
    }

    /// The literals allocated so far, in order.
    pub fn params(&self) -> (r: &Vec<String>)
        ensures
            r.deep_view() == self@,
    {
        &self.params
    }
}

} // verus!
