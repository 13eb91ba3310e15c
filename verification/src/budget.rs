//! The length budget for the short description.

use vstd::prelude::*;

verus! {

use crate::byte_len;

/// The budget for the short description: a 50-character header convention,
/// less the type label plus two punctuation characters, and, when a
/// non-default scope was chosen, less the scope label plus two more.
pub open spec fn spec_budget(t: Seq<char>, s: Seq<char>, scope_index: int) -> int {
    if scope_index != 0 {
        50 - (byte_len(t) + 2) - (byte_len(s) + 2)
    } else {
        50 - (byte_len(t) + 2)
    }
}

/// Whether the budget for this choice of labels is non-negative, so that it
/// can be computed in machine arithmetic. Labels long enough to break this
/// would overflow the subtraction, as they would in any direct computation.
pub open spec fn budget_fits(t: Seq<char>, s: Seq<char>, scope_index: int) -> bool {
    spec_budget(t, s, scope_index) >= 0
}

/// Computes the description budget from the chosen type and scope labels.
pub fn compute_budget(t: &str, s: &str, scope_index: usize) -> (r: usize)
    requires
        budget_fits(t@, s@, scope_index as int),
    ensures
        r == spec_budget(t@, s@, scope_index as int),
{
    let type_len = t.len() + 2;
    if scope_index != 0 {
        let scope_len = s.len() + 2;
        50 - type_len - scope_len
    } else {
        50 - type_len
    }
}

} // verus!
