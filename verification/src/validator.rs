//! Validation of the short description against the length budget, with a
//! one-slot force override: a rejected text is remembered, and submitting
//! exactly the same text again is accepted.

use vstd::prelude::*;

verus! {

use crate::byte_len;

/// Spec-level state of the validator: the fixed budget and the remembered
/// over-budget submission, if any.
pub struct ValidatorModel {
    pub budget: usize,
    pub force: Option<Seq<char>>,
}

impl ValidatorModel {
    /// Whether this state accepts the submission `c`: either `c` is within
    /// the budget, or it is exactly the remembered rejected text.
    pub open spec fn accepts(self, c: Seq<char>) -> bool {
        byte_len(c) <= self.budget || self.force == Some(c)
    }

    /// The state after ruling on the submission `c`: an accepted text
    /// leaves the state as it was; a rejected one takes over the slot.
    pub open spec fn step(self, c: Seq<char>) -> ValidatorModel {
        if self.accepts(c) {
            self
        } else {
            ValidatorModel { budget: self.budget, force: Some(c) }
        }
    }
}

/// Outcome of one submission; a rejection carries the budget and the
/// submission's actual length, to be reported to the user.
pub enum Verdict {
    Accepted,
    Rejected { budget: usize, len: usize },
}

/// The validator handed one submission at a time during the description
/// prompt. Its budget never changes; only the force slot does.
pub struct DescriptionValidator {
    budget: usize,
    force: Option<String>,
}

impl View for DescriptionValidator {
    type V = ValidatorModel;

    closed spec fn view(&self) -> ValidatorModel {
        ValidatorModel {
            budget: self.budget,
            force: match self.force {
                Option::Some(f) => Option::Some(f@),
                Option::None => Option::None,
            },
        }
    }
}

impl DescriptionValidator {
    /// A fresh validator with the given budget and an empty force slot.
    pub fn new(budget: usize) -> (v: Self)
        ensures
            v@ == (ValidatorModel { budget: budget, force: Option::None }),
    {
        DescriptionValidator { budget, force: None }
    }

    /// Rules on one submission and updates the force slot accordingly.
    pub fn check(&mut self, input: &String) -> (r: Verdict)
        ensures
            r is Accepted <==> old(self)@.accepts(input@),
            final(self)@ == old(self)@.step(input@),
            r matches Verdict::Rejected { budget, len } ==> budget == old(self)@.budget
                && len == byte_len(input@),
    {
        let input_len = input.as_str().len();
        let fits = input_len <= self.budget;
        let forced = match &self.force {
            Some(f) => f.eq(input),
            None => false,
        };
        if fits || forced {
            Verdict::Accepted
        } else {
            self.force = Some(input.clone());
            Verdict::Rejected { budget: self.budget, len: input_len }
        }
    }
}

/// A submission within the budget is accepted at once, whatever the
/// validator has remembered.
pub proof fn lemma_within_budget_accepted(m: ValidatorModel, c: Seq<char>)
    requires
        byte_len(c) <= m.budget,
    ensures
        m.accepts(c),
{
}

/// An over-budget submission is rejected at first; the very same text
/// submitted again is then accepted; a different over-budget text is
/// rejected in turn and takes over the remembered slot.
pub proof fn lemma_force_override(m: ValidatorModel, c: Seq<char>, c2: Seq<char>)
    requires
        m.force is None,
        byte_len(c) > m.budget,
        byte_len(c2) > m.budget,
        c2 != c,
    ensures
        !m.accepts(c),
        m.step(c).accepts(c),
        !m.step(c).accepts(c2),
        m.step(c).step(c2).force == Some(c2),
{
}

} // verus!
