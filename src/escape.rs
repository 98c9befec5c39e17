use vstd::prelude::*;

verus! {

/// The iteration count of one escape-time evaluation, bounded by its budget:
/// the count never reaches the budget, so it always indexes a palette whose
/// length is that budget.
pub struct EscapeCounter {
    iter: u32,
    max_iterations: u32,
}

impl EscapeCounter {
    /// Iterations completed so far.
    pub closed spec fn iterations(self) -> nat {
        self.iter as nat
    }

    /// The budget the counter was made with.
    pub closed spec fn budget(self) -> nat {
        self.max_iterations as nat
    }

    #[verifier::type_invariant]
    spec fn inv(self) -> bool {
        self.iter < self.max_iterations
    }

    /// A counter at zero with budget `max_iterations`.
    pub fn new(max_iterations: u32) -> (c: Self)
        requires
            max_iterations >= 1,
        ensures
            c.iterations() == 0,
            c.budget() == max_iterations,
    {
        EscapeCounter { iter: 0, max_iterations }
    }

    /// Decides whether the iteration goes on: it does while the orbit is
    /// still within the escape radius and fewer than `budget - 1` iterations
    /// are done, and each step that goes on is counted.
    pub fn advance(&mut self, within_radius: bool) -> (go: bool)
        ensures
            go == (within_radius && old(self).iterations() + 1 < old(self).budget()),
            final(self).iterations() == if go {
                old(self).iterations() + 1
            } else {
                old(self).iterations()
            },
            final(self).budget() == old(self).budget(),
    {
        proof {
            use_type_invariant(&*self);
        }
        if within_radius && self.iter < self.max_iterations - 1 {
            self.iter = self.iter + 1;
            true
        } else {
            false
        }
    }

    /// The count reached, always below the budget.
    pub fn count(&self) -> (r: u32)
        ensures
            r == self.iterations(),
            r < self.budget(),
    {
        proof {
            use_type_invariant(self);
        }
        self.iter
    }

    /// The budget.
    pub fn max_iterations(&self) -> (r: u32)
        ensures
            r == self.budget(),
    {
        self.max_iterations
    }
}

} // verus!
