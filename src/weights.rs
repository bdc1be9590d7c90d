use vstd::prelude::*;

verus! {

/// One move of a turn.
#[derive(Debug, Clone, Copy, PartialEq, Eq, Hash, Structural)]
pub enum Choice {
    Defect,
    Collab,
}

/// `true` reads as collaborating, `false` as defecting.
pub open spec fn choice_of(value: bool) -> Choice {
    if value {
        Choice::Collab
    } else {
        Choice::Defect
    }
}

impl From<bool> for Choice {
    fn from(value: bool) -> (r: Choice)
        ensures
            r == choice_of(value),
    {
        if value {
            Choice::Collab
        } else {
            Choice::Defect
        }
    }
}

impl vstd::std_specs::convert::FromSpecImpl<bool> for Choice {
    open spec fn obeys_from_spec() -> bool {
        true
    }

    open spec fn from_spec(v: bool) -> Choice {
        choice_of(v)
    }
}

/// Payoffs of a turn: both defect, one defects (defector, collaborator), both
/// collaborate.
#[derive(Debug, Clone, Copy, PartialEq, Eq, Hash)]
pub struct Weights {
    pub defect_defect: usize,
    pub defect_collab: (usize, usize),
    pub collab_collab: usize,
}

impl Weights {
    /// The payoffs of the two sides when they choose `ch1` and `ch2`.
    pub open spec fn payoff(self, ch1: Choice, ch2: Choice) -> (usize, usize) {
        match (ch1, ch2) {
            (Choice::Defect, Choice::Defect) => (self.defect_defect, self.defect_defect),
            (Choice::Defect, Choice::Collab) => (self.defect_collab.0, self.defect_collab.1),
            (Choice::Collab, Choice::Defect) => (self.defect_collab.1, self.defect_collab.0),
            (Choice::Collab, Choice::Collab) => (self.collab_collab, self.collab_collab),
        }
    }

    /// The largest gap between the two payoffs of one turn.
    pub open spec fn spread(self) -> int {
        if self.defect_collab.0 >= self.defect_collab.1 {
            self.defect_collab.0 - self.defect_collab.1
        } else {
            self.defect_collab.1 - self.defect_collab.0
        }
    }

    /// The first side's payoff less the second side's, for one turn.
    pub open spec fn gain(self, ch1: Choice, ch2: Choice) -> int {
        self.payoff(ch1, ch2).0 - self.payoff(ch1, ch2).1
    }

    pub fn outcome(&self, ch1: Choice, ch2: Choice) -> (r: (usize, usize))
        ensures
            r == self.payoff(ch1, ch2),
    {
        match (ch1, ch2) {
            (Choice::Defect, Choice::Defect) => (self.defect_defect, self.defect_defect),
            (Choice::Defect, Choice::Collab) => (self.defect_collab.0, self.defect_collab.1),
            (Choice::Collab, Choice::Defect) => (self.defect_collab.1, self.defect_collab.0),
            (Choice::Collab, Choice::Collab) => (self.collab_collab, self.collab_collab),
        }
    }

    pub fn max_diff(&self) -> (r: usize)
        ensures
            r as int == self.spread(),
    {
        if self.defect_collab.0 >= self.defect_collab.1 {
            self.defect_collab.0 - self.defect_collab.1
        } else {
            self.defect_collab.1 - self.defect_collab.0
        }
    }
}

impl Default for Weights {
    fn default() -> (r: Weights)
        ensures
            r.defect_defect == 2,
            r.defect_collab == (3usize, 0usize),
            r.collab_collab == 1,
    {
        Weights { defect_defect: 2, defect_collab: (3, 0), collab_collab: 1 }
    }
}

/// Swapping the two choices swaps the two payoffs.
pub proof fn lemma_outcome_mirror(w: Weights, ch1: Choice, ch2: Choice)
    ensures
        w.payoff(ch1, ch2) == (w.payoff(ch2, ch1).1, w.payoff(ch2, ch1).0),
        w.gain(ch1, ch2) == -w.gain(ch2, ch1),
{
}

/// A turn's gain is nothing when both choose alike, and the full spread, one
/// way or the other, when they differ.
pub proof fn lemma_gain_bounded(w: Weights, ch1: Choice, ch2: Choice)
    ensures
        -w.spread() <= w.gain(ch1, ch2) <= w.spread(),
        ch1 == ch2 ==> w.gain(ch1, ch2) == 0,
{
}

/// When defecting against a collaborator pays as much as being defected on,
/// no turn can be won.
pub proof fn lemma_even_pair_no_spread(w: Weights)
    requires
        w.defect_collab.0 == w.defect_collab.1,
    ensures
        w.spread() == 0,
        forall|a: Choice, b: Choice| w.gain(a, b) == 0,
{
}

} // verus!
