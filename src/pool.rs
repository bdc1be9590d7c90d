use vstd::prelude::*;

use crate::game::{match_outcome, play, Score};
use crate::player::PlayerFactory;
use crate::random::gen_between;
use crate::weights::Weights;

verus! {

/// The strategies of a standard pool, in order.
pub open spec fn catalog() -> Seq<PlayerFactory> {
    seq![
        PlayerFactory::Defector,
        PlayerFactory::Collaborator,
        PlayerFactory::Random(50),
        PlayerFactory::Random(90),
        PlayerFactory::Random(10),
        PlayerFactory::RandomFixed(50),
        PlayerFactory::RandomFixed(90),
        PlayerFactory::RandomFixed(10),
        PlayerFactory::TitForTat,
        PlayerFactory::TitFotTatS,
        PlayerFactory::Mean,
        PlayerFactory::Pavlov,
        PlayerFactory::Grim,
    ]
}

/// A rating moved by a signed amount, held within the bounds of `usize`.
pub open spec fn saturate(x: int) -> usize {
    if x < 0 {
        0
    } else if x > usize::MAX {
        usize::MAX
    } else {
        x as usize
    }
}

/// The ratings after `correction` is added to entry `i` and taken from entry `j`.
pub open spec fn corrected(
    players: Seq<(PlayerFactory, usize)>,
    i: int,
    j: int,
    correction: int,
) -> Seq<(PlayerFactory, usize)> {
    players.update(i, (players[i].0, saturate(players[i].1 + correction))).update(
        j,
        (players[j].0, saturate(players[j].1 - correction)),
    )
}

/// `rating` moved by `delta`, held within the bounds of `usize`.
fn shifted(rating: usize, delta: i128) -> (r: usize)
    requires
        -0x1_0000_0000_0000_0000 <= delta <= 0x1_0000_0000_0000_0000,
    ensures
        r == saturate(rating + delta),
{
    let x: i128 = rating as i128 + delta;
    if x < 0 {
        0
    } else if x > usize::MAX as i128 {
        usize::MAX
    } else {
        x as usize
    }
}

/// Why a pool cannot be set up.
#[derive(Debug, Clone, Copy, PartialEq, Eq, Hash)]
pub enum PoolError {
    /// Defecting against a collaborator pays as much as being defected on, so
    /// no score can be normalised.
    DegenerateWeights,
    /// A match must last at least one turn.
    NoTurns,
    /// The shortest match is longer than the longest.
    EmptyTurnRange,
    /// The points of the longest match would not fit in an `i128`.
    MatchTooLong,
}

/// The first setup error of weights and a turn range, if any.
pub open spec fn config_error(w: Weights, min_turns: usize, max_turns: usize) -> Option<
    PoolError,
> {
    if w.spread() == 0 {
        Some(PoolError::DegenerateWeights)
    } else if min_turns == 0 {
        Some(PoolError::NoTurns)
    } else if min_turns > max_turns {
        Some(PoolError::EmptyTurnRange)
    } else if w.spread() * max_turns > i128::MAX {
        Some(PoolError::MatchTooLong)
    } else {
        None
    }
}

/// The integer settings of a pool.
#[derive(Debug, Clone, Copy, PartialEq, Eq, Hash)]
pub struct EloPoolConfig {
    pub weights: Weights,
    pub starting_pts: usize,
    pub min_turns: usize,
    pub max_turns: usize,
}

impl Default for EloPoolConfig {
    fn default() -> (r: EloPoolConfig)
        ensures
            r.weights.defect_defect == 2,
            r.weights.defect_collab == (3usize, 0usize),
            r.weights.collab_collab == 1,
            r.starting_pts == 700,
            r.min_turns == 100,
            r.max_turns == 200,
    {
        EloPoolConfig {
            weights: Weights::default(),
            starting_pts: 700,
            min_turns: 100,
            max_turns: 200,
        }
    }
}

/// One match of the pool: who played, for how long, how it went, and the
/// rating correction that followed.
#[derive(Debug, Clone, Copy, PartialEq, Eq, Hash)]
pub struct Game {
    pub first: usize,
    pub second: usize,
    pub turns: usize,
    pub score: Score,
    pub correction: isize,
}

/// Every strategy of the catalog with its rating.
pub struct EloPool {
    players: Vec<(PlayerFactory, usize)>,
    weights: Weights,
    min_turns: usize,
    max_turns: usize,
}

impl View for EloPool {
    type V = Seq<(PlayerFactory, usize)>;

    closed spec fn view(&self) -> Seq<(PlayerFactory, usize)> {
        self.players@
    }
}

impl EloPool {
    pub closed spec fn weights(self) -> Weights {
        self.weights
    }

    pub closed spec fn min_turns(self) -> usize {
        self.min_turns
    }

    pub closed spec fn max_turns(self) -> usize {
        self.max_turns
    }

    /// The settings pass the setup checks and every strategy is well formed.
    pub closed spec fn wf(self) -> bool {
        &&& config_error(self.weights, self.min_turns, self.max_turns) is None
        &&& forall|i: int| 0 <= i < self.players@.len() ==> (#[trigger] self.players@[i]).0.wf()
    }

    /// The strategies of a standard pool.
    pub fn all() -> (r: Vec<PlayerFactory>)
        ensures
            r@ == catalog(),
    {
        let mut r: Vec<PlayerFactory> = Vec::new();
        r.push(PlayerFactory::Defector);
        r.push(PlayerFactory::Collaborator);
        r.push(PlayerFactory::Random(50));
        r.push(PlayerFactory::Random(90));
        r.push(PlayerFactory::Random(10));
        r.push(PlayerFactory::RandomFixed(50));
        r.push(PlayerFactory::RandomFixed(90));
        r.push(PlayerFactory::RandomFixed(10));
        r.push(PlayerFactory::TitForTat);
        r.push(PlayerFactory::TitFotTatS);
        r.push(PlayerFactory::Mean);
        r.push(PlayerFactory::Pavlov);
        r.push(PlayerFactory::Grim);
        assert(r@ =~= catalog());
        r
    }

    /// A pool of the whole catalog, every rating at `starting_pts`; refused
    /// with the first setup error of the weights and the turn range.
    pub fn new(weights: Weights, min_turns: usize, max_turns: usize, starting_pts: usize) -> (r:
        Result<EloPool, PoolError>)
        ensures
            r is Err <==> config_error(weights, min_turns, max_turns) is Some,
            r matches Err(e) ==> config_error(weights, min_turns, max_turns) == Some(e),
            r matches Ok(p) ==> {
                &&& p.wf()
                &&& p.weights() == weights
                &&& p.min_turns() == min_turns
                &&& p.max_turns() == max_turns
                &&& p@.len() == catalog().len()
                &&& forall|i: int| 0 <= i < p@.len() ==> #[trigger] p@[i] == (catalog()[i], starting_pts)
            },
    {
        let max_diff = weights.max_diff();
        if max_diff == 0 {
            return Err(PoolError::DegenerateWeights);
        }
        if min_turns == 0 {
            return Err(PoolError::NoTurns);
        }
        if min_turns > max_turns {
            return Err(PoolError::EmptyTurnRange);
        }
        let longest = (max_diff as u128).checked_mul(max_turns as u128);
        match longest {
            Some(n) => {
                if n > i128::MAX as u128 {
                    return Err(PoolError::MatchTooLong);
                }
            },
            None => {
                return Err(PoolError::MatchTooLong);
            },
        }
        let kinds = EloPool::all();
        let mut players: Vec<(PlayerFactory, usize)> = Vec::new();
        let mut i: usize = 0;
        while i < kinds.len()
            invariant
                kinds@ == catalog(),
                i <= kinds@.len(),
                players@.len() == i,
                forall|k: int| 0 <= k < i ==> #[trigger] players@[k] == (catalog()[k], starting_pts),
            decreases kinds@.len() - i,
        {
            players.push((kinds[i], starting_pts));
            i = i + 1;
        }
        let pool = EloPool { players, weights, min_turns, max_turns };
        assert forall|k: int| 0 <= k < pool.players@.len() implies (
        #[trigger] pool.players@[k]).0.wf() by {
            assert(pool.players@[k] == (catalog()[k], starting_pts));
        }
        Ok(pool)
    }

    /// A pool from its integer settings.
    pub fn from_config(config: EloPoolConfig) -> (r: Result<EloPool, PoolError>)
        ensures
            r is Err <==> config_error(config.weights, config.min_turns, config.max_turns) is Some,
            r matches Err(e) ==> config_error(config.weights, config.min_turns, config.max_turns)
                == Some(e),
            r matches Ok(p) ==> {
                &&& p.wf()
                &&& p.weights() == config.weights
                &&& p.min_turns() == config.min_turns
                &&& p.max_turns() == config.max_turns
                &&& p@.len() == catalog().len()
                &&& forall|i: int| 0 <= i < p@.len() ==> #[trigger] p@[i] == (catalog()[i], config.starting_pts)
            },
    {
        EloPool::new(config.weights, config.min_turns, config.max_turns, config.starting_pts)
    }

    /// Adds `correction` to the rating of entry `i` and takes it from entry
    /// `j`, each held within the bounds of `usize`.
    pub fn adjust(&mut self, i: usize, j: usize, correction: isize)
        requires
            old(self).wf(),
            i < old(self)@.len(),
            j < old(self)@.len(),
            i != j,
        ensures
            final(self).wf(),
            final(self)@ == corrected(old(self)@, i as int, j as int, correction as int),
            final(self).weights() == old(self).weights(),
            final(self).min_turns() == old(self).min_turns(),
            final(self).max_turns() == old(self).max_turns(),
    {
        let (ki, ri) = self.players[i];
        let (kj, rj) = self.players[j];
        let up = shifted(ri, correction as i128);
        let down = shifted(rj, -(correction as i128));
        let ghost before = self.players@;
        self.players.set(i, (ki, up));
        self.players.set(j, (kj, down));
        assert(self.players@ =~= corrected(before, i as int, j as int, correction as int));
        assert forall|k: int| 0 <= k < self.players@.len() implies (
        #[trigger] self.players@[k]).0.wf() by {
            assert(self.players@[k].0 == before[k].0);
        }
    }

    /// Plays one match between two distinct entries drawn at random, over a
    /// number of turns drawn from the configured range, and moves their
    /// ratings by the correction that `rate` gives for the match's score and
    /// the gap between the first entry's rating and the second's. Does nothing
    /// on a pool of fewer than two entries.
    pub fn play<F: Fn(Score, i128) -> isize>(
        &mut self,
        rng: &mut rand::rngs::SmallRng,
        rate: F,
    ) -> (r: Option<Game>)
        requires
            old(self).wf(),
            forall|s: Score, d: i128| rate.requires((s, d)),
        ensures
            final(self).wf(),
            final(self).weights() == old(self).weights(),
            final(self).min_turns() == old(self).min_turns(),
            final(self).max_turns() == old(self).max_turns(),
            old(self)@.len() < 2 ==> r is None && final(self)@ == old(self)@,
            old(self)@.len() >= 2 ==> (r matches Some(g) && {
                &&& g.first < old(self)@.len()
                &&& g.second < old(self)@.len()
                &&& g.first != g.second
                &&& old(self).min_turns() <= g.turns <= old(self).max_turns()
                &&& match_outcome(
                    old(self)@[g.first as int].0,
                    old(self)@[g.second as int].0,
                    old(self).weights(),
                    g.turns as nat,
                    g.score,
                )
                &&& rate.ensures(
                    (
                        g.score,
                        (old(self)@[g.first as int].1 - old(self)@[g.second as int].1) as i128,
                    ),
                    g.correction,
                )
                &&& final(self)@ == corrected(
                    old(self)@,
                    g.first as int,
                    g.second as int,
                    g.correction as int,
                )
            }),
    {
        let n = self.players.len();
        if n < 2 {
            return None;
        }
        let first = gen_between(rng, 0, n - 1);
        let mut second = gen_between(rng, 0, n - 2);
        if second >= first {
            second = second + 1;
        }
        let turns = gen_between(rng, self.min_turns, self.max_turns);
        let (k1, r1) = self.players[first];
        let (k2, r2) = self.players[second];
        proof {
            let w = self.weights;
            assert(w.spread() * turns <= w.spread() * self.max_turns) by (nonlinear_arith)
                requires
                    turns <= self.max_turns,
                    w.spread() >= 0,
            ;
            assert(self.players@[first as int].0.wf());
            assert(self.players@[second as int].0.wf());
        }
        let score = play(&k1, &k2, &self.weights, turns, rng);
        let correction = rate(score, r1 as i128 - r2 as i128);
        self.adjust(first, second, correction);
        Some(Game { first, second, turns, score, correction })
    }

    /// The entries with their ratings.
    pub fn ratings(&self) -> (r: &[(PlayerFactory, usize)])
        ensures
            r@ == self@,
    {
        self.players.as_slice()
    }
}

/// A correction moves no rating out of bounds, then the two ratings keep
/// their sum, and every other entry keeps its rating.
pub proof fn lemma_correction_zero_sum(
    players: Seq<(PlayerFactory, usize)>,
    i: int,
    j: int,
    correction: int,
)
    requires
        0 <= i < players.len(),
        0 <= j < players.len(),
        i != j,
        0 <= players[i].1 + correction <= usize::MAX,
        0 <= players[j].1 - correction <= usize::MAX,
    ensures
        corrected(players, i, j, correction)[i].1 + corrected(players, i, j, correction)[j].1
            == players[i].1 + players[j].1,
        corrected(players, i, j, correction).len() == players.len(),
        forall|k: int|
            0 <= k < players.len() && k != i && k != j ==> #[trigger] corrected(
                players,
                i,
                j,
                correction,
            )[k] == players[k],
{
}

/// Whatever the correction, every rating stays within the bounds of `usize`,
/// and a rating that a correction would push past a bound stops at it.
pub proof fn lemma_correction_saturates(
    players: Seq<(PlayerFactory, usize)>,
    i: int,
    j: int,
    correction: int,
)
    requires
        0 <= i < players.len(),
        0 <= j < players.len(),
        i != j,
    ensures
        players[i].1 + correction < 0 ==> corrected(players, i, j, correction)[i].1 == 0,
        players[i].1 + correction > usize::MAX ==> corrected(players, i, j, correction)[i].1
            == usize::MAX,
        players[j].1 - correction < 0 ==> corrected(players, i, j, correction)[j].1 == 0,
        players[j].1 - correction > usize::MAX ==> corrected(players, i, j, correction)[j].1
            == usize::MAX,
{
}

} // verus!
