use vstd::prelude::*;
use vstd::string::StringExecFns;

use crate::random::gen_ratio;
use crate::weights::{Choice, Weights};

verus! {

/// The number of collaborations in a history.
pub open spec fn collabs(s: Seq<Choice>) -> nat
    decreases s.len(),
{
    if s.len() == 0 {
        0
    } else {
        collabs(s.drop_last()) + if s.last() == Choice::Collab {
            1nat
        } else {
            0nat
        }
    }
}

/// The last moves of two histories are alike: both absent, or both present
/// and equal.
pub open spec fn same_last(own: Seq<Choice>, opp: Seq<Choice>) -> bool {
    (own.len() == 0 && opp.len() == 0) || (own.len() > 0 && opp.len() > 0 && own.last()
        == opp.last())
}

/// The character of a decimal digit.
pub open spec fn digit_char(d: nat) -> char {
    if d == 0 { '0' } else if d == 1 { '1' } else if d == 2 { '2' } else if d == 3 { '3' }
    else if d == 4 { '4' } else if d == 5 { '5' } else if d == 6 { '6' } else if d == 7 { '7' }
    else if d == 8 { '8' } else { '9' }
}

/// The decimal digits of `n`, most significant first, without leading zeros.
pub open spec fn decimal(n: nat) -> Seq<char>
    decreases n,
{
    if n < 10 {
        seq![digit_char(n)]
    } else {
        decimal(n / 10) + seq![digit_char(n % 10)]
    }
}

/// The text of one decimal digit.
fn digit_text(d: u32) -> (r: &'static str)
    requires
        d < 10,
    ensures
        r@ == seq![digit_char(d as nat)],
{
    proof {
        reveal_strlit("0");
        reveal_strlit("1");
        reveal_strlit("2");
        reveal_strlit("3");
        reveal_strlit("4");
        reveal_strlit("5");
        reveal_strlit("6");
        reveal_strlit("7");
        reveal_strlit("8");
        reveal_strlit("9");
    }
    if d == 0 { "0" } else if d == 1 { "1" } else if d == 2 { "2" } else if d == 3 { "3" }
    else if d == 4 { "4" } else if d == 5 { "5" } else if d == 6 { "6" } else if d == 7 { "7" }
    else if d == 8 { "8" } else { "9" }
}

/// `n` written in decimal.
pub fn decimal_text(n: u32) -> (r: String)
    ensures
        r@ == decimal(n as nat),
    decreases n,
{
    if n < 10 {
        String::from_str(digit_text(n))
    } else {
        decimal_text(n / 10).concat(digit_text(n % 10))
    }
}

/// A strategy, as it stands in the catalog. Probabilities are percentages.
#[derive(Debug, Clone, Copy, PartialEq, Eq, Hash)]
pub enum PlayerFactory {
    Defector,
    Collaborator,
    Random(u32),
    RandomFixed(u32),
    TitForTat,
    TitFotTatS,
    Mean,
    Pavlov,
    Grim,
}

/// A strategy playing one match, with its state for that match.
#[derive(Debug, Clone, Copy, PartialEq, Eq, Hash)]
pub enum Player {
    Defector,
    Collaborator,
    Random(u32),
    TitForTat,
    TitForTat2,
    Mean,
    Pavlov,
    Grim(bool),
}

impl PlayerFactory {
    /// Every percentage is at most a hundred.
    pub open spec fn wf(self) -> bool {
        match self {
            PlayerFactory::Random(p) => p <= 100,
            PlayerFactory::RandomFixed(p) => p <= 100,
            _ => true,
        }
    }

    /// `p` is a player that this strategy may start a match as.
    pub open spec fn spawns(self, p: Player) -> bool {
        match self {
            PlayerFactory::Defector => p == Player::Defector,
            PlayerFactory::Collaborator => p == Player::Collaborator,
            PlayerFactory::Random(q) => p == Player::Random(q),
            PlayerFactory::RandomFixed(q) => {
                &&& (p == Player::Defector || p == Player::Collaborator)
                &&& q == 0 ==> p == Player::Defector
                &&& q == 100 ==> p == Player::Collaborator
            },
            PlayerFactory::TitForTat => p == Player::TitForTat,
            PlayerFactory::TitFotTatS => p == Player::TitForTat2,
            PlayerFactory::Mean => p == Player::Mean,
            PlayerFactory::Pavlov => p == Player::Pavlov,
            PlayerFactory::Grim => p == Player::Grim(false),
        }
    }

    /// The short name shown beside a rating.
    pub open spec fn name_text(self) -> Seq<char> {
        match self {
            PlayerFactory::Defector => "Defector"@,
            PlayerFactory::Collaborator => "Collaborator"@,
            PlayerFactory::Random(p) => "Random "@ + decimal(p as nat) + "%"@,
            PlayerFactory::TitForTat => "TitForTat"@,
            PlayerFactory::TitFotTatS => "TitFotTatS"@,
            PlayerFactory::RandomFixed(p) => "RandomFixed "@ + decimal(p as nat) + "%"@,
            PlayerFactory::Mean => "Mean    "@,
            PlayerFactory::Pavlov => "Pavlov  "@,
            PlayerFactory::Grim => "Grim    "@,
        }
    }

    /// One line on how the strategy plays.
    pub open spec fn description_text(self) -> Seq<char> {
        match self {
            PlayerFactory::Defector => "Always defect"@,
            PlayerFactory::Collaborator => "Always collaborate"@,
            PlayerFactory::Random(p) => "Collaborate "@ + decimal(p as nat) + "% of times"@,
            PlayerFactory::TitForTat => "Collaborate, then answer with the last move"@,
            PlayerFactory::TitFotTatS => "Defect, then answer with the last move"@,
            PlayerFactory::RandomFixed(p) => "Choose the move at the start (collaborate "@
                + decimal(p as nat) + "%), then stick with it"@,
            PlayerFactory::Mean => "Mean the other moves, then answer with the same distribution"@,
            PlayerFactory::Pavlov => "Cooperate if the opponent moved alike"@,
            PlayerFactory::Grim => "Cooperate until defected"@,
        }
    }

    pub fn name(&self) -> (r: String)
        ensures
            r@ == self.name_text(),
    {
        match self {
            PlayerFactory::Defector => String::from_str("Defector"),
            PlayerFactory::Collaborator => String::from_str("Collaborator"),
            PlayerFactory::Random(p) => String::from_str("Random ").concat(
                decimal_text(*p).as_str(),
            ).concat("%"),
            PlayerFactory::TitForTat => String::from_str("TitForTat"),
            PlayerFactory::TitFotTatS => String::from_str("TitFotTatS"),
            PlayerFactory::RandomFixed(p) => String::from_str("RandomFixed ").concat(
                decimal_text(*p).as_str(),
            ).concat("%"),
            PlayerFactory::Mean => String::from_str("Mean    "),
            PlayerFactory::Pavlov => String::from_str("Pavlov  "),
            PlayerFactory::Grim => String::from_str("Grim    "),
        }
    }

    pub fn description(&self) -> (r: String)
        ensures
            r@ == self.description_text(),
    {
        match self {
            PlayerFactory::Defector => String::from_str("Always defect"),
            PlayerFactory::Collaborator => String::from_str("Always collaborate"),
            PlayerFactory::Random(p) => String::from_str("Collaborate ").concat(
                decimal_text(*p).as_str(),
            ).concat("% of times"),
            PlayerFactory::TitForTat => String::from_str(
                "Collaborate, then answer with the last move",
            ),
            PlayerFactory::TitFotTatS => String::from_str("Defect, then answer with the last move"),
            PlayerFactory::RandomFixed(p) => String::from_str(
                "Choose the move at the start (collaborate ",
            ).concat(decimal_text(*p).as_str()).concat("%), then stick with it"),
            PlayerFactory::Mean => String::from_str(
                "Mean the other moves, then answer with the same distribution",
            ),
            PlayerFactory::Pavlov => String::from_str("Cooperate if the opponent moved alike"),
            PlayerFactory::Grim => String::from_str("Cooperate until defected"),
        }
    }

    /// A fresh player for one match; a fixed random strategy draws its one
    /// move here.
    pub fn gen(&self, _weights: &Weights, rng: &mut rand::rngs::SmallRng) -> (r: Player)
        requires
            self.wf(),
        ensures
            self.spawns(r),
            r.wf(),
    {
        match self {
            PlayerFactory::Defector => Player::Defector,
            PlayerFactory::Collaborator => Player::Collaborator,
            PlayerFactory::Random(p) => Player::Random(*p),
            PlayerFactory::TitForTat => Player::TitForTat,
            PlayerFactory::TitFotTatS => Player::TitForTat2,
            PlayerFactory::RandomFixed(p) => {
                if gen_ratio(rng, *p, 100) {
                    Player::Collaborator
                } else {
                    Player::Defector
                }
            },
            PlayerFactory::Mean => Player::Mean,
            PlayerFactory::Pavlov => Player::Pavlov,
            PlayerFactory::Grim => Player::Grim(false),
        }
    }
}

impl Player {
    /// Every percentage is at most a hundred.
    pub open spec fn wf(self) -> bool {
        match self {
            Player::Random(p) => p <= 100,
            _ => true,
        }
    }

    /// The state after a turn that saw the opponent's history `opp`: a grim
    /// player is triggered for good by a defection.
    pub open spec fn stepped(self, opp: Seq<Choice>) -> Player {
        match self {
            Player::Grim(t) => Player::Grim(t || (opp.len() > 0 && opp.last() == Choice::Defect)),
            _ => self,
        }
    }

    /// `c` is a move this player may make, given its own history and the
    /// opponent's. Random draws are free but for the certain cases.
    pub open spec fn allows(self, own: Seq<Choice>, opp: Seq<Choice>, c: Choice) -> bool {
        match self {
            Player::Defector => c == Choice::Defect,
            Player::Collaborator => c == Choice::Collab,
            Player::Random(p) => {
                &&& p == 0 ==> c == Choice::Defect
                &&& p == 100 ==> c == Choice::Collab
            },
            Player::TitForTat => c == if opp.len() == 0 {
                Choice::Collab
            } else {
                opp.last()
            },
            Player::TitForTat2 => c == if opp.len() == 0 {
                Choice::Defect
            } else {
                opp.last()
            },
            Player::Mean => opp.len() > 0 ==> {
                &&& collabs(opp) == 0 ==> c == Choice::Defect
                &&& collabs(opp) == opp.len() ==> c == Choice::Collab
            },
            Player::Pavlov => c == if same_last(own, opp) {
                Choice::Collab
            } else {
                Choice::Defect
            },
            Player::Grim(_) => c == if self.stepped(opp) == Player::Grim(true) {
                Choice::Defect
            } else {
                Choice::Collab
            },
        }
    }

    /// The next move, from the player's own history and the opponent's.
    pub fn play(&mut self, own: &[Choice], opp: &[Choice], rng: &mut rand::rngs::SmallRng) -> (r:
        Choice)
        requires
            old(self).wf(),
        ensures
            old(self).allows(own@, opp@, r),
            *final(self) == old(self).stepped(opp@),
            final(self).wf(),
    {
        match self {
            Player::Defector => Choice::Defect,
            Player::Collaborator => Choice::Collab,
            Player::Random(p) => Choice::from(gen_ratio(rng, *p, 100)),
            Player::TitForTat => {
                if opp.len() == 0 {
                    Choice::Collab
                } else {
                    opp[opp.len() - 1]
                }
            },
            Player::TitForTat2 => {
                if opp.len() == 0 {
                    Choice::Defect
                } else {
                    opp[opp.len() - 1]
                }
            },
            Player::Mean => Choice::from(draw_like(opp, rng)),
            Player::Pavlov => {
                let alike = if own.len() == 0 || opp.len() == 0 {
                    own.len() == 0 && opp.len() == 0
                } else {
                    own[own.len() - 1] == opp[opp.len() - 1]
                };
                Choice::from(alike)
            },
            Player::Grim(defected) => {
                if opp.len() > 0 && opp[opp.len() - 1] == Choice::Defect {
                    *defected = true;
                }
                if *defected {
                    Choice::Defect
                } else {
                    Choice::Collab
                }
            },
        }
    }
}

/// Counts the collaborations in a history.
pub fn count_collabs(s: &[Choice]) -> (r: usize)
    ensures
        r as nat == collabs(s@),
        r <= s@.len(),
{
    let mut n: usize = 0;
    let mut i: usize = 0;
    while i < s.len()
        invariant
            i <= s@.len(),
            n as nat == collabs(s@.take(i as int)),
            n <= i,
        decreases s@.len() - i,
    {
        assert(s@.take(i + 1).drop_last() =~= s@.take(i as int));
        if s[i] == Choice::Collab {
            n = n + 1;
        }
        i = i + 1;
    }
    assert(s@.take(i as int) =~= s@);
    n
}

/// Draws true with the share of collaborations in `opp`, or with even chance
/// on an empty history. A ratio too large for the draw is halved until it fits;
/// a certain outcome stays certain.
fn draw_like(opp: &[Choice], rng: &mut rand::rngs::SmallRng) -> (r: bool)
    ensures
        opp@.len() > 0 && collabs(opp@) == 0 ==> !r,
        opp@.len() > 0 && collabs(opp@) == opp@.len() ==> r,
{
    if opp.len() == 0 {
        return gen_ratio(rng, 1, 2);
    }
    let mut num: usize = count_collabs(opp);
    let mut den: usize = opp.len();
    let ghost n0 = num;
    while den > u32::MAX as usize
        invariant
            0 < den,
            num <= den,
            n0 == 0 ==> num == 0,
            n0 == opp@.len() ==> num == den,
        decreases den,
    {
        num = num / 2;
        den = den / 2;
    }
    gen_ratio(rng, num as u32, den as u32)
}

} // verus!
