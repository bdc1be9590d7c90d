use vstd::prelude::*;

use crate::player::{Player, PlayerFactory};
use crate::weights::{Choice, Weights};

verus! {

/// The states the two players end in after playing the histories `ha` and
/// `hb` turn by turn, or `None` when some move breaks a player's rule.
pub open spec fn run(a: Player, b: Player, ha: Seq<Choice>, hb: Seq<Choice>) -> Option<
    (Player, Player),
>
    decreases ha.len(),
{
    if ha.len() != hb.len() {
        None
    } else if ha.len() == 0 {
        Some((a, b))
    } else {
        let pa = ha.drop_last();
        let pb = hb.drop_last();
        match run(a, b, pa, pb) {
            Some((sa, sb)) => if sa.allows(pa, pb, ha.last()) && sb.allows(pb, pa, hb.last()) {
                Some((sa.stepped(pb), sb.stepped(pa)))
            } else {
                None
            },
            None => None,
        }
    }
}

/// The first side's total payoff less the second side's over two histories.
pub open spec fn points(w: Weights, ha: Seq<Choice>, hb: Seq<Choice>) -> int
    decreases ha.len(),
{
    if ha.len() == 0 || hb.len() == 0 {
        0
    } else {
        points(w, ha.drop_last(), hb.drop_last()) + w.gain(ha.last(), hb.last())
    }
}

/// The result of a match, from the first side's view: `points` out of at most
/// `max_points`, the score being their ratio, between -1 and 1.
#[derive(Debug, Clone, Copy, PartialEq, Eq, Hash)]
pub struct Score {
    pub points: i128,
    pub max_points: u128,
}

/// `s` is a result that a match of `turns` turns between `f1` and `f2` can
/// have: some players they start as, and some run of moves that their rules
/// allow, give it.
pub open spec fn match_outcome(
    f1: PlayerFactory,
    f2: PlayerFactory,
    w: Weights,
    turns: nat,
    s: Score,
) -> bool {
    exists|a: Player, b: Player, ha: Seq<Choice>, hb: Seq<Choice>|
        #![trigger run(a, b, ha, hb)]
        {
            &&& f1.spawns(a)
            &&& f2.spawns(b)
            &&& ha.len() == turns
            &&& run(a, b, ha, hb) is Some
            &&& s.points == points(w, ha, hb)
            &&& s.max_points == w.spread() * turns
        }
}

/// The points of a match stay within the spread times the number of turns.
proof fn lemma_points_bounded(w: Weights, ha: Seq<Choice>, hb: Seq<Choice>)
    ensures
        -(w.spread() * ha.len()) <= points(w, ha, hb) <= w.spread() * ha.len(),
    decreases ha.len(),
{
    if ha.len() > 0 && hb.len() > 0 {
        lemma_points_bounded(w, ha.drop_last(), hb.drop_last());
        crate::weights::lemma_gain_bounded(w, ha.last(), hb.last());
        assert(w.spread() * ha.len() == w.spread() * (ha.len() - 1) + w.spread()) by (
        nonlinear_arith);
    } else {
        assert(w.spread() * ha.len() >= 0) by (nonlinear_arith)
            requires
                w.spread() >= 0,
        ;
    }
}

/// Plays `turns` turns between fresh players of the two strategies.
pub fn play(
    p1: &PlayerFactory,
    p2: &PlayerFactory,
    weights: &Weights,
    turns: usize,
    rng: &mut rand::rngs::SmallRng,
) -> (r: Score)
    requires
        p1.wf(),
        p2.wf(),
        weights.spread() * turns <= i128::MAX,
    ensures
        match_outcome(*p1, *p2, *weights, turns as nat, r),
{
    let mut points_sum: i128 = 0;
    let mut ha: Vec<Choice> = Vec::new();
    let mut hb: Vec<Choice> = Vec::new();
    let mut a = p1.gen(weights, rng);
    let mut b = p2.gen(weights, rng);
    let ghost a0 = a;
    let ghost b0 = b;
    let mut t: usize = 0;
    while t < turns
        invariant
            t <= turns,
            ha@.len() == t,
            hb@.len() == t,
            a.wf(),
            b.wf(),
            p1.spawns(a0),
            p2.spawns(b0),
            run(a0, b0, ha@, hb@) == Some((a, b)),
            points_sum == points(*weights, ha@, hb@),
            weights.spread() * turns <= i128::MAX,
        decreases turns - t,
    {
        let ghost pa = ha@;
        let ghost pb = hb@;
        let m1 = a.play(ha.as_slice(), hb.as_slice(), rng);
        let m2 = b.play(hb.as_slice(), ha.as_slice(), rng);
        ha.push(m1);
        hb.push(m2);
        let (o1, o2) = weights.outcome(m1, m2);
        assert(ha@.drop_last() =~= pa);
        assert(hb@.drop_last() =~= pb);
        proof {
            lemma_points_bounded(*weights, ha@, hb@);
            assert(weights.spread() * ha@.len() <= weights.spread() * turns) by (nonlinear_arith)
                requires
                    ha@.len() <= turns,
                    weights.spread() >= 0,
            ;
            assert(points(*weights, ha@, hb@) == points_sum + weights.gain(m1, m2));
        }
        points_sum = points_sum + (o1 as i128 - o2 as i128);
        t = t + 1;
    }
    let max_diff = weights.max_diff();
    proof {
        assert(run(a0, b0, ha@, hb@) is Some);
    }
    assert(max_diff as int * turns as int <= u128::MAX) by (nonlinear_arith)
        requires
            max_diff as int * turns as int <= i128::MAX,
    ;
    Score { points: points_sum, max_points: max_diff as u128 * turns as u128 }
}

/// A defector against a collaborator wins every turn by the same gain.
proof fn lemma_run_defector_collaborator(w: Weights, ha: Seq<Choice>, hb: Seq<Choice>)
    requires
        run(Player::Defector, Player::Collaborator, ha, hb) is Some,
    ensures
        run(Player::Defector, Player::Collaborator, ha, hb) == Some(
            (Player::Defector, Player::Collaborator),
        ),
        points(w, ha, hb) == w.gain(Choice::Defect, Choice::Collab) * ha.len(),
    decreases ha.len(),
{
    if ha.len() > 0 {
        lemma_run_defector_collaborator(w, ha.drop_last(), hb.drop_last());
        let g = w.gain(Choice::Defect, Choice::Collab);
        assert(g * ha.len() == g * (ha.len() - 1) + g) by (nonlinear_arith);
    }
}

/// Two collaborators never gain on each other.
proof fn lemma_run_collaborators(w: Weights, ha: Seq<Choice>, hb: Seq<Choice>)
    requires
        run(Player::Collaborator, Player::Collaborator, ha, hb) is Some,
    ensures
        run(Player::Collaborator, Player::Collaborator, ha, hb) == Some(
            (Player::Collaborator, Player::Collaborator),
        ),
        points(w, ha, hb) == 0,
    decreases ha.len(),
{
    if ha.len() > 0 {
        lemma_run_collaborators(w, ha.drop_last(), hb.drop_last());
    }
}

/// Two tit-for-tat players collaborate on every turn.
proof fn lemma_run_tit_for_tat(w: Weights, ha: Seq<Choice>, hb: Seq<Choice>)
    requires
        run(Player::TitForTat, Player::TitForTat, ha, hb) is Some,
    ensures
        run(Player::TitForTat, Player::TitForTat, ha, hb) == Some(
            (Player::TitForTat, Player::TitForTat),
        ),
        forall|i: int| 0 <= i < ha.len() ==> ha[i] == Choice::Collab && hb[i] == Choice::Collab,
        points(w, ha, hb) == 0,
    decreases ha.len(),
{
    if ha.len() > 0 {
        let pa = ha.drop_last();
        let pb = hb.drop_last();
        lemma_run_tit_for_tat(w, pa, pb);
        assert forall|i: int| 0 <= i < ha.len() implies ha[i] == Choice::Collab && hb[i]
            == Choice::Collab by {
            if i < ha.len() - 1 {
                assert(ha[i] == pa[i] && hb[i] == pb[i]);
            }
        }
    }
}

/// A grim player against a defector collaborates on the first turn only, and
/// is triggered from the second turn on.
pub proof fn lemma_run_grim_defector(w: Weights, ha: Seq<Choice>, hb: Seq<Choice>)
    requires
        run(Player::Grim(false), Player::Defector, ha, hb) is Some,
    ensures
        run(Player::Grim(false), Player::Defector, ha, hb) == Some(
            (Player::Grim(ha.len() >= 2), Player::Defector),
        ),
        ha.len() > 0 ==> ha[0] == Choice::Collab,
        forall|i: int| 1 <= i < ha.len() ==> ha[i] == Choice::Defect,
        forall|i: int| 0 <= i < hb.len() ==> hb[i] == Choice::Defect,
        points(w, ha, hb) == if ha.len() == 0 {
            0
        } else {
            w.gain(Choice::Collab, Choice::Defect)
        },
    decreases ha.len(),
{
    if ha.len() > 0 {
        let pa = ha.drop_last();
        let pb = hb.drop_last();
        lemma_run_grim_defector(w, pa, pb);
        assert forall|i: int| 0 <= i < ha.len() - 1 implies ha[i] == pa[i] && hb[i] == pb[i] by {}
    }
}

/// A defector facing a collaborator scores full marks: the points reach the
/// most a match can give, whenever defecting against a collaborator pays at
/// least as much as being defected on.
pub proof fn lemma_defector_exploits_collaborator(w: Weights, turns: nat, s: Score)
    requires
        w.defect_collab.0 >= w.defect_collab.1,
        match_outcome(PlayerFactory::Defector, PlayerFactory::Collaborator, w, turns, s),
    ensures
        s.points == s.max_points,
{
    let (a, b, ha, hb) = choose|a: Player, b: Player, ha: Seq<Choice>, hb: Seq<Choice>|
        {
            &&& PlayerFactory::Defector.spawns(a)
            &&& PlayerFactory::Collaborator.spawns(b)
            &&& ha.len() == turns
            &&& #[trigger] run(a, b, ha, hb) is Some
            &&& s.points == points(w, ha, hb)
            &&& s.max_points == w.spread() * turns
        };
    lemma_run_defector_collaborator(w, ha, hb);
}

/// Two collaborators score nothing, whatever the weights and the length.
pub proof fn lemma_collaborators_even(w: Weights, turns: nat, s: Score)
    requires
        match_outcome(PlayerFactory::Collaborator, PlayerFactory::Collaborator, w, turns, s),
    ensures
        s.points == 0,
{
    let (a, b, ha, hb) = choose|a: Player, b: Player, ha: Seq<Choice>, hb: Seq<Choice>|
        {
            &&& PlayerFactory::Collaborator.spawns(a)
            &&& PlayerFactory::Collaborator.spawns(b)
            &&& ha.len() == turns
            &&& #[trigger] run(a, b, ha, hb) is Some
            &&& s.points == points(w, ha, hb)
            &&& s.max_points == w.spread() * turns
        };
    lemma_run_collaborators(w, ha, hb);
}

/// Two tit-for-tat players collaborate throughout and score nothing.
pub proof fn lemma_tit_for_tat_even(w: Weights, turns: nat, s: Score)
    requires
        match_outcome(PlayerFactory::TitForTat, PlayerFactory::TitForTat, w, turns, s),
    ensures
        s.points == 0,
{
    let (a, b, ha, hb) = choose|a: Player, b: Player, ha: Seq<Choice>, hb: Seq<Choice>|
        {
            &&& PlayerFactory::TitForTat.spawns(a)
            &&& PlayerFactory::TitForTat.spawns(b)
            &&& ha.len() == turns
            &&& #[trigger] run(a, b, ha, hb) is Some
            &&& s.points == points(w, ha, hb)
            &&& s.max_points == w.spread() * turns
        };
    lemma_run_tit_for_tat(w, ha, hb);
}

/// A grim player facing a defector loses the first turn and no other: its
/// points are one turn's loss, so its score is minus one over the number of
/// turns, below zero and tending to it.
pub proof fn lemma_grim_loses_one_turn(w: Weights, turns: nat, s: Score)
    requires
        turns >= 1,
        w.defect_collab.0 >= w.defect_collab.1,
        match_outcome(PlayerFactory::Grim, PlayerFactory::Defector, w, turns, s),
    ensures
        s.points == -w.spread(),
        s.max_points == w.spread() * turns,
{
    let (a, b, ha, hb) = choose|a: Player, b: Player, ha: Seq<Choice>, hb: Seq<Choice>|
        {
            &&& PlayerFactory::Grim.spawns(a)
            &&& PlayerFactory::Defector.spawns(b)
            &&& ha.len() == turns
            &&& #[trigger] run(a, b, ha, hb) is Some
            &&& s.points == points(w, ha, hb)
            &&& s.max_points == w.spread() * turns
        };
    lemma_run_grim_defector(w, ha, hb);
}

} // verus!
