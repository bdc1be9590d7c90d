use prisoner::player::decimal_text;
use prisoner::{play, Choice, EloPool, EloPoolConfig, Player, PlayerFactory, PoolError, Score, Weights};
use rand::rngs::SmallRng;
use rand::SeedableRng;

fn weights(dd: usize, win: usize, lose: usize, cc: usize) -> Weights {
    Weights { defect_defect: dd, defect_collab: (win, lose), collab_collab: cc }
}

fn standard_pool() -> EloPool {
    EloPool::from_config(EloPoolConfig::default()).unwrap()
}

/// The correction a caller with scale 100 and k-factor 32 applies.
fn elo_correction(score: Score, gap: i128) -> isize {
    let s = score.points as f64 / score.max_points as f64;
    let expected = (gap as f64 / 100.0).tanh();
    (32.0 * (s - expected)).round() as isize
}

#[test]
fn outcome_mirrors_when_roles_swap() {
    let w = Weights::default();
    let (a, b) = w.outcome(Choice::Defect, Choice::Collab);
    assert_eq!((a, b), (3, 0));
    assert_eq!(w.outcome(Choice::Collab, Choice::Defect), (b, a));
    assert_eq!(w.outcome(Choice::Defect, Choice::Defect), (2, 2));
    assert_eq!(w.outcome(Choice::Collab, Choice::Collab), (1, 1));
    let w = weights(4, 1, 9, 5);
    assert_eq!(w.outcome(Choice::Defect, Choice::Collab), (1, 9));
    assert_eq!(w.outcome(Choice::Collab, Choice::Defect), (9, 1));
}

#[test]
fn max_diff_of_default_weights_is_three() {
    assert_eq!(weights(2, 3, 0, 1).max_diff(), 3);
    assert_eq!(Weights::default().max_diff(), 3);
    assert_eq!(weights(0, 2, 7, 0).max_diff(), 5);
}

#[test]
fn max_diff_of_even_pair_is_zero() {
    assert_eq!(weights(2, 4, 4, 1).max_diff(), 0);
    assert_eq!(EloPool::new(weights(2, 4, 4, 1), 100, 200, 700).err(), Some(PoolError::DegenerateWeights));
}

#[test]
fn pool_setup_errors() {
    let w = Weights::default();
    assert_eq!(EloPool::new(w, 0, 200, 700).err(), Some(PoolError::NoTurns));
    assert_eq!(EloPool::new(w, 201, 200, 700).err(), Some(PoolError::EmptyTurnRange));
    assert_eq!(
        EloPool::new(weights(0, usize::MAX, 0, 0), 1, usize::MAX, 700).err(),
        Some(PoolError::MatchTooLong)
    );
    assert!(EloPool::new(w, 1, 1, 0).is_ok());
}

#[test]
fn defector_exploits_collaborator() {
    let mut rng = SmallRng::seed_from_u64(1);
    for n in [1usize, 7, 100, 250] {
        let s = play(&PlayerFactory::Defector, &PlayerFactory::Collaborator, &Weights::default(), n, &mut rng);
        assert_eq!(s.points, 3 * n as i128);
        assert_eq!(s.max_points, 3 * n as u128);
        let reversed = play(&PlayerFactory::Collaborator, &PlayerFactory::Defector, &Weights::default(), n, &mut rng);
        assert_eq!(reversed.points, -3 * n as i128);
    }
}

#[test]
fn collaborators_score_nothing() {
    let mut rng = SmallRng::seed_from_u64(2);
    for (n, w) in [(1usize, Weights::default()), (50, weights(9, 1, 8, 4)), (3, weights(0, 0, 1, 7))] {
        let s = play(&PlayerFactory::Collaborator, &PlayerFactory::Collaborator, &w, n, &mut rng);
        assert_eq!(s.points, 0);
        assert_eq!(s.max_points, w.max_diff() as u128 * n as u128);
    }
}

#[test]
fn tit_for_tat_pair_scores_nothing() {
    let mut rng = SmallRng::seed_from_u64(3);
    for n in [1usize, 2, 100] {
        let s = play(&PlayerFactory::TitForTat, &PlayerFactory::TitForTat, &Weights::default(), n, &mut rng);
        assert_eq!(s.points, 0);
    }
}

#[test]
fn grim_loses_only_the_first_turn_to_a_defector() {
    let mut rng = SmallRng::seed_from_u64(4);
    for n in [1usize, 2, 10, 1000] {
        let s = play(&PlayerFactory::Grim, &PlayerFactory::Defector, &Weights::default(), n, &mut rng);
        assert_eq!(s.points, -3);
        assert_eq!(s.max_points, 3 * n as u128);
    }
}

#[test]
fn tit_for_tat_defect_first_against_itself_never_collaborates() {
    let mut rng = SmallRng::seed_from_u64(5);
    let s = play(&PlayerFactory::TitFotTatS, &PlayerFactory::TitFotTatS, &Weights::default(), 30, &mut rng);
    assert_eq!(s.points, 0);
    let s = play(&PlayerFactory::TitForTat, &PlayerFactory::TitFotTatS, &Weights::default(), 4, &mut rng);
    // C/D, D/C, C/D, D/C
    assert_eq!(s.points, 0);
    let s = play(&PlayerFactory::TitForTat, &PlayerFactory::TitFotTatS, &Weights::default(), 3, &mut rng);
    assert_eq!(s.points, -3);
}

#[test]
fn players_follow_their_rules() {
    let mut rng = SmallRng::seed_from_u64(6);
    let d = Choice::Defect;
    let c = Choice::Collab;
    assert_eq!(Player::TitForTat.play(&[], &[], &mut rng), c);
    assert_eq!(Player::TitForTat.play(&[c, c], &[d, c], &mut rng), c);
    assert_eq!(Player::TitForTat.play(&[c, c], &[c, d], &mut rng), d);
    assert_eq!(Player::TitForTat2.play(&[], &[], &mut rng), d);
    assert_eq!(Player::Pavlov.play(&[], &[], &mut rng), c);
    assert_eq!(Player::Pavlov.play(&[d], &[d], &mut rng), c);
    assert_eq!(Player::Pavlov.play(&[c], &[d], &mut rng), d);
    assert_eq!(Player::Mean.play(&[c, c], &[d, d], &mut rng), d);
    assert_eq!(Player::Mean.play(&[d, d], &[c, c], &mut rng), c);
    let mut grim = Player::Grim(false);
    assert_eq!(grim.play(&[], &[], &mut rng), c);
    assert_eq!(grim.play(&[c], &[d], &mut rng), d);
    assert_eq!(grim, Player::Grim(true));
    assert_eq!(grim.play(&[c, d], &[d, c], &mut rng), d);
}

#[test]
fn certain_random_players_are_certain() {
    let mut rng = SmallRng::seed_from_u64(7);
    for _ in 0..200 {
        assert_eq!(Player::Random(100).play(&[], &[], &mut rng), Choice::Collab);
        assert_eq!(Player::Random(0).play(&[], &[], &mut rng), Choice::Defect);
        assert_eq!(PlayerFactory::RandomFixed(100).gen(&Weights::default(), &mut rng), Player::Collaborator);
        assert_eq!(PlayerFactory::RandomFixed(0).gen(&Weights::default(), &mut rng), Player::Defector);
    }
}

#[test]
fn choice_from_bool() {
    assert_eq!(Choice::from(true), Choice::Collab);
    assert_eq!(Choice::from(false), Choice::Defect);
}

#[test]
fn names_and_descriptions() {
    assert_eq!(PlayerFactory::Defector.name(), "Defector");
    assert_eq!(PlayerFactory::Random(50).name(), "Random 50%");
    assert_eq!(PlayerFactory::RandomFixed(90).name(), "RandomFixed 90%");
    assert_eq!(PlayerFactory::Grim.name(), "Grim    ");
    assert_eq!(PlayerFactory::Random(10).description(), "Collaborate 10% of times");
    assert_eq!(
        PlayerFactory::RandomFixed(100).description(),
        "Choose the move at the start (collaborate 100%), then stick with it"
    );
    assert_eq!(PlayerFactory::Pavlov.description(), "Cooperate if the opponent moved alike");
    assert_eq!(decimal_text(0), "0");
    assert_eq!(decimal_text(7), "7");
    assert_eq!(decimal_text(4294967295), "4294967295");
}

#[test]
fn standard_pool_starts_even() {
    let pool = standard_pool();
    let r = pool.ratings();
    assert_eq!(r.len(), 13);
    assert!(r.iter().all(|(_, pts)| *pts == 700));
    assert_eq!(r[0].0, PlayerFactory::Defector);
    assert_eq!(r[4].0, PlayerFactory::Random(10));
    assert_eq!(r[12].0, PlayerFactory::Grim);
    assert_eq!(EloPool::all().len(), 13);
}

#[test]
fn exploitation_scenario_moves_ratings_by_k() {
    let mut rng = SmallRng::seed_from_u64(8);
    let s = play(&PlayerFactory::Defector, &PlayerFactory::Collaborator, &Weights::default(), 100, &mut rng);
    assert_eq!(s, Score { points: 300, max_points: 300 });
    let correction = elo_correction(s, 0);
    assert_eq!(correction, 32);
    let mut pool = standard_pool();
    pool.adjust(0, 1, correction);
    assert_eq!(pool.ratings()[0].1, 732);
    assert_eq!(pool.ratings()[1].1, 668);
    assert!(pool.ratings()[2..].iter().all(|(_, pts)| *pts == 700));
}

#[test]
fn steps_are_deterministic_for_a_seed() {
    let run = |seed: u64| {
        let mut pool = standard_pool();
        let mut rng = SmallRng::seed_from_u64(seed);
        for _ in 0..10_000 {
            pool.play(&mut rng, elo_correction);
        }
        pool.ratings().to_vec()
    };
    assert_eq!(run(42), run(42));
}

#[test]
fn steps_are_zero_sum() {
    let mut pool = standard_pool();
    let mut rng = SmallRng::seed_from_u64(9);
    for _ in 0..500 {
        let before = pool.ratings().to_vec();
        let g = pool.play(&mut rng, elo_correction).unwrap();
        let after = pool.ratings();
        assert_ne!(g.first, g.second);
        assert!((100..=200).contains(&g.turns));
        assert_eq!(g.score.max_points, 3 * g.turns as u128);
        assert_eq!(before[g.first].1 + before[g.second].1, after[g.first].1 + after[g.second].1);
        for k in 0..before.len() {
            if k != g.first && k != g.second {
                assert_eq!(before[k], after[k]);
            }
        }
    }
    let total: usize = pool.ratings().iter().map(|(_, pts)| *pts).sum();
    assert_eq!(total, 13 * 700);
}

#[test]
fn ratings_saturate_at_bounds() {
    let mut pool = EloPool::new(Weights::default(), 100, 200, 5).unwrap();
    pool.adjust(0, 1, -40);
    assert_eq!(pool.ratings()[0].1, 0);
    assert_eq!(pool.ratings()[1].1, 45);
    pool.adjust(2, 3, isize::MIN);
    assert_eq!(pool.ratings()[2].1, 0);
    assert_eq!(pool.ratings()[3].1, 5 + (1usize << 63));
    let mut pool = EloPool::new(Weights::default(), 100, 200, usize::MAX - 1).unwrap();
    pool.adjust(0, 1, isize::MAX);
    assert_eq!(pool.ratings()[0].1, usize::MAX);
    assert_eq!(pool.ratings()[1].1, usize::MAX - 1 - isize::MAX as usize);
    let mut pool = EloPool::new(Weights::default(), 100, 200, 0).unwrap();
    for _ in 0..300 {
        pool.play(&mut SmallRng::seed_from_u64(10), |_, _| isize::MAX);
    }
    assert!(pool.ratings().iter().all(|(_, pts)| *pts == 0 || *pts == usize::MAX));
}

#[test]
fn fixed_turn_range_is_used() {
    let mut pool = EloPool::new(Weights::default(), 7, 7, 700).unwrap();
    let mut rng = SmallRng::seed_from_u64(11);
    for _ in 0..50 {
        let g = pool.play(&mut rng, |_, _| 0).unwrap();
        assert_eq!(g.turns, 7);
        assert_eq!(g.score.max_points, 21);
    }
}
