use rusty_dice::{
    coin_flip, d100, d2, d20, d4, d6, n_rolls, n_sided, roll, CoinFace, GenericDie, RollableDie,
};

#[test]
fn flip_1000_coins_without_crashing() {
    for _ in 0..1000 {
        let result = coin_flip();
        assert!(result == CoinFace::Heads || result == CoinFace::Tails);
    }
}

#[test]
fn roll_many_d20s() {
    let rolls: Vec<i32> = n_rolls(100, &d20());
    assert_eq!(rolls.len(), 100);
    assert!(rolls.iter().sum::<i32>() >= 100);
}

#[test]
fn n_sided_rolls_stay_in_range_and_reach_bounds() {
    for &n in &[1i32, 2, 6, 20] {
        let die = n_sided(n).expect("a positive side count must be accepted");
        let rolls = n_rolls(2000, &die);
        assert!(rolls.iter().all(|&v| 1 <= v && v <= n));
        assert!(rolls.iter().any(|&v| v == 1));
        assert!(rolls.iter().any(|&v| v == n));
    }
}

#[test]
fn n_sided_rejects_nonpositive_counts() {
    assert!(n_sided(0).is_err());
    assert!(n_sided(-1).is_err());
    assert!(n_sided(i32::MIN).is_err());
    assert_eq!(
        n_sided(0).unwrap_err(),
        "Invalid number of sides for a die."
    );
}

#[test]
fn n_rolls_returns_exactly_n_results() {
    let die = d6();
    assert_eq!(n_rolls(0, &die).len(), 0);
    assert_eq!(n_rolls(1, &die).len(), 1);
    assert_eq!(n_rolls(137, &die).len(), 137);
}

#[test]
fn letter_die_is_fair_over_its_faces() {
    let die = GenericDie::new_from(vec!['a', 'b', 'c']);
    let rolls = n_rolls(3000, &die);
    let mut counts = [0usize; 3];
    for &c in &rolls {
        match c {
            'a' => counts[0] += 1,
            'b' => counts[1] += 1,
            'c' => counts[2] += 1,
            _ => panic!("rolled a face the die does not have"),
        }
    }
    for &count in &counts {
        assert!(600 < count && count < 1400);
    }
}

#[test]
fn averaging_die_favors_middle_faces() {
    let die = GenericDie::new_from(vec![2i32, 3, 3, 4, 4, 5]);
    let rolls = n_rolls(60000, &die);
    let mut c2: usize = 0;
    let mut c3: usize = 0;
    let mut c4: usize = 0;
    let mut c5: usize = 0;
    for &v in &rolls {
        match v {
            2 => c2 += 1,
            3 => c3 += 1,
            4 => c4 += 1,
            5 => c5 += 1,
            _ => panic!("rolled a face the die does not have"),
        }
    }
    assert!(c2 > 0 && c3 > 0 && c4 > 0 && c5 > 0);
    // 3 and 4 appear twice among six faces, 2 and 5 once: expect a ratio
    // near two, and accept anything between 1.5 and 2.5.
    assert!(2 * c3 >= 3 * c2 && 2 * c3 <= 5 * c2);
    assert!(2 * c4 >= 3 * c5 && 2 * c4 <= 5 * c5);
}

#[test]
fn coin_flip_shows_both_faces() {
    let mut heads: usize = 0;
    let mut tails: usize = 0;
    for _ in 0..1000 {
        match coin_flip() {
            CoinFace::Heads => heads += 1,
            CoinFace::Tails => tails += 1,
        }
    }
    assert!(heads > 0 && tails > 0);
    assert_eq!(heads + tails, 1000);
}

#[test]
fn six_hundred_d6_rolls_cover_every_face_and_sum_sanely() {
    let rolls = n_rolls(600, &d6());
    for face in 1i32..=6i32 {
        assert!(rolls.iter().any(|&v| v == face));
    }
    let sum: i32 = rolls.iter().sum();
    assert!(1800 <= sum && sum <= 2700);
}

#[test]
fn d2_has_exactly_faces_one_and_two() {
    let rolls = n_rolls(500, &d2());
    assert!(rolls.iter().all(|&v| v == 1 || v == 2));
    assert!(rolls.iter().any(|&v| v == 1));
    assert!(rolls.iter().any(|&v| v == 2));
}

#[test]
fn rolling_with_a_supplied_generator() {
    let mut rng = rand::thread_rng();
    let die = d4();
    for _ in 0..50 {
        let v = die.roll(&mut rng);
        assert!(1 <= v && v <= 4);
    }
    let single = roll(&d100());
    assert!(1 <= single && single <= 100);
}

#[test]
fn single_face_die_always_rolls_that_face() {
    let die = GenericDie::new_from(vec![7i32]);
    for _ in 0..20 {
        assert_eq!(roll(&die), 7);
    }
}

#[test]
fn rolling_through_a_borrowed_die() {
    let die = GenericDie::new_from(vec![1i32, 2, 3]);
    let borrowed = &die;
    let rolls = n_rolls(50, &borrowed);
    assert_eq!(rolls.len(), 50);
    assert!(rolls.iter().all(|&v| 1 <= v && v <= 3));
    let v = roll(&borrowed);
    assert!(1 <= v && v <= 3);
}
