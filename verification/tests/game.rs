use bowling::BowlingGame;
use bowling::Error;

fn roll_ok(g: &mut BowlingGame, pins: u16) {
    assert_eq!(g.roll(pins), Ok(()));
}

fn roll_many(g: &mut BowlingGame, pins: u16, times: usize) {
    for _ in 0..times {
        roll_ok(g, pins);
    }
}

#[test]
fn perfect_game_scores_three_hundred() {
    let mut g = BowlingGame::new();
    for _ in 0..11 {
        roll_ok(&mut g, 10);
        assert_eq!(g.score(), None);
    }
    roll_ok(&mut g, 10);
    assert_eq!(g.score(), Some(300));
}

#[test]
fn all_gutter_game_scores_zero() {
    let mut g = BowlingGame::new();
    roll_many(&mut g, 0, 20);
    assert_eq!(g.score(), Some(0));
}

#[test]
fn all_spares_game_scores_one_fifty() {
    let mut g = BowlingGame::new();
    roll_many(&mut g, 5, 21);
    assert_eq!(g.score(), Some(150));
}

#[test]
fn score_unavailable_until_the_twentieth_roll() {
    let mut g = BowlingGame::new();
    for _ in 0..19 {
        roll_ok(&mut g, 0);
        assert_eq!(g.score(), None);
    }
    roll_ok(&mut g, 0);
    assert_eq!(g.score(), Some(0));
}

#[test]
fn eleven_pins_rejected_at_the_start() {
    let mut g = BowlingGame::new();
    assert_eq!(g.roll(11), Err(Error::NotEnoughPinsLeft));
    assert_eq!(g.score(), None);
}

#[test]
fn eleven_pins_rejected_mid_game_leaves_state_unchanged() {
    let mut g = BowlingGame::new();
    roll_many(&mut g, 3, 10);
    assert_eq!(g.roll(11), Err(Error::NotEnoughPinsLeft));
    // The game goes on exactly as if the bad roll never happened.
    roll_many(&mut g, 3, 10);
    assert_eq!(g.score(), Some(60));
}

#[test]
fn open_frame_may_not_exceed_ten_pins() {
    let mut g = BowlingGame::new();
    roll_ok(&mut g, 5);
    assert_eq!(g.roll(6), Err(Error::NotEnoughPinsLeft));
}

#[test]
fn rejected_second_roll_keeps_the_first_recorded() {
    let mut g = BowlingGame::new();
    roll_ok(&mut g, 5);
    assert_eq!(g.roll(6), Err(Error::NotEnoughPinsLeft));
    // The recorded 5 still stands: 5 more make a spare, worth ten plus
    // the next roll.
    roll_ok(&mut g, 5);
    roll_ok(&mut g, 2);
    roll_many(&mut g, 0, 17);
    assert_eq!(g.score(), Some(14));
}

#[test]
fn roll_after_ordinary_game_rejected() {
    let mut g = BowlingGame::new();
    roll_many(&mut g, 0, 20);
    assert_eq!(g.roll(0), Err(Error::GameComplete));
    assert_eq!(g.roll(10), Err(Error::GameComplete));
    assert_eq!(g.score(), Some(0));
}

#[test]
fn roll_after_perfect_game_rejected() {
    let mut g = BowlingGame::new();
    roll_many(&mut g, 10, 12);
    assert_eq!(g.roll(10), Err(Error::GameComplete));
    assert_eq!(g.score(), Some(300));
}

#[test]
fn strike_then_three_and_four_scores_twenty_four() {
    let mut g = BowlingGame::new();
    roll_ok(&mut g, 10);
    roll_ok(&mut g, 3);
    roll_ok(&mut g, 4);
    roll_many(&mut g, 0, 16);
    assert_eq!(g.score(), Some(24));
}

#[test]
fn spare_earns_the_next_roll_as_bonus() {
    let mut g = BowlingGame::new();
    roll_ok(&mut g, 5);
    roll_ok(&mut g, 5);
    roll_ok(&mut g, 3);
    roll_many(&mut g, 0, 17);
    assert_eq!(g.score(), Some(16));
}

#[test]
fn tenth_frame_spare_takes_one_bonus_roll() {
    let mut g = BowlingGame::new();
    roll_many(&mut g, 0, 18);
    roll_ok(&mut g, 5);
    roll_ok(&mut g, 5);
    assert_eq!(g.score(), None);
    roll_ok(&mut g, 7);
    assert_eq!(g.score(), Some(17));
    assert_eq!(g.roll(0), Err(Error::GameComplete));
}

#[test]
fn tenth_frame_spare_on_the_second_roll_takes_one_bonus_roll() {
    let mut g = BowlingGame::new();
    roll_many(&mut g, 0, 18);
    roll_ok(&mut g, 0);
    roll_ok(&mut g, 10);
    assert_eq!(g.score(), None);
    roll_ok(&mut g, 10);
    assert_eq!(g.score(), Some(20));
    assert_eq!(g.roll(0), Err(Error::GameComplete));
}

#[test]
fn tenth_frame_strike_takes_two_bonus_rolls() {
    let mut g = BowlingGame::new();
    roll_many(&mut g, 0, 18);
    roll_ok(&mut g, 10);
    assert_eq!(g.score(), None);
    roll_ok(&mut g, 4);
    assert_eq!(g.score(), None);
    roll_ok(&mut g, 3);
    assert_eq!(g.score(), Some(17));
    assert_eq!(g.roll(0), Err(Error::GameComplete));
}

#[test]
fn bonus_rolls_after_tenth_frame_strike_share_a_rack() {
    let mut g = BowlingGame::new();
    roll_many(&mut g, 0, 18);
    roll_ok(&mut g, 10);
    roll_ok(&mut g, 4);
    assert_eq!(g.roll(9), Err(Error::NotEnoughPinsLeft));
    roll_ok(&mut g, 6);
    assert_eq!(g.score(), Some(20));
}

#[test]
fn bonus_strike_after_tenth_frame_strike_frees_the_rack() {
    let mut g = BowlingGame::new();
    roll_many(&mut g, 0, 18);
    roll_ok(&mut g, 10);
    roll_ok(&mut g, 10);
    roll_ok(&mut g, 7);
    assert_eq!(g.score(), Some(27));
}
