use tysiac::{ApiError, FormRoundScores, MultipleOf, MultipleOfError, Player, RoundScores};

fn form(p1: i32, p2: i32, p3: i32, winner: Player, winning_bid: i32, playing_bid: i32) -> FormRoundScores {
    FormRoundScores {
        player_1_score: MultipleOf::try_from(p1).unwrap(),
        player_2_score: MultipleOf::try_from(p2).unwrap(),
        player_3_score: MultipleOf::try_from(p3).unwrap(),
        bid_winner: winner,
        winning_bid,
        playing_bid,
    }
}

fn round(p1: i32, p2: i32, p3: i32, winner: Option<Player>, winning_bid: Option<i32>, played_bid: Option<i32>) -> RoundScores {
    RoundScores { index: 0, player_1: p1, player_2: p2, player_3: p3, bid_winner: winner, winning_bid, played_bid }
}

#[test]
fn scenario_a_winner_scores_exactly_the_bid() {
    let scores = form(100, -50, -50, Player::One, 80, 100);
    assert!(scores.validate_against_totals(0, 0, 0).is_ok());
    assert!(scores.validate_scores(100, -50, -50).is_ok());
    let stored = round(100, -50, -50, Some(Player::One), Some(80), Some(100));
    assert!(stored.validate(0, 0, 0).is_ok());
}

#[test]
fn scenario_b_winner_above_closed_total_is_rejected() {
    let scores = form(50, 0, -50, Player::One, 50, 50);
    assert!(matches!(scores.validate_against_totals(850, 0, 0), Err(ApiError::ScoreTooHigh)));
}

#[test]
fn scenario_c_reaching_one_thousand_waives_the_magnitude_rule() {
    let scores = form(120, 0, 0, Player::One, 80, 90);
    assert!(scores.validate_against_totals(880, 0, 0).is_ok());
}

#[test]
fn scenario_d_missing_winning_bid() {
    let stored = round(100, -50, -50, Some(Player::One), None, Some(100));
    assert!(matches!(stored.validate(0, 0, 0), Err(ApiError::MissingValue)));
    let stored = round(100, -50, -50, Some(Player::One), None, Some(100));
    assert!(matches!(stored.validate(2000, 2000, 2000), Err(ApiError::MissingValue)));
    let missing_winner = round(100, -50, -50, None, Some(80), Some(100));
    assert!(matches!(FormRoundScores::try_from(&missing_winner), Err(ApiError::MissingValue)));
    let missing_played = round(100, -50, -50, Some(Player::Two), Some(80), None);
    assert!(matches!(FormRoundScores::try_from(&missing_played), Err(ApiError::MissingValue)));
}

#[test]
fn score_not_a_multiple_of_five_is_rejected() {
    for (p1, p2, p3) in [(101, -50, -50), (100, -51, -50), (100, -50, 3)] {
        let stored = round(p1, p2, p3, Some(Player::One), Some(80), Some(100));
        assert!(matches!(
            stored.validate(0, 0, 0),
            Err(ApiError::MultipleOfError(MultipleOfError::NotAMultipleOf { n: 5 }))
        ));
        let incomplete = round(p1, p2, p3, None, None, None);
        assert!(matches!(
            FormRoundScores::try_from(&incomplete),
            Err(ApiError::MultipleOfError(MultipleOfError::NotAMultipleOf { n: 5 }))
        ));
    }
}

#[test]
fn multiple_of_accepts_only_multiples() {
    assert_eq!(MultipleOf::<5>::try_from(-35).unwrap().value(), -35);
    assert_eq!(MultipleOf::<5>::try_from(0).unwrap().value(), 0);
    assert_eq!(MultipleOf::<5>::try_from(7).unwrap_err(), MultipleOfError::NotAMultipleOf { n: 5 });
    assert_eq!(MultipleOf::<5>::try_from(i32::MIN).unwrap_err(), MultipleOfError::NotAMultipleOf { n: 5 });
    assert_eq!(MultipleOf::<3>::try_from(-9).unwrap().value(), -9);
    assert!(MultipleOf::<0>::try_from(0).is_ok());
    assert!(MultipleOf::<0>::try_from(5).is_err());
}

#[test]
fn loser_above_closed_total_is_rejected() {
    let scores = form(100, 50, 0, Player::One, 100, 100);
    assert!(matches!(scores.validate_against_totals(0, 850, 0), Err(ApiError::ScoreTooHigh)));
    let scores = form(-100, 0, 100, Player::Two, 80, 80);
    assert!(matches!(scores.validate_scores(0, 0, 885), Err(ApiError::ScoreTooHigh)));
    let exact = form(100, 0, 0, Player::Three, 80, 80);
    assert!(matches!(exact.validate_scores(880, 0, 0), Err(ApiError::ScoreTooHigh)));
}

#[test]
fn loser_exactly_at_closed_total_is_allowed() {
    let scores = form(100, 0, 0, Player::Three, 0, 0);
    assert!(scores.validate_scores(880, 0, 0).is_ok());
}

#[test]
fn playing_bid_below_winning_bid_is_rejected() {
    let scores = form(100, -50, -50, Player::One, 120, 100);
    assert!(matches!(scores.validate_against_totals(0, 0, 0), Err(ApiError::PlayingBidMustBeHigher)));
    let too_high = form(100, 0, 0, Player::One, 120, 100);
    assert!(matches!(too_high.validate_against_totals(0, 900, 0), Err(ApiError::ScoreTooHigh)));
}

#[test]
fn bid_order_is_checked_before_the_winners_score() {
    let scores = form(120, 0, 0, Player::One, 120, 100);
    assert!(matches!(scores.validate_scores(120, 0, 0), Err(ApiError::PlayingBidMustBeHigher)));
    let scores = form(50, 0, -50, Player::One, 60, 50);
    assert!(matches!(scores.validate_against_totals(850, 0, 0), Err(ApiError::PlayingBidMustBeHigher)));
}

#[test]
fn winner_magnitude_must_equal_playing_bid() {
    let scores = form(-100, 0, 0, Player::One, 100, 100);
    assert!(scores.validate_against_totals(0, 0, 0).is_ok());
    let scores = form(110, 0, 0, Player::One, 100, 100);
    assert!(matches!(scores.validate_against_totals(0, 0, 0), Err(ApiError::ScoreTooHigh)));
}

#[test]
fn reaching_closed_total_waives_the_magnitude_rule() {
    let scores = form(130, 0, 0, Player::Two, 100, 100);
    assert!(scores.validate_against_totals(0, 0, 0).is_err());
    let scores = form(0, 130, 0, Player::Two, 100, 100);
    assert!(scores.validate_against_totals(0, 750, 0).is_ok());
}

#[test]
fn totals_far_outside_i32_keep_their_verdict() {
    let scores = form(100, 0, 0, Player::One, 100, 100);
    assert!(matches!(scores.validate_against_totals(0, i64::MAX, 0), Err(ApiError::ScoreTooHigh)));
    assert!(scores.validate_against_totals(0, i64::MIN, i64::MIN).is_ok());
    assert!(matches!(scores.validate_against_totals(i64::MAX, 0, 0), Err(ApiError::ScoreTooHigh)));
}

#[test]
fn for_player_picks_the_seat() {
    let scores = form(10, 20, -30, Player::One, 0, 10);
    assert_eq!(scores.for_player(Player::One), 10);
    assert_eq!(scores.for_player(Player::Two), 20);
    assert_eq!(scores.for_player(Player::Three), -30);
}

#[test]
fn conversion_keeps_every_value() {
    let stored = round(15, -5, 0, Some(Player::Three), Some(100), Some(120));
    let scores = FormRoundScores::try_from(&stored).unwrap();
    assert_eq!(scores.player_1_score.value(), 15);
    assert_eq!(scores.player_2_score.value(), -5);
    assert_eq!(scores.player_3_score.value(), 0);
    assert_eq!(scores.bid_winner, Player::Three);
    assert_eq!(scores.winning_bid, 100);
    assert_eq!(scores.playing_bid, 120);
}
