use tysiac::{plan_edits, ApiError, FormEditAllScores, FormEditRoundScores, FormRoundScores, MultipleOf, Player, RoundChange};

fn form(p1: i32, p2: i32, p3: i32, winner: Player, winning_bid: i32, playing_bid: i32) -> FormRoundScores {
    FormRoundScores {
        player_1_score: MultipleOf::try_from(p1).unwrap(),
        player_2_score: MultipleOf::try_from(p2).unwrap(),
        player_3_score: MultipleOf::try_from(p3).unwrap(),
        bid_winner: winner,
        winning_bid,
        playing_bid,
    }
}

fn entry(index: i32, scores: FormRoundScores, delete: bool) -> FormEditRoundScores {
    FormEditRoundScores { index, scores, delete }
}

#[test]
fn scenario_e_second_entry_pushes_a_loser_over() {
    let edits = [
        entry(1, form(100, 800, 0, Player::One, 100, 100), false),
        entry(2, form(100, 100, 0, Player::One, 100, 100), false),
    ];
    assert!(matches!(plan_edits(&edits), Err(ApiError::ScoreTooHigh)));
}

#[test]
fn valid_edit_gives_one_change_per_entry() {
    let edits = [
        entry(1, form(100, -50, -50, Player::One, 80, 100), false),
        entry(2, form(0, 0, 0, Player::Two, 0, 0), true),
        entry(3, form(-60, 120, -60, Player::Two, 100, 120), false),
    ];
    let changes = plan_edits(&edits).unwrap();
    assert_eq!(changes.len(), 3);
    match changes[0] {
        RoundChange::Update { index, scores } => {
            assert_eq!(index, 1);
            assert_eq!(scores.player_1_score.value(), 100);
        }
        RoundChange::Delete { .. } => panic!("expected an update"),
    }
    assert!(matches!(changes[1], RoundChange::Delete { index: 2 }));
    assert!(matches!(changes[2], RoundChange::Update { index: 3, .. }));
}

#[test]
fn deleted_entries_do_not_count_towards_totals() {
    let edits = [
        entry(1, form(0, 800, 0, Player::One, 0, 0), true),
        entry(2, form(100, 100, 0, Player::One, 100, 100), false),
    ];
    assert!(plan_edits(&edits).is_ok());
}

#[test]
fn first_failing_entry_decides_the_error() {
    let edits = [
        entry(1, form(100, 0, 0, Player::One, 120, 100), false),
        entry(2, form(100, 900, 0, Player::One, 100, 100), false),
    ];
    assert!(matches!(plan_edits(&edits), Err(ApiError::PlayingBidMustBeHigher)));
}

#[test]
fn empty_edit_is_accepted() {
    assert!(plan_edits(&[]).unwrap().is_empty());
}

#[test]
fn edit_with_password_checks_both() {
    let all = FormEditAllScores {
        all_scores: vec![entry(1, form(100, -50, -50, Player::One, 80, 100), false)],
        password: "hunter2".to_string(),
    };
    assert_eq!(all.plan(Some("hunter2")).unwrap().len(), 1);
    assert!(matches!(all.plan(Some("hunter3")), Err(ApiError::InvalidPassword)));
    assert!(matches!(all.plan(None), Err(ApiError::NoConfiguredPassword)));
    let bad = FormEditAllScores {
        all_scores: vec![entry(1, form(100, 900, 0, Player::One, 100, 100), false)],
        password: "hunter2".to_string(),
    };
    assert!(matches!(bad.plan(Some("hunter2")), Err(ApiError::ScoreTooHigh)));
}
