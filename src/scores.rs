use vstd::prelude::*;

use crate::common::{is_multiple_of, MultipleOf, MultipleOfError};
use crate::error::ApiError;
use crate::player::Player;

verus! {

/// The total at which a player is closed: nobody but a finishing bid winner may pass it.
pub const CLOSED_TOTAL: i32 = 880;

/// The total that ends the game for the player who reaches it.
pub const WINNING_TOTAL: i32 = 1000;

/// Every per-round score is a multiple of this unit.
pub const SCORE_UNIT: u32 = 5;

/// A per-player triple of scores or totals, in seat order.
pub type Totals = (int, int, int);

/// Entry-wise sum of two triples.
pub open spec fn add_totals(a: Totals, b: Totals) -> Totals {
    (a.0 + b.0, a.1 + b.1, a.2 + b.2)
}

/// The entry of `t` that belongs to `p`.
pub open spec fn share_of(p: Player, t: Totals) -> int {
    match p {
        Player::One => t.0,
        Player::Two => t.1,
        Player::Three => t.2,
    }
}

/// Whether a player other than `winner` stands above the closed total in `t`.
pub open spec fn loser_above_closed(winner: Player, t: Totals) -> bool {
    match winner {
        Player::One => t.1 > CLOSED_TOTAL || t.2 > CLOSED_TOTAL,
        Player::Two => t.0 > CLOSED_TOTAL || t.2 > CLOSED_TOTAL,
        Player::Three => t.0 > CLOSED_TOTAL || t.1 > CLOSED_TOTAL,
    }
}

/// The magnitude of `x`.
pub open spec fn abs(x: int) -> int {
    if x < 0 {
        -x
    } else {
        x
    }
}

/// A round with complete bid data, as plain numbers.
pub struct ScoredRound {
    pub deltas: Totals,
    pub bid_winner: Player,
    pub winning_bid: int,
    pub playing_bid: int,
}

/// The verdict on round `r` when the players' totals including `r` are `totals`.
/// The losers' ceiling is checked first, then the bid order, then the winner's score.
pub open spec fn score_verdict(r: ScoredRound, totals: Totals) -> Result<(), ApiError> {
    let winners_total = share_of(r.bid_winner, totals);
    if loser_above_closed(r.bid_winner, totals) {
        Err(ApiError::ScoreTooHigh)
    } else if r.playing_bid < r.winning_bid {
        Err(ApiError::PlayingBidMustBeHigher)
    } else if abs(share_of(r.bid_winner, r.deltas)) != r.playing_bid && winners_total
        != CLOSED_TOTAL && winners_total != WINNING_TOTAL {
        Err(ApiError::ScoreTooHigh)
    } else if winners_total > CLOSED_TOTAL && winners_total != WINNING_TOTAL {
        Err(ApiError::ScoreTooHigh)
    } else {
        Ok(())
    }
}

/// One round as stored: scores may be any integers and the bid data may be missing.
pub struct RoundScores {
    pub index: i32,
    pub player_1: i32,
    pub player_2: i32,
    pub player_3: i32,
    pub bid_winner: Option<Player>,
    pub winning_bid: Option<i32>,
    pub played_bid: Option<i32>,
}

/// One round as submitted: scores are multiples of the unit and the bid data is complete.
#[derive(Debug, Clone, Copy)]
pub struct FormRoundScores {
    pub player_1_score: MultipleOf<5>,
    pub player_2_score: MultipleOf<5>,
    pub player_3_score: MultipleOf<5>,
    pub bid_winner: Player,
    pub winning_bid: i32,
    pub playing_bid: i32,
}

impl View for FormRoundScores {
    type V = ScoredRound;

    open spec fn view(&self) -> ScoredRound {
        ScoredRound {
            deltas: (self.player_1_score@, self.player_2_score@, self.player_3_score@),
            bid_winner: self.bid_winner,
            winning_bid: self.winning_bid as int,
            playing_bid: self.playing_bid as int,
        }
    }
}

/// The error met first when turning stored round `r` into a submitted one, if any:
/// the scores' unit is checked before the presence of the bid data.
pub open spec fn conversion_error(r: RoundScores) -> Option<ApiError> {
    if !is_multiple_of(r.player_1 as int, SCORE_UNIT as int) || !is_multiple_of(
        r.player_2 as int,
        SCORE_UNIT as int,
    ) || !is_multiple_of(r.player_3 as int, SCORE_UNIT as int) {
        Some(ApiError::MultipleOfError(MultipleOfError::NotAMultipleOf { n: SCORE_UNIT }))
    } else if r.bid_winner is None || r.winning_bid is None || r.played_bid is None {
        Some(ApiError::MissingValue)
    } else {
        None
    }
}

/// The plain numbers of stored round `r`, meaningful where its bid data is present.
pub open spec fn scored_round_of(r: RoundScores) -> ScoredRound {
    ScoredRound {
        deltas: (r.player_1 as int, r.player_2 as int, r.player_3 as int),
        bid_winner: r.bid_winner.unwrap(),
        winning_bid: r.winning_bid.unwrap() as int,
        playing_bid: r.played_bid.unwrap() as int,
    }
}

/// The verdict on stored round `r` when the totals before it are `prior`.
pub open spec fn round_verdict(r: RoundScores, prior: Totals) -> Result<(), ApiError> {
    match conversion_error(r) {
        Some(e) => Err(e),
        None => score_verdict(scored_round_of(r), add_totals(prior, scored_round_of(r).deltas)),
    }
}

/// Clamps `x` into `i32`; values outside stay on the same side of every threshold.
pub(crate) fn clamp_total(x: i128) -> (r: i32)
    ensures
        r as int == if x > i32::MAX {
            i32::MAX as int
        } else if x < i32::MIN {
            i32::MIN as int
        } else {
            x as int
        },
{
    if x > i32::MAX as i128 {
        i32::MAX
    } else if x < i32::MIN as i128 {
        i32::MIN
    } else {
        x as i32
    }
}

/// `x` clamped into the range of `i32`.
pub open spec fn clamped(x: int) -> int {
    if x > i32::MAX {
        i32::MAX as int
    } else if x < i32::MIN {
        i32::MIN as int
    } else {
        x
    }
}

/// Clamping the totals into `i32` does not change any verdict.
pub proof fn lemma_verdict_clamped(r: ScoredRound, t: Totals)
    ensures
        score_verdict(r, (clamped(t.0), clamped(t.1), clamped(t.2))) == score_verdict(r, t),
{
}

impl<'a> TryFrom<&'a RoundScores> for FormRoundScores {
    type Error = ApiError;

    fn try_from(value: &'a RoundScores) -> (r: Result<Self, Self::Error>)
        ensures
            match r {
                Ok(f) => conversion_error(*value) is None && f@ == scored_round_of(*value),
                Err(e) => conversion_error(*value) == Some(e),
            },
    {
        let player_1_score = match MultipleOf::<5>::try_from(value.player_1) {
            Ok(m) => m,
            Err(e) => return Err(ApiError::MultipleOfError(e)),
        };
        let player_2_score = match MultipleOf::<5>::try_from(value.player_2) {
            Ok(m) => m,
            Err(e) => return Err(ApiError::MultipleOfError(e)),
        };
        let player_3_score = match MultipleOf::<5>::try_from(value.player_3) {
            Ok(m) => m,
            Err(e) => return Err(ApiError::MultipleOfError(e)),
        };
        let bid_winner = match value.bid_winner {
            Some(p) => p,
            None => return Err(ApiError::MissingValue),
        };
        let winning_bid = match value.winning_bid {
            Some(b) => b,
            None => return Err(ApiError::MissingValue),
        };
        let playing_bid = match value.played_bid {
            Some(b) => b,
            None => return Err(ApiError::MissingValue),
        };
        Ok(FormRoundScores {
            player_1_score,
            player_2_score,
            player_3_score,
            bid_winner,
            winning_bid,
            playing_bid,
        })
    }
}

impl<'a> vstd::std_specs::convert::TryFromSpecImpl<&'a RoundScores> for FormRoundScores {
    /// The conversion is described by the `ensures` of `try_from` instead.
    open spec fn obeys_try_from_spec() -> bool {
        false
    }

    open spec fn try_from_spec(value: &'a RoundScores) -> Result<Self, ApiError> {
        arbitrary()
    }
}

impl RoundScores {
    /// Checks a stored or submitted round against the players' totals before it, and
    /// hands back its checked form.
    pub fn validate(&self, p1_total: i64, p2_total: i64, p3_total: i64) -> (r: Result<
        FormRoundScores,
        ApiError,
    >)
        ensures
            r is Ok <==> round_verdict(*self, (p1_total as int, p2_total as int, p3_total as int))
                is Ok,
            match r {
                Ok(f) => f@ == scored_round_of(*self),
                Err(e) => round_verdict(
                    *self,
                    (p1_total as int, p2_total as int, p3_total as int),
                ) == Err::<(), ApiError>(e),
            },
            !is_multiple_of(self.player_1 as int, SCORE_UNIT as int) || !is_multiple_of(
                self.player_2 as int,
                SCORE_UNIT as int,
            ) || !is_multiple_of(self.player_3 as int, SCORE_UNIT as int) ==> r
                == Err::<FormRoundScores, ApiError>(
                ApiError::MultipleOfError(MultipleOfError::NotAMultipleOf { n: SCORE_UNIT }),
            ),
    {
        let form = FormRoundScores::try_from(self)?;
        match form.validate_against_totals(p1_total, p2_total, p3_total) {
            Ok(()) => Ok(form),
            Err(e) => Err(e),
        }
    }
}

impl FormRoundScores {
    /// This round's score of `player`.
    pub fn for_player(&self, player: Player) -> (r: i32)
        ensures
            r as int == share_of(player, self@.deltas),
    {
        match player {
            Player::One => self.player_1_score.value(),
            Player::Two => self.player_2_score.value(),
            Player::Three => self.player_3_score.value(),
        }
    }

    /// Checks this round against the players' totals including this round.
    pub fn validate_scores(&self, p1_sum: i32, p2_sum: i32, p3_sum: i32) -> (r: Result<(), ApiError>)
        ensures
            r == score_verdict(self@, (p1_sum as int, p2_sum as int, p3_sum as int)),
            loser_above_closed(self.bid_winner, (p1_sum as int, p2_sum as int, p3_sum as int))
                ==> r == Err::<(), ApiError>(ApiError::ScoreTooHigh),
            self.playing_bid < self.winning_bid && !loser_above_closed(
                self.bid_winner,
                (p1_sum as int, p2_sum as int, p3_sum as int),
            ) ==> r == Err::<(), ApiError>(ApiError::PlayingBidMustBeHigher),
    {
        let winning_player = self.bid_winner;
        let winners_score = self.for_player(winning_player);
        let (winners_sum, loser_a, loser_b) = match winning_player {
            Player::One => (p1_sum, p2_sum, p3_sum),
            Player::Two => (p2_sum, p1_sum, p3_sum),
            Player::Three => (p3_sum, p1_sum, p2_sum),
        };

        if loser_a > CLOSED_TOTAL || loser_b > CLOSED_TOTAL {
            return Err(ApiError::ScoreTooHigh);
        }
        if self.playing_bid < self.winning_bid {
            return Err(ApiError::PlayingBidMustBeHigher);
        }
        let magnitude: i64 = if winners_score < 0 {
            0i64 - winners_score as i64
        } else {
            winners_score as i64
        };
        if magnitude != self.playing_bid as i64 && winners_sum != CLOSED_TOTAL && winners_sum
            != WINNING_TOTAL {
            return Err(ApiError::ScoreTooHigh);
        }
        if winners_sum > CLOSED_TOTAL && winners_sum != WINNING_TOTAL {
            return Err(ApiError::ScoreTooHigh);
        }
        Ok(())
    }

    /// Checks this round against the players' totals before it, of any size.
    pub fn validate_against_totals(&self, p1_total: i64, p2_total: i64, p3_total: i64) -> (r:
        Result<(), ApiError>)
        ensures
            r == score_verdict(
                self@,
                add_totals((p1_total as int, p2_total as int, p3_total as int), self@.deltas),
            ),
            loser_above_closed(
                self.bid_winner,
                add_totals((p1_total as int, p2_total as int, p3_total as int), self@.deltas),
            ) ==> r == Err::<(), ApiError>(ApiError::ScoreTooHigh),
            self.playing_bid < self.winning_bid && !loser_above_closed(
                self.bid_winner,
                add_totals((p1_total as int, p2_total as int, p3_total as int), self@.deltas),
            ) ==> r == Err::<(), ApiError>(ApiError::PlayingBidMustBeHigher),
    {
        let t1 = clamp_total(p1_total as i128 + self.player_1_score.value() as i128);
        let t2 = clamp_total(p2_total as i128 + self.player_2_score.value() as i128);
        let t3 = clamp_total(p3_total as i128 + self.player_3_score.value() as i128);
        proof {
            lemma_verdict_clamped(
                self@,
                add_totals((p1_total as int, p2_total as int, p3_total as int), self@.deltas),
            );
        }
        self.validate_scores(t1, t2, t3)
    }
}

} // verus!
