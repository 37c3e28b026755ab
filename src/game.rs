use vstd::prelude::*;

use crate::scores::{add_totals, RoundScores, Totals};

verus! {

/// A game as loaded from storage, with the ids of its neighbours by id.
pub struct Game {
    pub game_id: i32,
    pub next: Option<i32>,
    pub prev: Option<i32>,
    pub player_names: (String, String, String),
    pub round_scores: Vec<RoundScores>,
}

impl Game {
    /// A game with no names and no rounds, for pages that fill it in themselves.
    pub fn empty(game_id: i32) -> (r: Game)
        ensures
            r.game_id == game_id,
            r.next is None,
            r.prev is None,
            r.player_names.0@.len() == 0,
            r.player_names.1@.len() == 0,
            r.player_names.2@.len() == 0,
            r.round_scores@.len() == 0,
    {
        Game {
            game_id,
            next: None,
            prev: None,
            player_names: (String::new(), String::new(), String::new()),
            round_scores: Vec::new(),
        }
    }
}

/// The three names a game is created with.
pub struct PlayerNames<'a> {
    pub player_1_name: &'a str,
    pub player_2_name: &'a str,
    pub player_3_name: &'a str,
}

/// What a page of a game shows: the game, each round's running totals and the lowest
/// score of any single round.
pub struct GameContext<'a> {
    pub game_id: i32,
    pub next: Option<i32>,
    pub prev: Option<i32>,
    pub player_names: &'a (String, String, String),
    pub round_scores: &'a [RoundScores],
    pub cumulative_round_scores: Vec<(i128, i128, i128)>,
    pub min_score: i32,
}

/// The scores of one stored round, in seat order.
pub open spec fn deltas_of(r: RoundScores) -> Totals {
    (r.player_1 as int, r.player_2 as int, r.player_3 as int)
}

/// The players' totals over the first `n` rounds.
pub open spec fn prefix_totals(rounds: Seq<RoundScores>, n: int) -> Totals
    decreases n,
{
    if n <= 0 {
        (0, 0, 0)
    } else {
        add_totals(prefix_totals(rounds, n - 1), deltas_of(rounds[n - 1]))
    }
}

/// A triple of running totals as integers.
pub open spec fn totals_view(t: (i128, i128, i128)) -> Totals {
    (t.0 as int, t.1 as int, t.2 as int)
}

/// Whether `m` is at most every single-round score in the first `n` rounds.
pub open spec fn at_most_every_score(rounds: Seq<RoundScores>, n: int, m: int) -> bool {
    forall|i: int|
        #![trigger rounds[i]]
        0 <= i < n ==> m <= rounds[i].player_1 && m <= rounds[i].player_2 && m <= rounds[i].player_3
}

/// Whether `m` is a single-round score in the first `n` rounds.
pub open spec fn is_some_score(rounds: Seq<RoundScores>, n: int, m: int) -> bool {
    exists|i: int|
        0 <= i < n && (m == #[trigger] rounds[i].player_1 || m == rounds[i].player_2 || m
            == rounds[i].player_3)
}

/// Whether `c` is the read view of `game`: the running totals after each round, in order,
/// the lowest single-round score (0 for a game with no rounds), and the game's own data.
pub open spec fn is_view_of(c: GameContext, game: Game) -> bool {
    let rounds = game.round_scores@;
    &&& c.game_id == game.game_id
    &&& c.next == game.next
    &&& c.prev == game.prev
    &&& *c.player_names == game.player_names
    &&& c.round_scores@ == rounds
    &&& c.cumulative_round_scores@.len() == rounds.len()
    &&& forall|i: int|
        0 <= i < rounds.len() ==> totals_view(#[trigger] c.cumulative_round_scores@[i])
            == prefix_totals(rounds, i + 1)
    &&& rounds.len() == 0 ==> c.min_score == 0
    &&& rounds.len() > 0 ==> at_most_every_score(rounds, rounds.len() as int, c.min_score as int)
        && is_some_score(rounds, rounds.len() as int, c.min_score as int)
}

/// Reading a game twice gives the same running totals and the same lowest score: both
/// are determined by the game's rounds alone.
pub proof fn lemma_view_is_determined(game: Game, a: GameContext, b: GameContext)
    requires
        is_view_of(a, game),
        is_view_of(b, game),
    ensures
        a.cumulative_round_scores@ == b.cumulative_round_scores@,
        a.min_score == b.min_score,
{
    let rounds = game.round_scores@;
    assert forall|i: int| 0 <= i < a.cumulative_round_scores@.len() implies a.cumulative_round_scores@[i]
        == b.cumulative_round_scores@[i] by {
        assert(totals_view(a.cumulative_round_scores@[i]) == prefix_totals(rounds, i + 1));
        assert(totals_view(b.cumulative_round_scores@[i]) == prefix_totals(rounds, i + 1));
    }
    assert(a.cumulative_round_scores@ =~= b.cumulative_round_scores@);
    if rounds.len() > 0 {
        let n = rounds.len() as int;
        let ma = a.min_score as int;
        let mb = b.min_score as int;
        let ka = choose|k: int|
            0 <= k < n && (ma == #[trigger] rounds[k].player_1 || ma == rounds[k].player_2 || ma
                == rounds[k].player_3);
        let kb = choose|k: int|
            0 <= k < n && (mb == #[trigger] rounds[k].player_1 || mb == rounds[k].player_2 || mb
                == rounds[k].player_3);
        assert(mb <= rounds[ka].player_1 && mb <= rounds[ka].player_2 && mb <= rounds[ka].player_3);
        assert(ma <= rounds[kb].player_1 && ma <= rounds[kb].player_2 && ma <= rounds[kb].player_3);
    }
}

/// A bound on the magnitude of one round's score.
const SCORE_MAGNITUDE: i128 = 0x8000_0000;

impl<'a> GameContext<'a> {
    /// Builds the read view of `game`.
    pub fn from_game(game: &'a Game) -> (r: GameContext<'a>)
        ensures
            is_view_of(r, *game),
    {
        let rounds = game.round_scores.as_slice();
        let mut cumulative_round_scores: Vec<(i128, i128, i128)> = Vec::new();
        let mut o1: i128 = 0;
        let mut o2: i128 = 0;
        let mut o3: i128 = 0;
        let mut min_score: i32 = 0;
        let ghost mut min_at: int = 0;
        let mut i: usize = 0;
        while i < rounds.len()
            invariant
                rounds@ == game.round_scores@,
                0 <= i <= rounds@.len(),
                (o1 as int, o2 as int, o3 as int) == prefix_totals(rounds@, i as int),
                -(i as int) * SCORE_MAGNITUDE <= o1 <= (i as int) * SCORE_MAGNITUDE,
                -(i as int) * SCORE_MAGNITUDE <= o2 <= (i as int) * SCORE_MAGNITUDE,
                -(i as int) * SCORE_MAGNITUDE <= o3 <= (i as int) * SCORE_MAGNITUDE,
                cumulative_round_scores@.len() == i,
                forall|j: int|
                    0 <= j < i ==> totals_view(#[trigger] cumulative_round_scores@[j])
                        == prefix_totals(rounds@, j + 1),
                i == 0 ==> min_score == 0,
                i > 0 ==> at_most_every_score(rounds@, i as int, min_score as int),
                i > 0 ==> 0 <= min_at < i && (min_score == rounds@[min_at].player_1 || min_score
                    == rounds@[min_at].player_2 || min_score == rounds@[min_at].player_3),
            decreases rounds@.len() - i,
        {
            let scores = &rounds[i];
            o1 = o1 + scores.player_1 as i128;
            o2 = o2 + scores.player_2 as i128;
            o3 = o3 + scores.player_3 as i128;
            cumulative_round_scores.push((o1, o2, o3));

            let mut lowest = scores.player_1;
            if scores.player_2 < lowest {
                lowest = scores.player_2;
            }
            if scores.player_3 < lowest {
                lowest = scores.player_3;
            }
            let ghost previous = min_score;
            if i == 0 || lowest < min_score {
                min_score = lowest;
                proof {
                    min_at = i as int;
                }
            }
            proof {
                assert forall|j: int| 0 <= j < i + 1 implies min_score <= #[trigger] rounds@[j].player_1
                    && min_score <= rounds@[j].player_2 && min_score <= rounds@[j].player_3 by {
                    if j < i {
                        assert(previous <= rounds@[j].player_1 && previous <= rounds@[j].player_2
                            && previous <= rounds@[j].player_3);
                    }
                }
            }
            i = i + 1;
        }
        proof {
            if i > 0 {
                assert(min_score as int == rounds@[min_at].player_1 || min_score as int
                    == rounds@[min_at].player_2 || min_score as int == rounds@[min_at].player_3);
            }
        }
        GameContext {
            game_id: game.game_id,
            next: game.next,
            prev: game.prev,
            player_names: &game.player_names,
            round_scores: rounds,
            cumulative_round_scores,
            min_score,
        }
    }
}

} // verus!
