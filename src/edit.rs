use vstd::prelude::*;

use crate::error::ApiError;
use crate::scores::{
    add_totals, clamp_total, lemma_verdict_clamped, score_verdict, FormRoundScores, Totals,
};

verus! {

/// One entry of an administrator's edit: the round at `index` is overwritten with
/// `scores`, or deleted.
#[derive(Debug, Clone, Copy)]
pub struct FormEditRoundScores {
    pub index: i32,
    pub scores: FormRoundScores,
    pub delete: bool,
}

/// A whole edit as submitted, with the administrator's password.
pub struct FormEditAllScores {
    pub all_scores: Vec<FormEditRoundScores>,
    pub password: String,
}

/// One storage operation of an accepted edit.
#[derive(Debug, Clone, Copy)]
pub enum RoundChange {
    Delete { index: i32 },
    Update { index: i32, scores: FormRoundScores },
}

/// The storage operation that entry `e` asks for.
pub open spec fn change_of(e: FormEditRoundScores) -> RoundChange {
    if e.delete {
        RoundChange::Delete { index: e.index }
    } else {
        RoundChange::Update { index: e.index, scores: e.scores }
    }
}

/// What entry `e` adds to the running totals: nothing when it is deleted.
pub open spec fn kept_deltas(e: FormEditRoundScores) -> Totals {
    if e.delete {
        (0, 0, 0)
    } else {
        e.scores@.deltas
    }
}

/// The totals over the first `n` entries of an edit.
pub open spec fn running_totals(edits: Seq<FormEditRoundScores>, n: int) -> Totals
    decreases n,
{
    if n <= 0 {
        (0, 0, 0)
    } else {
        add_totals(running_totals(edits, n - 1), kept_deltas(edits[n - 1]))
    }
}

/// The verdict on entry `k` of an edit, against the totals of the edit itself up to and
/// including it.
pub open spec fn entry_verdict(edits: Seq<FormEditRoundScores>, k: int) -> Result<(), ApiError> {
    if edits[k].delete {
        Ok(())
    } else {
        score_verdict(edits[k].scores@, running_totals(edits, k + 1))
    }
}

/// The verdict on the first `n` entries of an edit: the first failing entry's error.
pub open spec fn batch_verdict(edits: Seq<FormEditRoundScores>, n: int) -> Result<(), ApiError>
    decreases n,
{
    if n <= 0 {
        Ok(())
    } else {
        match batch_verdict(edits, n - 1) {
            Err(e) => Err(e),
            Ok(()) => entry_verdict(edits, n - 1),
        }
    }
}

/// Once a prefix of an edit fails, every longer prefix fails with the same error.
proof fn lemma_batch_failure_sticks(edits: Seq<FormEditRoundScores>, n: int, m: int)
    requires
        n <= m,
        batch_verdict(edits, n) is Err,
    ensures
        batch_verdict(edits, m) == batch_verdict(edits, n),
    decreases m - n,
{
    if n < m {
        lemma_batch_failure_sticks(edits, n, m - 1);
    }
}

/// An edit in which some entry fails against the edit's own running totals is rejected
/// as a whole, so none of its changes is handed out.
pub proof fn lemma_failing_entry_rejects_batch(edits: Seq<FormEditRoundScores>, k: int)
    requires
        0 <= k < edits.len(),
        entry_verdict(edits, k) is Err,
    ensures
        batch_verdict(edits, edits.len() as int) is Err,
{
    assert(batch_verdict(edits, k + 1) is Err);
    lemma_batch_failure_sticks(edits, k + 1, edits.len() as int);
}

/// A bound on the magnitude of one round's score.
const SCORE_MAGNITUDE: i128 = 0x8000_0000;

/// Checks every entry of an edit against the totals of the entries before it, and
/// only when all pass hands back the storage operations, one per entry and in order.
pub fn plan_edits(edits: &[FormEditRoundScores]) -> (r: Result<Vec<RoundChange>, ApiError>)
    ensures
        r is Ok <==> batch_verdict(edits@, edits@.len() as int) is Ok,
        match r {
            Ok(changes) => changes@ == edits@.map_values(|e: FormEditRoundScores| change_of(e)),
            Err(e) => batch_verdict(edits@, edits@.len() as int) == Err::<(), ApiError>(e),
        },
{
    let mut changes: Vec<RoundChange> = Vec::new();
    let mut p1_sum: i128 = 0;
    let mut p2_sum: i128 = 0;
    let mut p3_sum: i128 = 0;
    let mut i: usize = 0;
    while i < edits.len()
        invariant
            0 <= i <= edits@.len(),
            batch_verdict(edits@, i as int) is Ok,
            (p1_sum as int, p2_sum as int, p3_sum as int) == running_totals(edits@, i as int),
            -(i as int) * SCORE_MAGNITUDE <= p1_sum <= (i as int) * SCORE_MAGNITUDE,
            -(i as int) * SCORE_MAGNITUDE <= p2_sum <= (i as int) * SCORE_MAGNITUDE,
            -(i as int) * SCORE_MAGNITUDE <= p3_sum <= (i as int) * SCORE_MAGNITUDE,
            changes@ == edits@.subrange(0, i as int).map_values(
                |e: FormEditRoundScores| change_of(e),
            ),
        decreases edits@.len() - i,
    {
        let entry = &edits[i];
        if entry.delete {
            changes.push(RoundChange::Delete { index: entry.index });
        } else {
            p1_sum = p1_sum + entry.scores.player_1_score.value() as i128;
            p2_sum = p2_sum + entry.scores.player_2_score.value() as i128;
            p3_sum = p3_sum + entry.scores.player_3_score.value() as i128;
            proof {
                lemma_verdict_clamped(entry.scores@, (p1_sum as int, p2_sum as int, p3_sum as int));
            }
            let verdict = entry.scores.validate_scores(
                clamp_total(p1_sum),
                clamp_total(p2_sum),
                clamp_total(p3_sum),
            );
            if let Err(e) = verdict {
                proof {
                    lemma_batch_failure_sticks(edits@, i + 1, edits@.len() as int);
                }
                return Err(e);
            }
            changes.push(RoundChange::Update { index: entry.index, scores: entry.scores });
        }
        proof {
            assert(edits@.subrange(0, i + 1) == edits@.subrange(0, i as int).push(edits@[i as int]));
        }
        i = i + 1;
    }
    proof {
        assert(edits@.subrange(0, i as int) == edits@);
    }
    Ok(changes)
}

} // verus!
