//! The draw loop: attempts are taken until `Ancient` comes up or the limit is
//! reached, and every attempt is counted under its category.

use vstd::prelude::*;
use crate::error::SimError;
use crate::lemmas::lemma_run_length_full;
use crate::rarity::weight_table;
use crate::rarity::Rarity;
use crate::sampler::build_distribution;
use crate::tally::SimulationResult;

verus! {

/// Where a run stands.
#[derive(Clone, Copy, Debug, PartialEq, Eq, Structural)]
pub enum Status {
    /// No `Ancient` yet and attempts are left.
    Running,
    /// `Ancient` came up: the run is over.
    AncientHit,
    /// The limit was reached without an `Ancient`: the run is over.
    LimitReached,
}

/// The status that a record has under an attempt limit.
pub open spec fn status_of(res: SimulationResult, limit: u64) -> Status {
    if res.ancient > 0 {
        Status::AncientHit
    } else if res.attempts >= limit {
        Status::LimitReached
    } else {
        Status::Running
    }
}

/// How many of `draws` a run under `limit` records: it stops after the first
/// `Ancient`, after `limit` draws, or when the draws run out.
pub open spec fn run_length(limit: nat, draws: Seq<Rarity>) -> nat
    decreases draws.len(),
{
    if limit == 0 || draws.len() == 0 {
        0
    } else if draws[0] == Rarity::Ancient {
        1
    } else {
        1 + run_length((limit - 1) as nat, draws.skip(1))
    }
}

/// How often `r` occurs in `draws`.
pub open spec fn occurrences(draws: Seq<Rarity>, r: Rarity) -> nat
    decreases draws.len(),
{
    if draws.len() == 0 {
        0
    } else {
        occurrences(draws.drop_last(), r) + if draws.last() == r {
            1nat
        } else {
            0nat
        }
    }
}

/// `res` counts exactly the draws of `draws`: one attempt for each, and each
/// category as often as it occurs.
pub open spec fn is_tally_of(res: SimulationResult, draws: Seq<Rarity>) -> bool {
    &&& res.attempts == draws.len()
    &&& res.uncommon == occurrences(draws, Rarity::Uncommon)
    &&& res.rare == occurrences(draws, Rarity::Rare)
    &&& res.epic == occurrences(draws, Rarity::Epic)
    &&& res.legendary == occurrences(draws, Rarity::Legendary)
    &&& res.ancient == occurrences(draws, Rarity::Ancient)
}

/// `res` is what a run under `limit` leaves when its draws come out as
/// `draws`: the tally of the draws it records.
pub open spec fn outcome_of(res: SimulationResult, limit: u64, draws: Seq<Rarity>) -> bool {
    is_tally_of(res, draws.take(run_length(limit as nat, draws) as int))
}

/// What holds of the record of every finished run under `limit`: the
/// counters add up to the attempts, the attempts stay within the limit, and
/// a run without an `Ancient` has used the limit up.
pub open spec fn is_final(res: SimulationResult, limit: u64) -> bool {
    &&& res.wf()
    &&& res.attempts <= limit
    &&& res.ancient == 0 ==> res.attempts == limit
}

/// The status of a record under an attempt limit.
pub fn status(res: &SimulationResult, limit: u64) -> (s: Status)
    ensures
        s == status_of(*res, limit),
        s == Status::Running <==> res.running(limit),
{
    if res.ancient > 0 {
        Status::AncientHit
    } else if res.attempts >= limit {
        Status::LimitReached
    } else {
        Status::Running
    }
}

/// One transition of the run. While the run goes on, the draw is counted;
/// once it is over, the record stays as it is. Returns the status after.
pub fn step(res: &mut SimulationResult, limit: u64, drawn: Rarity) -> (s: Status)
    requires
        old(res).wf(),
    ensures
        old(res).running(limit) ==> *final(res) == old(res).recorded(drawn),
        !old(res).running(limit) ==> *final(res) == *old(res),
        final(res).wf(),
        s == status_of(*final(res), limit),
        old(res).running(limit) && drawn == Rarity::Ancient ==> s == Status::AncientHit,
{
    if res.is_running(limit) {
        res.record(drawn);
    }
    status(res, limit)
}

/// Runs the loop on given draws in place of random ones: the draws are taken
/// in order until the first `Ancient`, the limit, or the end of `draws`.
pub fn replay(limit: u64, draws: &Vec<Rarity>) -> (res: SimulationResult)
    ensures
        outcome_of(res, limit, draws@),
        res.attempts == run_length(limit as nat, draws@),
        res.wf(),
        res.attempts <= limit,
        res.attempts <= draws@.len(),
        draws@.len() >= limit ==> is_final(res, limit),
{
    let mut res = SimulationResult::new();
    let mut i: usize = 0;
    proof {
        assert(draws@.skip(0) =~= draws@);
    }
    while i < draws.len() && res.is_running(limit)
        invariant
            i <= draws@.len(),
            res.attempts == i,
            res.attempts <= limit,
            res.wf(),
            is_tally_of(res, draws@.take(i as int)),
            res.ancient == 0 ==> i + run_length((limit - i) as nat, draws@.skip(i as int))
                == run_length(limit as nat, draws@),
            res.ancient > 0 ==> i == run_length(limit as nat, draws@),
        decreases draws@.len() - i,
    {
        let drawn = draws[i];
        proof {
            let rest = draws@.skip(i as int);
            assert(rest[0] == drawn);
            assert(rest.skip(1) =~= draws@.skip(i + 1));
            assert(draws@.take(i + 1).drop_last() =~= draws@.take(i as int));
            assert(draws@.take(i + 1).last() == drawn);
        }
        step(&mut res, limit, drawn);
        i = i + 1;
    }
    res
}

/// Runs one simulation under `limit` with random draws from the fixed
/// table. With the fixed weights it always succeeds. Whatever is drawn, the
/// record is that of a finished run: it is the tally of as many draws as it
/// has attempts, all of them recorded.
pub fn run_simulation(limit: u64) -> (r: Result<SimulationResult, SimError>)
    ensures
        r matches Ok(res) && is_final(res, limit) && exists|draws: Seq<Rarity>|
            draws.len() == res.attempts && #[trigger] outcome_of(res, limit, draws),
{
    let mut sampler = match build_distribution() {
        Ok(s) => s,
        Err(e) => {
            return Err(e);
        },
    };
    let mut res = SimulationResult::new();
    let ghost mut log: Seq<Rarity> = Seq::empty();
    while res.is_running(limit)
        invariant
            sampler.weights() == weight_table(),
            res.wf(),
            res.attempts <= limit,
            is_tally_of(res, log),
            res.ancient == 0 ==> forall|j: int|
                0 <= j < log.len() ==> #[trigger] log[j] != Rarity::Ancient,
            forall|j: int| 0 <= j < log.len() - 1 ==> #[trigger] log[j] != Rarity::Ancient,
        decreases limit - res.attempts,
    {
        let drawn = sampler.draw();
        proof {
            assert(log.push(drawn).drop_last() =~= log);
            log = log.push(drawn);
        }
        step(&mut res, limit, drawn);
    }
    proof {
        lemma_run_length_full(limit as nat, log);
        assert(log.take(log.len() as int) =~= log);
        assert(outcome_of(res, limit, log));
    }
    Ok(res)
}

} // verus!
