//! What holds of every run, stated over the model of the draw loop.

use vstd::prelude::*;
use crate::config::decimal_value;
use crate::config::is_digit;
use crate::config::parsed_u64;
use crate::rarity::Rarity;
use crate::report::decimal_digits;
use crate::report::digit_char;
use crate::simulation::is_final;
use crate::simulation::is_tally_of;
use crate::simulation::occurrences;
use crate::simulation::outcome_of;
use crate::simulation::run_length;
use crate::tally::SimulationResult;

verus! {

/// A run records no more draws than the limit allows or than there are.
pub proof fn lemma_run_length_bounds(limit: nat, draws: Seq<Rarity>)
    ensures
        run_length(limit, draws) <= limit,
        run_length(limit, draws) <= draws.len(),
    decreases draws.len(),
{
    if limit != 0 && draws.len() != 0 && draws[0] != Rarity::Ancient {
        lemma_run_length_bounds((limit - 1) as nat, draws.skip(1));
    }
}

/// Among the draws that a run records, only the last can be `Ancient`.
pub proof fn lemma_ancient_only_last(limit: nat, draws: Seq<Rarity>)
    ensures
        forall|j: int|
            0 <= j < run_length(limit, draws) - 1 ==> #[trigger] draws[j] != Rarity::Ancient,
    decreases draws.len(),
{
    if limit != 0 && draws.len() != 0 && draws[0] != Rarity::Ancient {
        let rest = draws.skip(1);
        lemma_ancient_only_last((limit - 1) as nat, rest);
        lemma_run_length_bounds(limit, draws);
        assert forall|j: int| 0 <= j < run_length(limit, draws) - 1 implies #[trigger] draws[j]
            != Rarity::Ancient by {
            if j > 0 {
                assert(rest[j - 1] == draws[j]);
            }
        }
    }
}

/// Draws that hold no `Ancient` before their last one, and fit the limit,
/// are all recorded.
pub proof fn lemma_run_length_full(limit: nat, draws: Seq<Rarity>)
    requires
        draws.len() <= limit,
        forall|j: int| 0 <= j < draws.len() - 1 ==> #[trigger] draws[j] != Rarity::Ancient,
    ensures
        run_length(limit, draws) == draws.len(),
    decreases draws.len(),
{
    if draws.len() > 1 {
        let rest = draws.skip(1);
        assert(draws[0] != Rarity::Ancient);
        assert forall|j: int| 0 <= j < rest.len() - 1 implies #[trigger] rest[j]
            != Rarity::Ancient by {
            assert(rest[j] == draws[j + 1]);
        }
        lemma_run_length_full((limit - 1) as nat, rest);
    } else if draws.len() == 1 {
        assert(draws.skip(1).len() == 0);
        assert(run_length((limit - 1) as nat, draws.skip(1)) == 0);
    }
}

/// A category that no draw shows is counted zero times.
pub proof fn lemma_absent_counts_zero(draws: Seq<Rarity>, r: Rarity)
    requires
        forall|j: int| 0 <= j < draws.len() ==> #[trigger] draws[j] != r,
    ensures
        occurrences(draws, r) == 0,
    decreases draws.len(),
{
    if draws.len() > 0 {
        lemma_absent_counts_zero(draws.drop_last(), r);
    }
}

/// Every draw is counted under exactly one category: the five counts add up
/// to the number of draws.
pub proof fn lemma_occurrences_total(draws: Seq<Rarity>)
    ensures
        occurrences(draws, Rarity::Uncommon) + occurrences(draws, Rarity::Rare) + occurrences(
            draws,
            Rarity::Epic,
        ) + occurrences(draws, Rarity::Legendary) + occurrences(draws, Rarity::Ancient)
            == draws.len(),
    decreases draws.len(),
{
    if draws.len() > 0 {
        lemma_occurrences_total(draws.drop_last());
    }
}

/// The counters of a tally sum exactly to its attempts.
pub proof fn lemma_counters_sum_to_attempts(res: SimulationResult, draws: Seq<Rarity>)
    requires
        is_tally_of(res, draws),
    ensures
        res.counted() == res.attempts,
{
    lemma_occurrences_total(draws);
}

/// Under any limit the attempts of a run stay within the limit, and its
/// counters sum exactly to its attempts.
pub proof fn lemma_attempts_within_limit(res: SimulationResult, limit: u64, draws: Seq<Rarity>)
    requires
        outcome_of(res, limit, draws),
    ensures
        res.attempts <= limit,
        res.attempts == run_length(limit as nat, draws),
        res.counted() == res.attempts,
{
    lemma_run_length_bounds(limit as nat, draws);
    lemma_counters_sum_to_attempts(res, draws.take(run_length(limit as nat, draws) as int));
}

/// A run whose last recorded draw is not `Ancient`, or that recorded none,
/// ended on the limit or on the end of the draws: its `Ancient` counter is
/// zero. A run whose last recorded draw is `Ancient` has counted it once.
pub proof fn lemma_ancient_counter(res: SimulationResult, limit: u64, draws: Seq<Rarity>)
    requires
        outcome_of(res, limit, draws),
    ensures
        res.attempts == 0 || draws[res.attempts - 1] != Rarity::Ancient ==> res.ancient == 0,
        res.attempts > 0 && draws[res.attempts - 1] == Rarity::Ancient ==> res.ancient == 1,
        res.ancient == 0 && draws.len() >= limit ==> res.attempts == limit,
{
    let n = run_length(limit as nat, draws);
    lemma_run_length_bounds(limit as nat, draws);
    lemma_ancient_only_last(limit as nat, draws);
    let taken = draws.take(n as int);
    if n > 0 {
        let before = taken.drop_last();
        assert forall|j: int| 0 <= j < before.len() implies #[trigger] before[j]
            != Rarity::Ancient by {
            assert(before[j] == draws[j]);
        }
        lemma_absent_counts_zero(before, Rarity::Ancient);
        assert(taken.last() == draws[n - 1]);
        if draws[n - 1] != Rarity::Ancient && draws.len() >= limit {
            lemma_no_ancient_uses_limit(limit as nat, draws, n);
        }
    } else {
        lemma_no_ancient_uses_limit(limit as nat, draws, n);
    }
}

/// A run that stopped after `n` draws none of which is `Ancient` stopped
/// because the limit or the draws were used up.
pub proof fn lemma_no_ancient_uses_limit(limit: nat, draws: Seq<Rarity>, n: nat)
    requires
        n == run_length(limit, draws),
        forall|j: int| 0 <= j < n ==> #[trigger] draws[j] != Rarity::Ancient,
    ensures
        n == limit || n == draws.len(),
    decreases draws.len(),
{
    if limit != 0 && draws.len() != 0 {
        lemma_run_length_bounds(limit, draws);
        assert(draws[0] != Rarity::Ancient);
        let rest = draws.skip(1);
        assert forall|j: int| 0 <= j < n - 1 implies #[trigger] rest[j] != Rarity::Ancient by {
            assert(rest[j] == draws[j + 1]);
        }
        lemma_no_ancient_uses_limit((limit - 1) as nat, rest, (n - 1) as nat);
    }
}

/// If the first `Ancient` is draw number `k` and `k` is within the limit,
/// the run stops at exactly `k` attempts, with `Ancient` counted once.
pub proof fn lemma_stops_at_first_ancient(
    res: SimulationResult,
    limit: u64,
    draws: Seq<Rarity>,
    k: nat,
)
    requires
        outcome_of(res, limit, draws),
        1 <= k <= limit,
        k <= draws.len(),
        draws[k - 1] == Rarity::Ancient,
        forall|j: int| 0 <= j < k - 1 ==> #[trigger] draws[j] != Rarity::Ancient,
    ensures
        res.attempts == k,
        res.ancient == 1,
{
    lemma_first_ancient_run_length(limit as nat, draws, k);
    lemma_ancient_counter(res, limit, draws);
}

/// The run length is the position of the first `Ancient`, counted from one,
/// where that position is within the limit.
pub proof fn lemma_first_ancient_run_length(limit: nat, draws: Seq<Rarity>, k: nat)
    requires
        1 <= k <= limit,
        k <= draws.len(),
        draws[k - 1] == Rarity::Ancient,
        forall|j: int| 0 <= j < k - 1 ==> #[trigger] draws[j] != Rarity::Ancient,
    ensures
        run_length(limit, draws) == k,
    decreases k,
{
    if k > 1 {
        let rest = draws.skip(1);
        assert(draws[0] != Rarity::Ancient);
        assert(rest[k - 2] == draws[k - 1]);
        assert forall|j: int| 0 <= j < k - 2 implies #[trigger] rest[j] != Rarity::Ancient by {
            assert(rest[j] == draws[j + 1]);
        }
        lemma_first_ancient_run_length((limit - 1) as nat, rest, (k - 1) as nat);
    }
}

/// A run on at least as many draws as the limit ends as a finished run: its
/// record is well formed, within the limit, and without an `Ancient` only
/// when the limit is used up.
pub proof fn lemma_outcome_is_final(res: SimulationResult, limit: u64, draws: Seq<Rarity>)
    requires
        outcome_of(res, limit, draws),
        draws.len() >= limit,
    ensures
        is_final(res, limit),
{
    lemma_attempts_within_limit(res, limit, draws);
    lemma_ancient_counter(res, limit, draws);
}

/// A number written in decimal digits is one digit or more, digits only,
/// and stands for that number.
pub proof fn lemma_digits_read_back(n: nat)
    ensures
        decimal_digits(n).len() > 0,
        forall|i: int| 0 <= i < decimal_digits(n).len() ==> is_digit(#[trigger] decimal_digits(n)[i]),
        decimal_value(decimal_digits(n)) == n,
    decreases n,
{
    if n >= 10 {
        let front = decimal_digits(n / 10);
        let c = digit_char(n % 10);
        lemma_digits_read_back(n / 10);
        assert(front.push(c).drop_last() =~= front);
        assert(front.push(c).last() == c);
        assert(is_digit(c));
    } else {
        let c = digit_char(n);
        assert(seq![c].drop_last() =~= Seq::<char>::empty());
        assert(decimal_value(Seq::<char>::empty()) == 0);
        assert(seq![c].last() == c);
        assert(is_digit(c));
    }
}

/// A limit written in decimal digits is read back as that limit.
pub proof fn lemma_written_limit_reads_back(n: u64)
    ensures
        parsed_u64(decimal_digits(n as nat)) == Some(n),
{
    lemma_digits_read_back(n as nat);
    assert(is_digit(decimal_digits(n as nat)[0]));
}

/// The total cost of a run is its attempts times 200, and fits in 128 bits.
pub proof fn lemma_total_cost(res: SimulationResult)
    ensures
        res.spec_total_cost() == res.attempts * 200,
        0 <= res.spec_total_cost() <= u128::MAX,
{
    assert(res.attempts * 200 <= 0xFFFF_FFFF_FFFF_FFFF * 200) by (nonlinear_arith)
        requires
            res.attempts <= 0xFFFF_FFFF_FFFF_FFFF,
    ;
}

} // verus!
