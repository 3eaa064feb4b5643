//! The texts of a run: the notice of each attempt and the closing summary.

use vstd::prelude::*;
use vstd::string::StringExecFns;
use crate::rarity::Rarity;
use crate::rarity::COST_PER_ATTEMPT;
use crate::tally::SimulationResult;

verus! {

/// The character of one decimal digit.
pub open spec fn digit_char(d: nat) -> char
    recommends
        d < 10,
{
    ('0' as nat + d) as char
}

/// A number written in decimal digits, without sign or leading zeros.
pub open spec fn decimal_digits(n: nat) -> Seq<char>
    decreases n,
{
    if n < 10 {
        seq![digit_char(n)]
    } else {
        decimal_digits(n / 10).push(digit_char(n % 10))
    }
}

/// A label, a number in decimal digits, and a closing text, in one line.
pub open spec fn numbered(label: Seq<char>, n: nat, tail: Seq<char>) -> Seq<char> {
    label + decimal_digits(n) + tail
}

/// What is shown when attempt number `n` begins.
pub open spec fn attempt_text(n: nat) -> Seq<char> {
    numbered("Attempt "@, n, " . . ."@)
}

/// What is shown when an attempt has given `r`.
pub open spec fn outcome_text(r: Rarity) -> Seq<char> {
    " "@ + r.spec_name() + "!"@
}

/// The lines of the summary of a run, top to bottom.
pub open spec fn summary_text(res: SimulationResult) -> Seq<Seq<char>> {
    seq![
        "=== Simulation Result ==="@,
        numbered("Cost per roll: "@, 200, " perins"@),
        numbered("Attempts until Ancient: "@, res.attempts as nat, ""@),
        numbered("Total cost: "@, res.spec_total_cost() as nat, " perins"@),
        ""@,
        numbered("Uncommon:  "@, res.uncommon as nat, ""@),
        numbered("Rare:      "@, res.rare as nat, ""@),
        numbered("Epic:      "@, res.epic as nat, ""@),
        numbered("Legendary: "@, res.legendary as nat, ""@),
        numbered("Ancient:   "@, res.ancient as nat, ""@),
    ]
}

/// Calls `to_string` of `std` on a `u128`. Trusted: the text is the number
/// in decimal digits, without sign or leading zeros.
#[verifier::external_body]
fn decimal_string(n: u128) -> (s: String)
    ensures
        s@ == decimal_digits(n as nat),
{
    n.to_string()
}

/// One line: `label`, then `n` in decimal digits, then `tail`.
pub fn numbered_line(label: &str, n: u128, tail: &str) -> (s: String)
    ensures
        s@ == numbered(label@, n as nat, tail@),
{
    let digits = decimal_string(n);
    String::from_str(label).concat(digits.as_str()).concat(tail)
}

/// The notice that attempt number `n` begins.
pub fn attempt_notice(n: u64) -> (s: String)
    ensures
        s@ == attempt_text(n as nat),
{
    numbered_line("Attempt ", n as u128, " . . .")
}

/// The notice that an attempt has given `r`.
pub fn outcome_notice(r: Rarity) -> (s: String)
    ensures
        s@ == outcome_text(r),
{
    String::from_str(" ").concat(r.name()).concat("!")
}

/// The summary of a run: a heading, the cost per attempt, the attempts
/// taken, the total cost, an empty line, and the five counters in
/// declaration order.
pub fn summary_lines(res: &SimulationResult) -> (lines: Vec<String>)
    ensures
        lines@.len() == 10,
        forall|i: int| 0 <= i < 10 ==> (#[trigger] lines@[i])@ == summary_text(*res)[i],
{
    let mut lines: Vec<String> = Vec::new();
    lines.push(String::from_str("=== Simulation Result ==="));
    lines.push(numbered_line("Cost per roll: ", COST_PER_ATTEMPT as u128, " perins"));
    lines.push(numbered_line("Attempts until Ancient: ", res.attempts as u128, ""));
    lines.push(numbered_line("Total cost: ", res.total_cost(), " perins"));
    lines.push(String::from_str(""));
    lines.push(numbered_line("Uncommon:  ", res.uncommon as u128, ""));
    lines.push(numbered_line("Rare:      ", res.rare as u128, ""));
    lines.push(numbered_line("Epic:      ", res.epic as u128, ""));
    lines.push(numbered_line("Legendary: ", res.legendary as u128, ""));
    lines.push(numbered_line("Ancient:   ", res.ancient as u128, ""));
    lines
}

} // verus!
