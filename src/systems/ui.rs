//! What the interface shows: the score line and the health bar.

use vstd::prelude::*;
use vstd::string::StringExecFns;

use crate::components::Health;
use crate::resources::Score;

verus! {

/// The decimal digit of `d`, for `d < 10`.
pub open spec fn digit_char(d: nat) -> char {
    if d == 0 { '0' } else if d == 1 { '1' } else if d == 2 { '2' } else if d == 3 { '3' }
    else if d == 4 { '4' } else if d == 5 { '5' } else if d == 6 { '6' } else if d == 7 { '7' }
    else if d == 8 { '8' } else { '9' }
}

/// The decimal digits of `n`, most significant first, with no leading zero.
pub open spec fn decimal(n: nat) -> Seq<char>
    decreases n,
{
    if n < 10 {
        seq![digit_char(n)]
    } else {
        decimal(n / 10).push(digit_char(n % 10))
    }
}

/// Relies on `u32::to_string` (its `Display`): the decimal digits of `n`.
#[verifier::external_body]
fn decimal_string(n: u32) -> (r: String)
    ensures
        r@ == decimal(n as nat),
{
    n.to_string()
}

/// The score line: `Score: ` and the current score in decimal.
pub open spec fn score_line(score: Score) -> Seq<char> {
    seq!['S', 'c', 'o', 'r', 'e', ':', ' '] + decimal(score.current as nat)
}

/// Writes the score line for `score` into `text`.
pub fn update_score_display(score: &Score, text: &mut String)
    ensures
        final(text)@ == score_line(*score),
{
    let digits = decimal_string(score.current);
    let mut line = String::from_str("Score: ");
    proof {
        reveal_strlit("Score: ");
    }
    line.append(digits.as_str());
    assert(line@ =~= score_line(*score));
    *text = line;
}

/// Colour of the health bar.
#[derive(Clone, Copy, Debug, PartialEq, Eq, Structural)]
pub enum HealthColor {
    Green,
    Yellow,
    Red,
}

/// How the health bar is drawn: its filled width in whole percent, and its
/// colour.
#[derive(Clone, Copy, Debug, PartialEq, Eq, Structural)]
pub struct HealthBarStyle {
    pub width_percent: u32,
    pub color: HealthColor,
}

/// Green above 60% health, yellow above 30%, red otherwise.
pub open spec fn health_color(h: Health) -> HealthColor {
    if 10 * h.current > 6 * h.max {
        HealthColor::Green
    } else if 10 * h.current > 3 * h.max {
        HealthColor::Yellow
    } else {
        HealthColor::Red
    }
}

/// Sizes and colours the health bar after the actor's health.
pub fn update_health_bar(health: &Health, bar: &mut HealthBarStyle)
    requires
        health.wf(),
    ensures
        final(bar).width_percent == health.current * 100 / (health.max as int),
        final(bar).color == health_color(*health),
{
    let c = health.current as u64;
    let m = health.max as u64;
    let color = if 10 * c > 6 * m {
        HealthColor::Green
    } else if 10 * c > 3 * m {
        HealthColor::Yellow
    } else {
        HealthColor::Red
    };
    *bar = HealthBarStyle { width_percent: health.percentage(), color };
}

} // verus!
