//! A reading of the system memory and the share of it that is in use.

use vstd::prelude::*;
use vstd::string::StringExecFns;

verus! {

/// The amount of system memory and how much of it is in use, both in bytes, at one moment.
///
/// A snapshot is replaced as a whole by the next reading. Nothing ties `used` to `total`: both
/// come from the system as they are.
#[derive(Clone, Copy, Debug, PartialEq, Eq, Structural)]
pub struct MemorySnapshot {
    /// Bytes of memory that the system has.
    pub total: u64,
    /// Bytes of memory that are in use.
    pub used: u64,
}

/// The share of `total` that `used` takes, in whole percent, rounded down.
///
/// With no memory at all the share is 0, and a share of more than 255 percent counts as 255.
pub open spec fn percent_of(used: nat, total: nat) -> nat {
    if total == 0 {
        0
    } else if 100 * used / total > 255 {
        255
    } else {
        100 * used / total
    }
}

/// The character that stands for the digit `d`.
pub open spec fn digit(d: nat) -> char
    recommends
        d < 10,
{
    seq!['0', '1', '2', '3', '4', '5', '6', '7', '8', '9'][d as int]
}

/// `n` written in base ten, without leading zeros.
pub open spec fn decimal(n: nat) -> Seq<char>
    decreases n,
{
    if n < 10 {
        seq![digit(n)]
    } else {
        decimal(n / 10).push(digit(n % 10))
    }
}

/// The text of the panel's label for a share of `percent`: the number, then a percent sign.
pub open spec fn percent_text(percent: nat) -> Seq<char> {
    decimal(percent).push('%')
}

impl MemorySnapshot {
    /// The snapshot of a system of which nothing is known: no memory, none in use.
    pub open spec fn spec_empty() -> MemorySnapshot {
        MemorySnapshot { total: 0, used: 0 }
    }

    /// The snapshot of a system of which nothing is known: no memory, none in use. Its share in
    /// use is 0 percent.
    #[verifier::when_used_as_spec(spec_empty)]
    pub fn empty() -> (snapshot: MemorySnapshot)
        ensures
            snapshot == MemorySnapshot::spec_empty(),
    {
        MemorySnapshot { total: 0, used: 0 }
    }

    /// The used share of this snapshot in whole percent.
    pub open spec fn spec_percentage(&self) -> nat {
        percent_of(self.used as nat, self.total as nat)
    }

    /// Computes the used share in whole percent, rounded down and capped at 255; 0 when the
    /// snapshot holds no memory at all.
    pub fn percentage(&self) -> (percent: u8)
        ensures
            percent == self.spec_percentage(),
            0 < self.total && self.used <= self.total ==> {
                &&& percent == 100 * (self.used as nat) / (self.total as nat)
                &&& percent <= 100
            },
    {
        if self.total == 0 {
            return 0;
        }
        let share: u128 = (self.used as u128) * 100 / (self.total as u128);
        proof {
            if self.used <= self.total {
                lemma_share_of_part(self.used as nat, self.total as nat);
            }
        }
        if share > 255 {
            255
        } else {
            share as u8
        }
    }

    /// The text of the panel's label for this snapshot, such as `50%`.
    pub fn label(&self) -> (text: String)
        ensures
            text@ == percent_text(self.spec_percentage()),
            0 < self.total && self.used <= self.total ==> text@ == percent_text(
                100 * (self.used as nat) / (self.total as nat),
            ),
    {
        percent_label(self.percentage())
    }
}

/// A part of a whole is at most 100 percent of it.
pub proof fn lemma_share_of_part(used: nat, total: nat)
    requires
        0 < total,
        used <= total,
    ensures
        percent_of(used, total) == 100 * used / total,
        percent_of(used, total) <= 100,
{
    assert(100 * used / total <= 100) by (nonlinear_arith)
        requires
            0 < total,
            used <= total,
    ;
}

/// The one-character string for the digit `d`.
fn digit_str(d: u8) -> (s: &'static str)
    requires
        d < 10,
    ensures
        s@ == seq![digit(d as nat)],
{
    proof {
        reveal_strlit("0");
        reveal_strlit("1");
        reveal_strlit("2");
        reveal_strlit("3");
        reveal_strlit("4");
        reveal_strlit("5");
        reveal_strlit("6");
        reveal_strlit("7");
        reveal_strlit("8");
        reveal_strlit("9");
    }
    let s = match d {
        0 => "0",
        1 => "1",
        2 => "2",
        3 => "3",
        4 => "4",
        5 => "5",
        6 => "6",
        7 => "7",
        8 => "8",
        _ => "9",
    };
    s
}

/// Writes the label for a share of `percent`: its decimal digits, then a percent sign.
pub fn percent_label(percent: u8) -> (text: String)
    ensures
        text@ == percent_text(percent as nat),
{
    let mut text = String::new();
    if percent >= 100 {
        text.append(digit_str(percent / 100));
    }
    if percent >= 10 {
        text.append(digit_str(percent / 10 % 10));
    }
    text.append(digit_str(percent % 10));
    proof {
        reveal_with_fuel(decimal, 3);
        reveal_strlit("%");
    }
    text.append("%");
    text
}

} // verus!
