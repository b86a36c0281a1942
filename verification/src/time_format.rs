//! Rendering playback times the way the track panel shows them:
//! zero-padded minutes and seconds, as in "04:09" or "112:05".

use vstd::prelude::*;

verus! {

/// The character for one decimal digit.
pub open spec fn digit_char(d: nat) -> char {
    if d == 0 {
        '0'
    } else if d == 1 {
        '1'
    } else if d == 2 {
        '2'
    } else if d == 3 {
        '3'
    } else if d == 4 {
        '4'
    } else if d == 5 {
        '5'
    } else if d == 6 {
        '6'
    } else if d == 7 {
        '7'
    } else if d == 8 {
        '8'
    } else {
        '9'
    }
}

/// The decimal digits of `n`, most significant first.
pub open spec fn spec_decimal(n: nat) -> Seq<char>
    decreases n,
{
    if n < 10 {
        seq![digit_char(n)]
    } else {
        spec_decimal(n / 10).push(digit_char(n % 10))
    }
}

/// A number zero-padded to two places: one leading zero below ten.
pub open spec fn spec_padded(n: nat) -> Seq<char> {
    if n < 10 {
        seq!['0'].add(spec_decimal(n))
    } else {
        spec_decimal(n)
    }
}

/// A playback time of `t` seconds as the panel shows it: minutes and
/// seconds, each at least two places, separated by a colon.
pub open spec fn spec_formatted_duration(t: nat) -> Seq<char> {
    spec_padded(t / 60).add(seq![':']).add(spec_padded(t % 60))
}

/// The text for one decimal digit.
fn decimal_str(d: u64) -> (s: &'static str)
    requires
        d < 10,
    ensures
        s@ == seq![digit_char(d as nat)],
{
    proof {
        reveal_strlit("0");
        reveal_strlit("1");
        reveal_strlit("2");
        reveal_strlit("3");
        reveal_strlit("4");
        reveal_strlit("5");
        reveal_strlit("6");
        reveal_strlit("7");
        reveal_strlit("8");
        reveal_strlit("9");
    }
    let s = match d {
        0 => "0",
        1 => "1",
        2 => "2",
        3 => "3",
        4 => "4",
        5 => "5",
        6 => "6",
        7 => "7",
        8 => "8",
        _ => "9",
    };
    proof {
        assert(s@ =~= seq![digit_char(d as nat)]);
    }
    s
}

/// The decimal digits of a number.
pub fn u64_to_decimal(n: u64) -> (s: String)
    ensures
        s@ == spec_decimal(n as nat),
    decreases n,
{
    if n < 10 {
        decimal_str(n).to_owned()
    } else {
        let mut s = u64_to_decimal(n / 10);
        s.append(decimal_str(n % 10));
        proof {
            assert(s@ =~= spec_decimal(n as nat));
        }
        s
    }
}

/// A playback time of `total_seconds` seconds, rendered as zero-padded
/// minutes and seconds.
pub fn formatted_duration(total_seconds: u64) -> (s: String)
    ensures
        s@ == spec_formatted_duration(total_seconds as nat),
{
    let minutes = total_seconds / 60;
    let seconds = total_seconds % 60;
    let mut s = String::new();
    proof {
        reveal_strlit("0");
        reveal_strlit(":");
    }
    if minutes < 10 {
        s.append("0");
    }
    let min_digits = u64_to_decimal(minutes);
    s.append(min_digits.as_str());
    s.append(":");
    if seconds < 10 {
        s.append("0");
    }
    let sec_digits = u64_to_decimal(seconds);
    s.append(sec_digits.as_str());
    proof {
        assert(s@ =~= spec_formatted_duration(total_seconds as nat));
    }
    s
}

} // verus!
