//! Elapsed wall-clock time and its `HH:MM:SS` rendering.

use vstd::prelude::*;
use vstd::string::StringExecFns;

verus! {

/// The decimal digit character for a value below ten.
pub open spec fn digit_char(n: int) -> char {
    if n == 0 {
        '0'
    } else if n == 1 {
        '1'
    } else if n == 2 {
        '2'
    } else if n == 3 {
        '3'
    } else if n == 4 {
        '4'
    } else if n == 5 {
        '5'
    } else if n == 6 {
        '6'
    } else if n == 7 {
        '7'
    } else if n == 8 {
        '8'
    } else {
        '9'
    }
}

/// The decimal digits of a non-negative number, most significant first.
pub open spec fn dec_of(n: int) -> Seq<char>
    decreases n,
{
    if n < 10 {
        seq![digit_char(n)]
    } else {
        dec_of(n / 10).push(digit_char(n % 10))
    }
}

/// A number rendered with at least two digits: values below ten get a
/// leading zero, larger values keep all their digits.
pub open spec fn pad2_of(n: int) -> Seq<char> {
    if n < 10 {
        seq!['0', digit_char(n)]
    } else {
        dec_of(n)
    }
}

/// A non-negative second count rendered as `HH:MM:SS`: hours unbounded,
/// every field zero-padded to two digits.
pub open spec fn elapsed_of(total: int) -> Seq<char> {
    pad2_of(total / 3600) + seq![':'] + pad2_of((total / 60) % 60) + seq![':'] + pad2_of(
        total % 60,
    )
}

fn push_digit(out: &mut String, d: u64)
    requires
        d <= 9,
    ensures
        final (out)@ == old(out)@.push(digit_char(d as int)),
{
    proof {
        reveal_strlit("0");
        reveal_strlit("1");
        reveal_strlit("2");
        reveal_strlit("3");
        reveal_strlit("4");
        reveal_strlit("5");
        reveal_strlit("6");
        reveal_strlit("7");
        reveal_strlit("8");
        reveal_strlit("9");
    }
    if d == 0 {
        out.append("0");
    } else if d == 1 {
        out.append("1");
    } else if d == 2 {
        out.append("2");
    } else if d == 3 {
        out.append("3");
    } else if d == 4 {
        out.append("4");
    } else if d == 5 {
        out.append("5");
    } else if d == 6 {
        out.append("6");
    } else if d == 7 {
        out.append("7");
    } else if d == 8 {
        out.append("8");
    } else {
        out.append("9");
    }
    proof {
        assert(final (out)@ =~= old(out)@.push(digit_char(d as int)));
    }
}

fn push_decimal(out: &mut String, n: u64)
    ensures
        final (out)@ == old(out)@ + dec_of(n as int),
    decreases n,
{
    if n < 10 {
        push_digit(out, n);
        proof {
            assert(final (out)@ =~= old(out)@ + dec_of(n as int));
        }
    } else {
        push_decimal(out, n / 10);
        push_digit(out, n % 10);
        proof {
            assert(final (out)@ =~= old(out)@ + dec_of(n as int));
        }
    }
}

fn push_pad2(out: &mut String, n: u64)
    ensures
        final (out)@ == old(out)@ + pad2_of(n as int),
{
    if n < 10 {
        proof {
            reveal_strlit("0");
        }
        out.append("0");
        push_digit(out, n);
        proof {
            assert(final (out)@ =~= old(out)@ + pad2_of(n as int));
        }
    } else {
        push_decimal(out, n);
    }
}

/// An elapsed duration, counted in whole seconds.
pub struct TimeDelta {
    seconds: i64,
}

impl TimeDelta {
    pub closed spec fn num_seconds_spec(&self) -> int {
        self.seconds as int
    }

    /// A duration of the given number of seconds.
    pub fn seconds(seconds: i64) -> (delta: TimeDelta)
        ensures
            delta.num_seconds_spec() == seconds as int,
    {
        TimeDelta { seconds }
    }

    pub fn num_seconds(&self) -> (seconds: i64)
        ensures
            seconds as int == self.num_seconds_spec(),
    {
        self.seconds
    }

    /// The duration rendered as `HH:MM:SS`, zero-padded, hours unbounded.
    pub fn format(&self) -> (rendered: String)
        requires
            self.num_seconds_spec() >= 0,
        ensures
            rendered@ == elapsed_of(self.num_seconds_spec()),
    {
        let total: u64 = self.seconds as u64;
        let hours = total / 3600;
        let minutes = (total / 60) % 60;
        let secs = total % 60;
        let mut out = String::new();
        push_pad2(&mut out, hours);
        out.append(":");
        push_pad2(&mut out, minutes);
        out.append(":");
        push_pad2(&mut out, secs);
        proof {
            reveal_strlit(":");
            assert(out@ =~= elapsed_of(self.num_seconds_spec()));
        }
        out
    }
}

} // verus!
