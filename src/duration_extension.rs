use vstd::prelude::*;

verus! {

/// A span of time in whole seconds.
#[derive(Clone, Copy, Debug, PartialEq, Eq, Structural)]
pub struct ClockDuration {
    secs: u64,
}

impl View for ClockDuration {
    type V = nat;

    closed spec fn view(&self) -> nat {
        self.secs as nat
    }
}

impl ClockDuration {
    pub fn from_secs(secs: u64) -> (r: ClockDuration)
        ensures
            r@ == secs as nat,
    {
        ClockDuration { secs }
    }

    pub fn as_secs(&self) -> (r: u64)
        ensures
            r as nat == self@,
    {
        self.secs
    }
}

/// A duration split into whole minutes and the seconds left over.
pub trait TimeDurationExt {
    spec fn total_secs(&self) -> nat;

    fn as_minutes(&self) -> (r: u64)
        ensures
            r as nat == self.total_secs() / 60,
    ;

    fn as_seconds(&self) -> (r: u64)
        ensures
            r as nat == self.total_secs() % 60,
    ;
}

impl TimeDurationExt for ClockDuration {
    open spec fn total_secs(&self) -> nat {
        self@
    }

    fn as_minutes(&self) -> (r: u64) {
        self.as_secs() / 60
    }

    fn as_seconds(&self) -> (r: u64) {
        self.as_secs() % 60
    }
}

/// The decimal digit for `d`, which is below ten.
pub open spec fn digit_char(d: nat) -> char {
    seq!['0', '1', '2', '3', '4', '5', '6', '7', '8', '9'][d as int]
}

/// The decimal digits of `n`, without leading zeros.
pub open spec fn decimal(n: nat) -> Seq<char>
    decreases n,
{
    if n < 10 {
        seq![digit_char(n)]
    } else {
        decimal(n / 10).push(digit_char(n % 10))
    }
}

/// The decimal digits of `n`, padded with a zero to at least two.
pub open spec fn two_digits(n: nat) -> Seq<char> {
    if n < 10 {
        seq!['0', digit_char(n)]
    } else {
        decimal(n)
    }
}

/// `secs` as minutes and seconds, `MM:SS`, each part at least two digits.
pub open spec fn clock_text(secs: nat) -> Seq<char> {
    two_digits(secs / 60) + seq![':'] + two_digits(secs % 60)
}

fn digit_str(d: u64) -> (r: &'static str)
    requires
        d < 10,
    ensures
        r@ == seq![digit_char(d as nat)],
{
    proof {
        reveal_strlit("0");
        reveal_strlit("1");
        reveal_strlit("2");
        reveal_strlit("3");
        reveal_strlit("4");
        reveal_strlit("5");
        reveal_strlit("6");
        reveal_strlit("7");
        reveal_strlit("8");
        reveal_strlit("9");
    }
    match d {
        0 => "0",
        1 => "1",
        2 => "2",
        3 => "3",
        4 => "4",
        5 => "5",
        6 => "6",
        7 => "7",
        8 => "8",
        _ => "9",
    }
}

fn push_decimal(out: &mut String, n: u64)
    ensures
        final(out)@ == old(out)@ + decimal(n as nat),
    decreases n,
{
    if n >= 10 {
        push_decimal(out, n / 10);
    }
    out.append(digit_str(n % 10));
    proof {
        assert(old(out)@ + decimal(n as nat) =~= old(out)@ + (if n >= 10 {
            decimal((n / 10) as nat)
        } else {
            Seq::empty()
        }) + seq![digit_char((n % 10) as nat)]);
    }
}

fn push_two_digits(out: &mut String, n: u64)
    ensures
        final(out)@ == old(out)@ + two_digits(n as nat),
{
    if n < 10 {
        proof {
            reveal_strlit("0");
        }
        out.append("0");
    }
    push_decimal(out, n);
    proof {
        if n < 10 {
            assert(two_digits(n as nat) =~= seq!['0'] + decimal(n as nat));
        }
    }
}

/// A number of seconds as the `MM:SS` label of a countdown.
pub fn format_remaining(secs: u32) -> (r: String)
    ensures
        r@ == clock_text(secs as nat),
{
    let remaining = ClockDuration::from_secs(secs as u64);
    let mut out = String::new();
    push_two_digits(&mut out, remaining.as_minutes());
    proof {
        reveal_strlit(":");
    }
    out.append(":");
    push_two_digits(&mut out, remaining.as_seconds());
    proof {
        assert(out@ =~= clock_text(secs as nat));
    }
    out
}

} // verus!
