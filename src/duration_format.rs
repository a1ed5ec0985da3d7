//! "MM:SS" rendering of durations.
use vstd::prelude::*;

verus! {

/// Formats available for duration display.
pub enum DurationFormat {
    /// Minutes and seconds, each at least two digits wide with a leading zero
    /// ("01:15" for 75 seconds).
    MmSs,
}

/// The character of a decimal digit.
pub open spec fn digit_char(d: nat) -> char {
    if d == 0 {
        '0'
    } else if d == 1 {
        '1'
    } else if d == 2 {
        '2'
    } else if d == 3 {
        '3'
    } else if d == 4 {
        '4'
    } else if d == 5 {
        '5'
    } else if d == 6 {
        '6'
    } else if d == 7 {
        '7'
    } else if d == 8 {
        '8'
    } else {
        '9'
    }
}

/// Decimal notation of `n`, without leading zeros.
pub open spec fn decimal(n: nat) -> Seq<char>
    decreases n,
{
    if n < 10 {
        seq![digit_char(n)]
    } else {
        decimal(n / 10) + seq![digit_char(n % 10)]
    }
}

/// Decimal notation of `n`, left-padded with zeros to at least two digits.
pub open spec fn pad2(n: nat) -> Seq<char> {
    if n < 10 {
        seq!['0'] + decimal(n)
    } else {
        decimal(n)
    }
}

/// `seconds` as "MM:SS": whole minutes, a colon, the remaining seconds.
pub open spec fn mm_ss(seconds: nat) -> Seq<char> {
    pad2(seconds / 60) + seq![':'] + pad2(seconds % 60)
}

/// Whole seconds held by a duration, as `Duration::as_secs` reports them.
pub uninterp spec fn duration_secs(d: core::time::Duration) -> u64;

/// Relies on `Duration::as_secs`: the whole number of seconds of the duration,
/// which depends on the duration alone.
pub assume_specification[ core::time::Duration::as_secs ](d: &core::time::Duration) -> (r: u64)
    ensures
        r == duration_secs(*d),
;

fn digit_str(d: u64) -> (r: &'static str)
    requires
        d < 10,
    ensures
        r@ == seq![digit_char(d as nat)],
{
    proof {
        reveal_strlit("0");
        reveal_strlit("1");
        reveal_strlit("2");
        reveal_strlit("3");
        reveal_strlit("4");
        reveal_strlit("5");
        reveal_strlit("6");
        reveal_strlit("7");
        reveal_strlit("8");
        reveal_strlit("9");
    }
    if d == 0 {
        "0"
    } else if d == 1 {
        "1"
    } else if d == 2 {
        "2"
    } else if d == 3 {
        "3"
    } else if d == 4 {
        "4"
    } else if d == 5 {
        "5"
    } else if d == 6 {
        "6"
    } else if d == 7 {
        "7"
    } else if d == 8 {
        "8"
    } else {
        "9"
    }
}

fn push_decimal(out: &mut String, n: u64)
    ensures
        final(out)@ == old(out)@ + decimal(n as nat),
    decreases n,
{
    if n >= 10 {
        push_decimal(out, n / 10);
    }
    out.append(digit_str(n % 10));
    proof {
        if n >= 10 {
            assert(final(out)@ =~= old(out)@ + decimal(n as nat));
        } else {
            assert(final(out)@ =~= old(out)@ + decimal(n as nat));
        }
    }
}

fn push_pad2(out: &mut String, n: u64)
    ensures
        final(out)@ == old(out)@ + pad2(n as nat),
{
    if n < 10 {
        proof {
            reveal_strlit("0");
        }
        out.append("0");
    }
    push_decimal(out, n);
    proof {
        assert(final(out)@ =~= old(out)@ + pad2(n as nat));
    }
}

/// Renders `seconds` as "MM:SS" ("01:15" for 75; "100:00" for 6000).
pub fn format_mm_ss(seconds: u64) -> (r: String)
    ensures
        r@ == mm_ss(seconds as nat),
{
    let mut out = String::new();
    push_pad2(&mut out, seconds / 60);
    proof {
        reveal_strlit(":");
    }
    out.append(":");
    push_pad2(&mut out, seconds % 60);
    proof {
        assert(out@ =~= mm_ss(seconds as nat));
    }
    out
}

/// Text rendering of a duration in one of the formats of [`DurationFormat`].
pub trait DurationFormatter {
    /// What `format` returns for this value in the given format.
    spec fn format_spec(&self, format: DurationFormat) -> Seq<char>;

    /// Returns the text of this duration in the given format.
    fn format(&self, format: DurationFormat) -> (r: String)
        ensures
            r@ == self.format_spec(format),
    ;
}

impl DurationFormatter for core::time::Duration {
    open spec fn format_spec(&self, format: DurationFormat) -> Seq<char> {
        match format {
            DurationFormat::MmSs => mm_ss(duration_secs(*self) as nat),
        }
    }

    fn format(&self, format: DurationFormat) -> (r: String) {
        match format {
            DurationFormat::MmSs => format_mm_ss(self.as_secs()),
        }
    }
}

} // verus!
