//! Elapsed time as words: `"1 year, 3 days, 1 hour"`.

use vstd::prelude::*;
use vstd::string::StringExecFns;

verus! {

/// The decimal digits of `n`, most significant first, with no leading zero.
pub open spec fn decimal(n: nat) -> Seq<char>
    decreases n,
{
    if n < 10 {
        seq![(n + 48) as char]
    } else {
        decimal(n / 10).push(((n % 10) + 48) as char)
    }
}

/// `n` in decimal, with a leading `-` when negative.
pub open spec fn signed_decimal(n: int) -> Seq<char> {
    if n < 0 {
        seq!['-'] + decimal((-n) as nat)
    } else {
        decimal(n as nat)
    }
}

/// `"<n> <name>"`, with an `s` after the name unless `n` is one.
pub open spec fn unit_text(n: int, name: Seq<char>) -> Seq<char> {
    signed_decimal(n) + seq![' '] + name + if n != 1 {
        seq!['s']
    } else {
        Seq::empty()
    }
}

/// The parts joined with `", "`.
pub open spec fn join(parts: Seq<Seq<char>>) -> Seq<char>
    decreases parts.len(),
{
    if parts.len() == 0 {
        Seq::empty()
    } else if parts.len() == 1 {
        parts[0]
    } else {
        join(parts.drop_last()) + seq![',', ' '] + parts.last()
    }
}

/// The nonzero units of a non-negative duration of `s` seconds, largest first:
/// years of 365 days, then days, hours, minutes and seconds; the seconds also
/// where nothing else would be shown. A negative duration shows only its
/// (negative) seconds within the minute.
pub open spec fn duration_parts(s: int) -> Seq<Seq<char>> {
    if s < 0 {
        seq![unit_text(-((-s) % 60), seq!['s', 'e', 'c', 'o', 'n', 'd'])]
    } else {
        let years = s / 86400 / 365;
        let days = s / 86400 % 365;
        let hours = s / 3600 % 24;
        let minutes = s / 60 % 60;
        let seconds = s % 60;
        let upto_years = if years > 0 {
            seq![unit_text(years, seq!['y', 'e', 'a', 'r'])]
        } else {
            Seq::empty()
        };
        let upto_days = upto_years + if days > 0 {
            seq![unit_text(days, seq!['d', 'a', 'y'])]
        } else {
            Seq::empty()
        };
        let upto_hours = upto_days + if hours > 0 {
            seq![unit_text(hours, seq!['h', 'o', 'u', 'r'])]
        } else {
            Seq::empty()
        };
        let upto_minutes = upto_hours + if minutes > 0 {
            seq![unit_text(minutes, seq!['m', 'i', 'n', 'u', 't', 'e'])]
        } else {
            Seq::empty()
        };
        upto_minutes + if seconds > 0 || upto_minutes.len() == 0 {
            seq![unit_text(seconds, seq!['s', 'e', 'c', 'o', 'n', 'd'])]
        } else {
            Seq::empty()
        }
    }
}

/// The one-character text of the digit `d`.
fn digit_text(d: u64) -> (r: &'static str)
    requires
        d < 10,
    ensures
        r@ == seq![(d + 48) as char],
{
    proof {
        reveal_strlit("0");
        reveal_strlit("1");
        reveal_strlit("2");
        reveal_strlit("3");
        reveal_strlit("4");
        reveal_strlit("5");
        reveal_strlit("6");
        reveal_strlit("7");
        reveal_strlit("8");
        reveal_strlit("9");
    }
    let r = match d {
        0 => "0",
        1 => "1",
        2 => "2",
        3 => "3",
        4 => "4",
        5 => "5",
        6 => "6",
        7 => "7",
        8 => "8",
        _ => "9",
    };
    assert(r@ =~= seq![(d + 48) as char]);
    r
}

/// Appends the decimal digits of `n` to `out`.
fn push_decimal(out: &mut String, n: u64)
    ensures
        final(out)@ == old(out)@ + decimal(n as nat),
    decreases n,
{
    if n >= 10 {
        push_decimal(out, n / 10);
    }
    out.append(digit_text(n % 10));
    assert(out@ =~= old(out)@ + decimal(n as nat));
}

/// Appends `n` in decimal to `out`, with a leading `-` when negative.
fn push_signed_decimal(out: &mut String, n: i64)
    ensures
        final(out)@ == old(out)@ + signed_decimal(n as int),
{
    if n < 0 {
        proof {
            reveal_strlit("-");
        }
        out.append("-");
        let m: u64 = (-(n as i128)) as u64;
        push_decimal(out, m);
        assert(out@ =~= old(out)@ + signed_decimal(n as int));
    } else {
        push_decimal(out, n as u64);
    }
}

proof fn lemma_join_push(parts: Seq<Seq<char>>, p: Seq<char>)
    ensures
        join(parts.push(p)) == join(parts) + (if parts.len() == 0 {
            Seq::<char>::empty()
        } else {
            seq![',', ' ']
        }) + p,
{
    assert(parts.push(p).drop_last() =~= parts);
    if parts.len() == 0 {
        assert(join(parts.push(p)) == p);
        assert(join(parts) + Seq::<char>::empty() + p =~= p);
    }
}

/// Appends `unit_text(n, name)` to `out`, after `", "` unless `first`.
fn push_unit(out: &mut String, first: bool, n: i64, name: &str)
    ensures
        final(out)@ == old(out)@ + (if first {
            Seq::<char>::empty()
        } else {
            seq![',', ' ']
        }) + unit_text(n as int, name@),
{
    proof {
        reveal_strlit(", ");
        reveal_strlit(" ");
        reveal_strlit("s");
    }
    if !first {
        out.append(", ");
    }
    push_signed_decimal(out, n);
    out.append(" ");
    out.append(name);
    if n != 1 {
        out.append("s");
    }
    assert(out@ =~= old(out)@ + (if first {
        Seq::<char>::empty()
    } else {
        seq![',', ' ']
    }) + unit_text(n as int, name@));
}

/// A duration of `seconds` in words, as `duration_parts` lists them.
pub fn format_duration(seconds: i64) -> (r: String)
    ensures
        r@ == join(duration_parts(seconds as int)),
{
    proof {
        reveal_strlit("year");
        reveal_strlit("day");
        reveal_strlit("hour");
        reveal_strlit("minute");
        reveal_strlit("second");
        assert("year"@ =~= seq!['y', 'e', 'a', 'r']);
        assert("day"@ =~= seq!['d', 'a', 'y']);
        assert("hour"@ =~= seq!['h', 'o', 'u', 'r']);
        assert("minute"@ =~= seq!['m', 'i', 'n', 'u', 't', 'e']);
        assert("second"@ =~= seq!['s', 'e', 'c', 'o', 'n', 'd']);
    }
    let mut out = String::new();
    if seconds < 0 {
        let m: i128 = -(seconds as i128);
        let sec: i64 = -((m % 60) as i64);
        push_unit(&mut out, true, sec, "second");
        assert(join(duration_parts(seconds as int)) == unit_text(sec as int, "second"@));
        assert(out@ =~= join(duration_parts(seconds as int)));
        return out;
    }
    let s: i64 = seconds;
    let years: i64 = s / 86400 / 365;
    let days: i64 = s / 86400 % 365;
    let hours: i64 = s / 3600 % 24;
    let minutes: i64 = s / 60 % 60;
    let secs: i64 = s % 60;
    let ghost mut parts: Seq<Seq<char>> = Seq::empty();
    let mut first = true;
    if years > 0 {
        push_unit(&mut out, first, years, "year");
        proof {
            lemma_join_push(parts, unit_text(years as int, "year"@));
            parts = parts.push(unit_text(years as int, "year"@));
        }
        first = false;
    }
    let ghost upto_years = if years > 0 {
        seq![unit_text(years as int, "year"@)]
    } else {
        Seq::<Seq<char>>::empty()
    };
    assert(parts =~= upto_years);
    assert(first == (parts.len() == 0));
    if days > 0 {
        push_unit(&mut out, first, days, "day");
        proof {
            lemma_join_push(parts, unit_text(days as int, "day"@));
            parts = parts.push(unit_text(days as int, "day"@));
        }
        first = false;
    }
    let ghost upto_days = upto_years + if days > 0 {
        seq![unit_text(days as int, "day"@)]
    } else {
        Seq::<Seq<char>>::empty()
    };
    assert(parts =~= upto_days);
    assert(first == (parts.len() == 0));
    if hours > 0 {
        push_unit(&mut out, first, hours, "hour");
        proof {
            lemma_join_push(parts, unit_text(hours as int, "hour"@));
            parts = parts.push(unit_text(hours as int, "hour"@));
        }
        first = false;
    }
    let ghost upto_hours = upto_days + if hours > 0 {
        seq![unit_text(hours as int, "hour"@)]
    } else {
        Seq::<Seq<char>>::empty()
    };
    assert(parts =~= upto_hours);
    assert(first == (parts.len() == 0));
    if minutes > 0 {
        push_unit(&mut out, first, minutes, "minute");
        proof {
            lemma_join_push(parts, unit_text(minutes as int, "minute"@));
            parts = parts.push(unit_text(minutes as int, "minute"@));
        }
        first = false;
    }
    let ghost upto_minutes = upto_hours + if minutes > 0 {
        seq![unit_text(minutes as int, "minute"@)]
    } else {
        Seq::<Seq<char>>::empty()
    };
    assert(parts =~= upto_minutes);
    assert(first == (parts.len() == 0));
    if secs > 0 || first {
        push_unit(&mut out, first, secs, "second");
        proof {
            lemma_join_push(parts, unit_text(secs as int, "second"@));
            parts = parts.push(unit_text(secs as int, "second"@));
        }
    }
    assert(parts =~= duration_parts(seconds as int));
    out
}

} // verus!
