//! Calendar dates as plain values, and their `YYYY-MM-DD` text.

use vstd::prelude::*;

verus! {

/// A local calendar date.
#[derive(Clone, Copy, Debug, PartialEq, Eq, Structural)]
pub struct LocalDate {
    pub year: i32,
    pub month: u32,
    pub day: u32,
}

impl LocalDate {
    /// Month in 1..=12 and day in 1..=31.
    pub open spec fn wf(self) -> bool {
        1 <= self.month <= 12 && 1 <= self.day <= 31
    }
}

/// The character of a decimal digit.
pub open spec fn digit_char(d: nat) -> char {
    if d == 0 {
        '0'
    } else if d == 1 {
        '1'
    } else if d == 2 {
        '2'
    } else if d == 3 {
        '3'
    } else if d == 4 {
        '4'
    } else if d == 5 {
        '5'
    } else if d == 6 {
        '6'
    } else if d == 7 {
        '7'
    } else if d == 8 {
        '8'
    } else {
        '9'
    }
}

/// The decimal digits of `n`, without leading zeros.
pub open spec fn decimal(n: nat) -> Seq<char>
    decreases n,
{
    if n < 10 {
        seq![digit_char(n)]
    } else {
        decimal(n / 10).push(digit_char(n % 10))
    }
}

/// `k` zeros.
pub open spec fn zeros(k: nat) -> Seq<char> {
    Seq::new(k, |i: int| '0')
}

/// The decimal digits of `n`, led by zeros up to at least `width` characters.
pub open spec fn padded(n: nat, width: nat) -> Seq<char> {
    if decimal(n).len() < width {
        zeros((width - decimal(n).len()) as nat) + decimal(n)
    } else {
        decimal(n)
    }
}

/// A year as four digits at least; a year before 0 or after 9999 carries its sign.
pub open spec fn year_text(y: int) -> Seq<char> {
    if 0 <= y <= 9999 {
        padded(y as nat, 4)
    } else if y < 0 {
        seq!['-'] + padded((-y) as nat, 4)
    } else {
        seq!['+'] + padded(y as nat, 4)
    }
}

/// `YYYY-MM-DD`.
pub open spec fn date_text(d: LocalDate) -> Seq<char> {
    year_text(d.year as int) + seq!['-'] + padded(d.month as nat, 2) + seq!['-'] + padded(
        d.day as nat,
        2,
    )
}

proof fn lemma_decimal_len(n: nat)
    ensures
        decimal(n).len() >= 1,
        n < 10 ==> decimal(n).len() == 1,
        10 <= n < 100 ==> decimal(n).len() == 2,
        100 <= n < 1000 ==> decimal(n).len() == 3,
        1000 <= n ==> decimal(n).len() >= 4,
    decreases n,
{
    if n >= 10 {
        lemma_decimal_len(n / 10);
    }
}

fn digit_str(d: u32) -> (r: &'static str)
    requires
        d < 10,
    ensures
        r@ == seq![digit_char(d as nat)],
{
    proof {
        reveal_strlit("0");
        reveal_strlit("1");
        reveal_strlit("2");
        reveal_strlit("3");
        reveal_strlit("4");
        reveal_strlit("5");
        reveal_strlit("6");
        reveal_strlit("7");
        reveal_strlit("8");
        reveal_strlit("9");
    }
    if d == 0 {
        "0"
    } else if d == 1 {
        "1"
    } else if d == 2 {
        "2"
    } else if d == 3 {
        "3"
    } else if d == 4 {
        "4"
    } else if d == 5 {
        "5"
    } else if d == 6 {
        "6"
    } else if d == 7 {
        "7"
    } else if d == 8 {
        "8"
    } else {
        "9"
    }
}

/// Appends the decimal digits of `n`.
pub fn push_decimal(out: &mut String, n: u32)
    ensures
        final(out)@ == old(out)@ + decimal(n as nat),
    decreases n,
{
    if n >= 10 {
        push_decimal(out, n / 10);
    }
    out.append(digit_str(n % 10));
    proof {
        if n >= 10 {
            assert(decimal(n as nat) == decimal((n / 10) as nat).push(digit_char((n % 10) as nat)));
        }
    }
    assert(out@ =~= old(out)@ + decimal(n as nat));
}

/// Appends the decimal digits of `n`, led by zeros up to at least four characters.
fn push_padded4(out: &mut String, n: u32)
    ensures
        final(out)@ == old(out)@ + padded(n as nat, 4),
{
    proof {
        reveal_strlit("0");
        lemma_decimal_len(n as nat);
    }
    if n < 1000 {
        out.append("0");
    }
    if n < 100 {
        out.append("0");
    }
    if n < 10 {
        out.append("0");
    }
    let ghost before = out@;
    push_decimal(out, n);
    proof {
        let k: nat = if n < 10 {
            3
        } else if n < 100 {
            2
        } else if n < 1000 {
            1
        } else {
            0
        };
        assert(before =~= old(out)@ + zeros(k));
        if k == 0 {
            assert(padded(n as nat, 4) == decimal(n as nat));
        } else {
            assert(padded(n as nat, 4) == zeros(k) + decimal(n as nat));
        }
        assert(out@ =~= old(out)@ + padded(n as nat, 4));
    }
}

/// Appends the decimal digits of `n`, led by a zero up to at least two characters.
fn push_padded2(out: &mut String, n: u32)
    ensures
        final(out)@ == old(out)@ + padded(n as nat, 2),
{
    proof {
        reveal_strlit("0");
        lemma_decimal_len(n as nat);
    }
    if n < 10 {
        out.append("0");
    }
    let ghost before = out@;
    push_decimal(out, n);
    proof {
        if n < 10 {
            assert(before =~= old(out)@ + zeros(1));
            assert(padded(n as nat, 2) == zeros(1) + decimal(n as nat));
        } else {
            assert(before =~= old(out)@);
        }
        assert(out@ =~= old(out)@ + padded(n as nat, 2));
    }
}

/// Appends the year as `year_text` gives it.
fn push_year(out: &mut String, y: i32)
    ensures
        final(out)@ == old(out)@ + year_text(y as int),
{
    proof {
        reveal_strlit("-");
        reveal_strlit("+");
    }
    let ghost start = out@;
    if 0 <= y && y <= 9999 {
        push_padded4(out, y as u32);
    } else if y < 0 {
        out.append("-");
        let magnitude: i64 = -(y as i64);
        push_padded4(out, magnitude as u32);
    } else {
        out.append("+");
        push_padded4(out, y as u32);
    }
    assert(out@ =~= start + year_text(y as int));
}

/// Appends the date as `YYYY-MM-DD`.
pub fn push_date(out: &mut String, d: LocalDate)
    ensures
        final(out)@ == old(out)@ + date_text(d),
{
    proof {
        reveal_strlit("-");
    }
    let ghost start = out@;
    push_year(out, d.year);
    out.append("-");
    push_padded2(out, d.month);
    out.append("-");
    push_padded2(out, d.day);
    assert(out@ =~= start + date_text(d));
}

/// The date as `YYYY-MM-DD` text.
pub fn format_date(d: LocalDate) -> (r: String)
    ensures
        r@ == date_text(d),
{
    let mut out = String::new();
    push_date(&mut out, d);
    assert(out@ =~= date_text(d));
    out
}

} // verus!
