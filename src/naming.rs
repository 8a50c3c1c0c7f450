//! Names of the groups a run creates: `test_` followed by the creation time,
//! `test_YYYY_MM_DDTHH_MM_SS`, so that runs do not collide.
use chrono::{Datelike, Timelike};
use vstd::prelude::*;

verus! {

pub open spec fn digit_char(d: nat) -> char {
    "0123456789"@[d as int]
}

/// The decimal digits of `n`, most significant first.
pub open spec fn decimal(n: nat) -> Seq<char>
    decreases n,
{
    if n < 10 {
        seq![digit_char(n)]
    } else {
        decimal(n / 10).push(digit_char(n % 10))
    }
}

pub open spec fn zeros(k: nat) -> Seq<char> {
    Seq::new(k, |i: int| '0')
}

/// `n` in decimal, with leading zeros up to `width` characters.
pub open spec fn padded(n: nat, width: nat) -> Seq<char> {
    let d = decimal(n);
    if d.len() >= width {
        d
    } else {
        zeros((width - d.len()) as nat) + d
    }
}

/// `v` in decimal, zero-padded to `width` characters with the sign counted in
/// the width.
pub open spec fn signed_padded(v: int, width: nat) -> Seq<char> {
    if v < 0 {
        "-"@ + padded((-v) as nat, if width >= 1 {
            (width - 1) as nat
        } else {
            0
        })
    } else {
        padded(v as nat, width)
    }
}

/// The group name for a creation time given by its calendar fields.
pub open spec fn group_name_text(
    year: int,
    month: nat,
    day: nat,
    hour: nat,
    minute: nat,
    second: nat,
) -> Seq<char> {
    "test_"@ + signed_padded(year, 4) + "_"@ + padded(month, 2) + "_"@ + padded(day, 2) + "T"@
        + padded(hour, 2) + "_"@ + padded(minute, 2) + "_"@ + padded(second, 2)
}

/// Whether `name` is the group name of some valid UTC calendar time.
pub open spec fn is_group_name(name: Seq<char>) -> bool {
    exists|y: i32, mo: u32, d: u32, h: u32, mi: u32, s: u32|
        1 <= mo <= 12 && 1 <= d <= 31 && h < 24 && mi < 60 && s < 60 && name == group_name_text(
            y as int,
            mo as nat,
            d as nat,
            h as nat,
            mi as nat,
            s as nat,
        )
}

/// The digit `d` as a string.
fn digit_str(d: u32) -> (r: &'static str)
    requires
        d < 10,
    ensures
        r@ == seq![digit_char(d as nat)],
{
    proof {
        reveal_strlit("0123456789");
    }
    let r = "0123456789".substring_char(d as usize, (d + 1) as usize);
    assert(r@ =~= seq![digit_char(d as nat)]);
    r
}

/// `n` in decimal.
pub fn decimal_string(n: u32) -> (r: String)
    ensures
        r@ == decimal(n as nat),
    decreases n,
{
    if n < 10 {
        String::from_str(digit_str(n))
    } else {
        let mut s = decimal_string(n / 10);
        s.append(digit_str(n % 10));
        s
    }
}

/// Appends `n` zero-padded to `width` characters.
fn push_padded(out: &mut String, n: u32, width: usize)
    ensures
        final(out)@ == old(out)@ + padded(n as nat, width as nat),
{
    let d = decimal_string(n);
    let len = d.as_str().unicode_len();
    let ghost start = out@;
    let mut k: usize = 0;
    while k < width && len < width - k
        invariant
            len == d@.len(),
            k <= width,
            len < width ==> k <= width - len,
            len >= width ==> k == 0,
            out@ == start + zeros(k as nat),
        decreases width - k,
    {
        out.append("0");
        proof {
            reveal_strlit("0");
        }
        assert(zeros((k + 1) as nat) =~= zeros(k as nat) + "0"@);
        k += 1;
    }
    out.append(d.as_str());
    assert(zeros(0) =~= seq![]);
    assert(out@ =~= start + padded(n as nat, width as nat));
}

/// The group name for a creation time given by its calendar fields.
pub fn group_name(year: i32, month: u32, day: u32, hour: u32, minute: u32, second: u32) -> (r:
    String)
    ensures
        r@ == group_name_text(
            year as int,
            month as nat,
            day as nat,
            hour as nat,
            minute as nat,
            second as nat,
        ),
{
    let mut r = String::from_str("test_");
    if year < 0 {
        r.append("-");
        push_padded(&mut r, (0 - (year as i64)) as u32, 3);
    } else {
        push_padded(&mut r, year as u32, 4);
    }
    r.append("_");
    push_padded(&mut r, month, 2);
    r.append("_");
    push_padded(&mut r, day, 2);
    r.append("T");
    push_padded(&mut r, hour, 2);
    r.append("_");
    push_padded(&mut r, minute, 2);
    r.append("_");
    push_padded(&mut r, second, 2);
    r
}

/// Relies on chrono's `Utc::now` and on the `Datelike` and `Timelike`
/// accessors: the current UTC time as year, month (1 to 12), day (1 to 31),
/// hour (0 to 23), minute (0 to 59) and second (0 to 59).
#[verifier::external_body]
fn now_utc_fields() -> (r: (i32, u32, u32, u32, u32, u32))
    ensures
        1 <= r.1 <= 12,
        1 <= r.2 <= 31,
        r.3 < 24,
        r.4 < 60,
        r.5 < 60,
{
    let now = chrono::Utc::now();
    (now.year(), now.month(), now.day(), now.hour(), now.minute(), now.second())
}

/// A group name from the current UTC time.
pub fn new_group_name() -> (r: String)
    ensures
        is_group_name(r@),
{
    let (y, mo, d, h, mi, s) = now_utc_fields();
    let r = group_name(y, mo, d, h, mi, s);
    assert(1 <= mo <= 12 && 1 <= d <= 31 && h < 24 && mi < 60 && s < 60 && r@ == group_name_text(
        y as int,
        mo as nat,
        d as nat,
        h as nat,
        mi as nat,
        s as nat,
    ));
    r
}

} // verus!
