//! The time of day shown in status notes.

use vstd::prelude::*;
use vstd::string::*;

use crate::config::lemma_digit_char;
use crate::text::{dec2, digit_value, is_digit, push_dec2};

verus! {

/// Seconds that Beijing time runs ahead of UTC.
pub const UTC_OFFSET_SECS: u64 = 8 * 3600;

/// Seconds in a day.
pub const DAY_SECS: u64 = 86400;

/// `HH:MM:SS` of Beijing time at `secs` seconds after the Unix epoch.
pub open spec fn stamp_text(secs: u64) -> Seq<char> {
    let s = ((secs + UTC_OFFSET_SECS) % (DAY_SECS as int)) as nat;
    dec2(s / 3600) + seq![':'] + dec2((s % 3600) / 60) + seq![':'] + dec2(s % 60)
}

/// The stamp reads back as the time of day: `HH:MM:SS` with two digits
/// each, hours below 24, minutes and seconds below 60, which together make
/// the seconds since midnight in Beijing.
pub proof fn lemma_stamp_reads_back(secs: u64)
    ensures
        ({
            let t = stamp_text(secs);
            let h = 10 * digit_value(t[0]) + digit_value(t[1]);
            let m = 10 * digit_value(t[3]) + digit_value(t[4]);
            let s = 10 * digit_value(t[6]) + digit_value(t[7]);
            &&& t.len() == 8
            &&& t[2] == ':' && t[5] == ':'
            &&& is_digit(t[0]) && is_digit(t[1]) && is_digit(t[3]) && is_digit(t[4])
            &&& is_digit(t[6]) && is_digit(t[7])
            &&& h < 24 && m < 60 && s < 60
            &&& h * 3600 + m * 60 + s == (secs + UTC_OFFSET_SECS) % (DAY_SECS as int)
        }),
{
    let d = ((secs + UTC_OFFSET_SECS) % (DAY_SECS as int)) as nat;
    let h = d / 3600;
    let m = (d % 3600) / 60;
    let s = d % 60;
    assert(h < 24 && m < 60 && s < 60 && h * 3600 + m * 60 + s == d) by (nonlinear_arith)
        requires
            d < 86400,
            h == d / 3600,
            m == (d % 3600) / 60,
            s == d % 60,
    ;
    lemma_digit_char(h / 10);
    lemma_digit_char(h % 10);
    lemma_digit_char(m / 10);
    lemma_digit_char(m % 10);
    lemma_digit_char(s / 10);
    lemma_digit_char(s % 10);
    assert(h / 10 * 10 + h % 10 == h);
    assert(m / 10 * 10 + m % 10 == m);
    assert(s / 10 * 10 + s % 10 == s);
}

/// `HH:MM:SS` of Beijing time at `secs` seconds after the Unix epoch.
pub fn stamp_at(secs: u64) -> (r: String)
    ensures
        r@ == stamp_text(secs),
{
    let s = (secs % DAY_SECS + UTC_OFFSET_SECS) % DAY_SECS;
    proof {
        vstd::arithmetic::div_mod::lemma_add_mod_noop(secs as int, UTC_OFFSET_SECS as int, DAY_SECS as int);
        assert((UTC_OFFSET_SECS as int) % (DAY_SECS as int) == UTC_OFFSET_SECS as int);
        vstd::arithmetic::div_mod::lemma_add_mod_noop_right(
            (secs % DAY_SECS) as int,
            UTC_OFFSET_SECS as int,
            DAY_SECS as int,
        );
    }
    assert(s as int == (secs + UTC_OFFSET_SECS) % (DAY_SECS as int));
    let mut r = String::new();
    push_dec2(&mut r, s / 3600);
    r.append(":");
    push_dec2(&mut r, (s % 3600) / 60);
    r.append(":");
    push_dec2(&mut r, s % 60);
    proof {
        reveal_strlit(":");
    }
    assert(r@ =~= stamp_text(secs));
    r
}

#[verifier::external_type_specification]
#[verifier::external_body]
pub struct ExSystemTime(std::time::SystemTime);

#[verifier::external_type_specification]
#[verifier::external_body]
pub struct ExSystemTimeError(std::time::SystemTimeError);

/// `SystemTime::now()`: the system clock's reading. Nothing is promised of
/// it: it is the time.
#[verifier::external_body]
fn clock_now() -> std::time::SystemTime {
    std::time::SystemTime::now()
}

/// `t.duration_since(UNIX_EPOCH)`: the time elapsed since the Unix epoch,
/// an error where the clock stands before it. Nothing is promised of the
/// value.
#[verifier::external_body]
fn since_unix_epoch(t: &std::time::SystemTime) -> std::result::Result<
    core::time::Duration,
    std::time::SystemTimeError,
> {
    t.duration_since(std::time::UNIX_EPOCH)
}

/// `Duration::as_secs`: the whole seconds of a duration. The duration is
/// opaque here, so nothing is promised of the value.
#[verifier::external_body]
fn whole_secs(d: &core::time::Duration) -> u64 {
    d.as_secs()
}

/// Seconds since the Unix epoch by the system clock, 0 where the clock
/// stands before the epoch.
fn now_unix_secs() -> u64 {
    match since_unix_epoch(&clock_now()) {
        Ok(d) => whole_secs(&d),
        Err(_) => 0,
    }
}

/// `HH:MM:SS` of Beijing time now.
pub fn stamp() -> (r: String)
    ensures
        exists|secs: u64| r@ == stamp_text(secs),
{
    let secs = now_unix_secs();
    stamp_at(secs)
}

} // verus!
