use vstd::prelude::*;
use crate::instant::utc_parse;

verus! {

/// Division that rounds toward zero, as Rust's `/` on signed integers.
pub open spec fn tdiv(x: int, d: int) -> int {
    if x >= 0 {
        x / d
    } else {
        -((-x) / d)
    }
}

/// Remainder that goes with `tdiv`, as Rust's `%` on signed integers.
pub open spec fn trem(x: int, d: int) -> int {
    x - d * tdiv(x, d)
}

/// The Unix timestamp in microseconds that chrono gives for a text, if it reads it.
pub open spec fn micros_spec(s: Seq<char>) -> Option<int> {
    match utc_parse(s) {
        Some(p) => Some(p.0 * 1000000 + p.1 / 1000),
        None => None,
    }
}

/// What chrono's `TimeDelta::num_milliseconds` gives for the span from the
/// first instant (seconds, nanoseconds) to the second, when both are representable.
pub uninterp spec fn millis_between(b_secs: i64, b_nanos: u32, e_secs: i64, e_nanos: u32) -> Option<i64>;

/// Relies on `<chrono::DateTime<Utc> as FromStr>::from_str` and
/// `DateTime::timestamp_micros`, which is the timestamp times one million
/// plus the sub-second microseconds, within `i64` over chrono's whole range.
#[verifier::external_body]
fn parse_micros(s: &str) -> (r: Option<i64>)
    ensures
        match r {
            Some(m) => micros_spec(s@) == Some(m as int),
            None => micros_spec(s@) is None,
        },
{
    s.parse::<chrono::DateTime<chrono::Utc>>().ok().map(|d| d.timestamp_micros())
}

/// Relies on `chrono::DateTime::from_timestamp` for both instants and on
/// `TimeDelta::num_milliseconds` of their difference.
#[verifier::external_body]
fn span_millis(b_secs: i64, b_nanos: u32, e_secs: i64, e_nanos: u32) -> (r: Option<i64>)
    ensures
        r == millis_between(b_secs, b_nanos, e_secs, e_nanos),
{
    match (chrono::DateTime::from_timestamp(b_secs, b_nanos), chrono::DateTime::from_timestamp(e_secs, e_nanos)) {
        (Some(b), Some(e)) => Some((e - b).num_milliseconds()),
        _ => None,
    }
}

/// The figures that a drop-window notification shows.
#[derive(Clone, Copy, Debug, PartialEq, Eq, Structural)]
pub struct DropNotice {
    /// Unix seconds of the window begin and the microseconds past them.
    pub begin_secs: i64,
    pub begin_micros: i64,
    /// Unix seconds of the window end and the microseconds past them.
    pub end_secs: i64,
    pub end_micros: i64,
    /// Length of the window in minutes, seconds and milliseconds.
    pub minutes: i64,
    pub seconds: i64,
    pub millis: i64,
}

fn div_toward_zero(x: i64, d: i64) -> (r: i64)
    requires
        d > 0,
    ensures
        r == tdiv(x as int, d as int),
{
    if x >= 0 {
        x / d
    } else {
        let m: i128 = -(x as i128);
        let q: i128 = m / (d as i128);
        assert(q <= m) by (nonlinear_arith)
            requires
                q == m / (d as i128),
                d > 0,
                m >= 0,
        ;
        (-q) as i64
    }
}

fn rem_toward_zero(x: i64, d: i64) -> (r: i64)
    requires
        d > 0,
    ensures
        r == trem(x as int, d as int),
{
    let q = div_toward_zero(x, d);
    proof {
        let xi = x as int;
        let di = d as int;
        let qi = q as int;
        if xi >= 0 {
            vstd::arithmetic::div_mod::lemma_fundamental_div_mod(xi, di);
            vstd::arithmetic::div_mod::lemma_mod_bound(xi, di);
            assert(0 <= qi * di <= xi) by (nonlinear_arith)
                requires
                    xi == di * (xi / di) + xi % di,
                    qi == xi / di,
                    0 <= xi % di < di,
                    xi >= 0,
                    di > 0,
            ;
        } else {
            let m = -xi;
            vstd::arithmetic::div_mod::lemma_fundamental_div_mod(m, di);
            vstd::arithmetic::div_mod::lemma_mod_bound(m, di);
            assert(xi <= qi * di <= 0) by (nonlinear_arith)
                requires
                    m == di * (m / di) + m % di,
                    qi == -(m / di),
                    0 <= m % di < di,
                    m > 0,
                    di > 0,
                    xi == -m,
            ;
        }
    }
    let qd: i128 = (q as i128) * (d as i128);
    (x as i128 - qd) as i64
}

/// The notification figures of the window from `begin_iso` to `end_iso`:
/// each bound's Unix timestamp in microseconds split into seconds and
/// microseconds, and the window's length in milliseconds split into
/// minutes, seconds and milliseconds, all rounded toward zero. `None` when
/// a text is not an instant.
pub fn drop_notice(begin_iso: &str, end_iso: &str) -> (r: Option<DropNotice>)
    ensures
        (micros_spec(begin_iso@) is None || micros_spec(end_iso@) is None) ==> r is None,
        r is Some ==> ({
            let n = r->Some_0;
            let b = micros_spec(begin_iso@)->Some_0;
            let e = micros_spec(end_iso@)->Some_0;
            let pb = utc_parse(begin_iso@)->Some_0;
            let pe = utc_parse(end_iso@)->Some_0;
            let len = millis_between(pb.0, pb.1, pe.0, pe.1)->Some_0 as int;
            &&& millis_between(pb.0, pb.1, pe.0, pe.1) is Some
            &&& n.begin_secs == tdiv(b, 1000000) && n.begin_micros == trem(b, 1000000)
            &&& n.end_secs == tdiv(e, 1000000) && n.end_micros == trem(e, 1000000)
            &&& n.minutes == tdiv(len, 60000)
            &&& n.seconds == tdiv(trem(len, 60000), 1000)
            &&& n.millis == trem(len, 1000)
        }),
        (micros_spec(begin_iso@) is Some && micros_spec(end_iso@) is Some && millis_between(
            utc_parse(begin_iso@)->Some_0.0,
            utc_parse(begin_iso@)->Some_0.1,
            utc_parse(end_iso@)->Some_0.0,
            utc_parse(end_iso@)->Some_0.1,
        ) is Some) ==> r is Some,
{
    let b = match parse_micros(begin_iso) {
        Some(m) => m,
        None => return None,
    };
    let e = match parse_micros(end_iso) {
        Some(m) => m,
        None => return None,
    };
    let (pb, pe) = match (crate::instant::Timestamp::parse_rfc3339(begin_iso), crate::instant::Timestamp::parse_rfc3339(end_iso)) {
        (Some(x), Some(y)) => (x, y),
        _ => return None,
    };
    let len = match span_millis(pb.secs, pb.nanos, pe.secs, pe.nanos) {
        Some(l) => l,
        None => return None,
    };
    let in_minute = rem_toward_zero(len, 60000);
    Some(DropNotice {
        begin_secs: div_toward_zero(b, 1000000),
        begin_micros: rem_toward_zero(b, 1000000),
        end_secs: div_toward_zero(e, 1000000),
        end_micros: rem_toward_zero(e, 1000000),
        minutes: div_toward_zero(len, 60000),
        seconds: div_toward_zero(in_minute, 1000),
        millis: rem_toward_zero(len, 1000),
    })
}

} // verus!
