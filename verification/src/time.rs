//! The in-game clock: a game runs `ig_length` milliseconds of in-game time
//! in every real-life cycle of `irl_length` milliseconds, counted from
//! `start_time` (Unix milliseconds).
use vstd::prelude::*;
use vstd::arithmetic::div_mod::lemma_fundamental_div_mod;

verus! {

/// How the in-game time of a game relates to the real time.
#[derive(Clone, Copy, Debug, PartialEq, Eq, Hash, Structural)]
pub struct TimeConfig {
    /// Unix milliseconds at which the game started.
    pub start_time: i64,
    /// Real-life length of one cycle, in milliseconds.
    pub irl_length: i64,
    /// In-game length of one cycle, in milliseconds.
    pub ig_length: i64,
}

/// `v` fits in an `i64`.
pub open spec fn in_i64(v: int) -> bool {
    i64::MIN <= v <= i64::MAX
}

/// Integer division rounding toward zero, as Rust's `/` does, for `b != 0`.
pub open spec fn trunc_div(a: int, b: int) -> int {
    if b < 0 {
        -trunc_div_pos(a, -b)
    } else {
        trunc_div_pos(a, b)
    }
}

/// Integer division rounding toward zero, for `b > 0`.
pub open spec fn trunc_div_pos(a: int, b: int) -> int {
    if a >= 0 {
        a / b
    } else {
        -((-a) / b)
    }
}

/// An `Option<i64>` read as an `Option<int>`.
pub open spec fn opt_int(o: Option<i64>) -> Option<int> {
    match o {
        Some(v) => Some(v as int),
        None => None,
    }
}

impl TimeConfig {
    /// In-game milliseconds elapsed since the start of the game at the real
    /// instant `t`: with `x` the real time since the start, `nb = x /
    /// irl_length` and `rest = x % irl_length` (Rust's truncating division
    /// and remainder, for a length of either sign), the in-game time is
    /// `(nb + 1) * ig_length` where `rest > ig_length`, else
    /// `nb * ig_length + rest`. For a positive cycle, the cycles already
    /// done count for `ig_length` each, and within the current cycle the
    /// in-game time runs with the real time until it reaches `ig_length`,
    /// then pauses. `None` where `irl_length` is 0 or a step leaves the
    /// `i64` range.
    pub open spec fn spec_hf_millis(self, t: int) -> Option<int> {
        let x = t - self.start_time;
        let nb = trunc_div(x, self.irl_length as int);
        let rest = x - nb * self.irl_length;
        if self.irl_length == 0 || !in_i64(x) || !in_i64(nb) {
            None
        } else if rest > self.ig_length {
            if in_i64(nb + 1) && in_i64((nb + 1) * self.ig_length) {
                Some((nb + 1) * self.ig_length)
            } else {
                None
            }
        } else {
            if in_i64(nb * self.ig_length) && in_i64(nb * self.ig_length + rest) {
                Some(nb * self.ig_length + rest)
            } else {
                None
            }
        }
    }

    /// In-game milliseconds between the real instants `start` and `end`.
    pub open spec fn spec_diff_hf_millis(self, start: int, end: int) -> Option<int> {
        match (self.spec_hf_millis(start), self.spec_hf_millis(end)) {
            (Some(s), Some(e)) => if in_i64(e - s) {
                Some(e - s)
            } else {
                None
            },
            _ => None,
        }
    }

    /// In-game milliseconds since the start of the game at the real instant
    /// `t`; `None` where `irl_length` is 0 or the computation leaves `i64`.
    pub fn hf_millis_at(&self, t: i64) -> (r: Option<i64>)
        ensures
            opt_int(r) == self.spec_hf_millis(t as int),
    {
        if self.irl_length == 0 {
            return None;
        }
        let x = match t.checked_sub(self.start_time) {
            Some(x) => x,
            None => return None,
        };
        if x == i64::MIN && self.irl_length == -1 {
            return None;
        }
        proof {
            lemma_trunc_div_bounds(x as int, self.irl_length as int);
        }
        let nb: i64 = if self.irl_length > 0 {
            x / self.irl_length
        } else if self.irl_length == i64::MIN {
            if x == i64::MIN {
                1
            } else {
                0
            }
        } else {
            let e: i64 = -self.irl_length;
            proof {
                lemma_trunc_div_bounds(x as int, e as int);
            }
            let q = x / e;
            -q
        };
        assert(nb == trunc_div(x as int, self.irl_length as int));
        let rest = x - nb * self.irl_length;
        if rest > self.ig_length {
            match nb.checked_add(1) {
                Some(n1) => n1.checked_mul(self.ig_length),
                None => None,
            }
        } else {
            match nb.checked_mul(self.ig_length) {
                Some(p) => p.checked_add(rest),
                None => None,
            }
        }
    }

    /// In-game milliseconds between the real instants `start` and `end`
    /// (Unix milliseconds); `None` where the computation is undefined.
    pub fn diff_hf_millis(&self, start: i64, end: i64) -> (r: Option<i64>)
        ensures
            opt_int(r) == self.spec_diff_hf_millis(start as int, end as int),
    {
        let s = self.hf_millis_at(start);
        let e = self.hf_millis_at(end);
        match (s, e) {
            (Some(s), Some(e)) => e.checked_sub(s),
            _ => None,
        }
    }
}

/// Rounding toward zero, `trunc_div(x, d) * d` lies between 0 and `x`,
/// within `|d|` of `x`; the quotient is at most `|x|` in size, and at most
/// half of it where `|d| >= 2`.
pub proof fn lemma_trunc_div_bounds(x: int, d: int)
    requires
        d != 0,
    ensures
        x >= 0 ==> 0 <= trunc_div(x, d) * d <= x,
        x < 0 ==> x <= trunc_div(x, d) * d <= 0,
        d > 0 ==> (x >= 0 ==> trunc_div(x, d) >= 0),
        d > 0 ==> (x < 0 ==> trunc_div(x, d) <= 0),
        d > 0 ==> x - trunc_div(x, d) * d < d,
        d > 0 ==> x - trunc_div(x, d) * d > -d,
        d < 0 ==> x - trunc_div(x, d) * d < -d,
        d < 0 ==> x - trunc_div(x, d) * d > d,
        -x <= trunc_div(x, d) <= x || x <= trunc_div(x, d) <= -x,
        (d < -1 || d > 1) ==> (-x <= 2 * trunc_div(x, d) <= x || x <= 2 * trunc_div(x, d) <= -x),
{
    let e = if d < 0 { -d } else { d };
    let q = trunc_div_pos(x, e);
    if x >= 0 {
        lemma_fundamental_div_mod(x, e);
        vstd::arithmetic::div_mod::lemma_mod_bound(x, e);
        vstd::arithmetic::div_mod::lemma_div_pos_is_pos(x, e);
        assert(q * e == e * (x / e)) by (nonlinear_arith)
            requires q == x / e;
        assert(e * (x / e) >= 0) by (nonlinear_arith)
            requires x / e >= 0, e > 0;
        assert(q <= x) by (nonlinear_arith)
            requires q * e <= x, e >= 1, q >= 0;
        assert(e >= 2 ==> 2 * q <= x) by (nonlinear_arith)
            requires q * e <= x, q >= 0;
    } else {
        let y = -x;
        let p = y / e;
        lemma_fundamental_div_mod(y, e);
        vstd::arithmetic::div_mod::lemma_mod_bound(y, e);
        vstd::arithmetic::div_mod::lemma_div_pos_is_pos(y, e);
        assert(q * e == -(e * p)) by (nonlinear_arith)
            requires q == -p;
        assert(e * p >= 0) by (nonlinear_arith)
            requires p >= 0, e > 0;
        assert(p <= y) by (nonlinear_arith)
            requires e * p <= y, e >= 1, p >= 0;
        assert(e >= 2 ==> 2 * p <= y) by (nonlinear_arith)
            requires e * p <= y, p >= 0;
    }
    if d < 0 {
        assert(trunc_div(x, d) * d == q * e) by (nonlinear_arith)
            requires trunc_div(x, d) == -q, d == -e;
    }
}

/// Reads the clock: `chrono::Utc::now()` as Unix milliseconds
/// (`DateTime::timestamp_millis`): the time of the call. `Utc::now` panics
/// where the system clock is before the Unix epoch (its `expect` on
/// `duration_since(UNIX_EPOCH)`), which no argument can cause; so when it
/// returns, the instant is not before the epoch. Nothing more is promised
/// of the value.
#[verifier::external_body]
pub(crate) fn now_millis() -> (r: i64)
    ensures
        r >= 0,
{
    chrono::Utc::now().timestamp_millis()
}

/// Reads the clock: `SystemTime::now()` as whole seconds since the Unix
/// epoch (`duration_since(UNIX_EPOCH)`, then `as_secs`), or `None` where
/// the clock is before the epoch. Nothing is promised of the value: it is
/// the time of the call.
#[verifier::external_body]
pub(crate) fn now_epoch_secs() -> (r: Option<u64>) {
    match std::time::SystemTime::now().duration_since(std::time::UNIX_EPOCH) {
        Ok(d) => Some(d.as_secs()),
        Err(_) => None,
    }
}

} // verus!

verus! {

/// After the start, the in-game time splits as `nb` whole cycles of
/// `irl_length` and a rest: it is `nb * ig_length` plus the rest, capped at
/// `ig_length`.
proof fn lemma_hf_split(c: TimeConfig, t: int)
    requires
        c.irl_length > 0,
        c.ig_length >= 0,
        t >= c.start_time,
        c.spec_hf_millis(t) is Some,
    ensures
        ({
            let x = t - c.start_time;
            let nb = x / (c.irl_length as int);
            let rest = x % (c.irl_length as int);
            &&& nb >= 0
            &&& 0 <= rest < c.irl_length
            &&& x == nb * c.irl_length + rest
            &&& c.spec_hf_millis(t)->0 == nb * c.ig_length + if rest > c.ig_length { c.ig_length as int } else { rest }
        }),
{
    let x = t - c.start_time;
    let d = c.irl_length as int;
    let nb = x / d;
    let rest = x % d;
    lemma_fundamental_div_mod(x, d);
    vstd::arithmetic::div_mod::lemma_mod_bound(x, d);
    vstd::arithmetic::div_mod::lemma_div_pos_is_pos(x, d);
    assert(nb * d == d * nb) by (nonlinear_arith);
    assert((nb + 1) * c.ig_length == nb * c.ig_length + c.ig_length) by (nonlinear_arith);
}

/// The same instant: no in-game time passes between an instant and itself.
pub proof fn law_diff_same_instant(c: TimeConfig, t: int)
    requires
        c.spec_hf_millis(t) is Some,
    ensures
        c.spec_diff_hf_millis(t, t) == Some(0int),
{
}

/// In-game durations add up: from `a` to `b` then from `b` to `d` is from
/// `a` to `d`, where the sum fits in an `i64`.
pub proof fn law_diff_chain(c: TimeConfig, a: int, b: int, d: int)
    requires
        c.spec_diff_hf_millis(a, b) is Some,
        c.spec_diff_hf_millis(b, d) is Some,
        in_i64(c.spec_diff_hf_millis(a, b)->0 + c.spec_diff_hf_millis(b, d)->0),
    ensures
        c.spec_diff_hf_millis(a, d) == Some(c.spec_diff_hf_millis(a, b)->0 + c.spec_diff_hf_millis(b, d)->0),
{
}

/// The in-game time moves forward and never faster than the real time:
/// for instants `a <= b` from the start of the game on, and a game whose
/// in-game part of a cycle is at most the cycle, the in-game time at `b` is
/// at least that at `a`, by at most `b - a`.
pub proof fn law_in_game_time_forward_and_slower(c: TimeConfig, a: int, b: int)
    requires
        c.irl_length > 0,
        0 <= c.ig_length <= c.irl_length,
        c.start_time <= a <= b,
        c.spec_hf_millis(a) is Some,
        c.spec_hf_millis(b) is Some,
    ensures
        c.spec_hf_millis(a)->0 <= c.spec_hf_millis(b)->0,
        c.spec_hf_millis(b)->0 - c.spec_hf_millis(a)->0 <= b - a,
{
    lemma_hf_split(c, a);
    lemma_hf_split(c, b);
    let d = c.irl_length as int;
    let g = c.ig_length as int;
    let xa = a - c.start_time;
    let xb = b - c.start_time;
    let na = xa / d;
    let nb = xb / d;
    let ra = xa % d;
    let rb = xb % d;
    vstd::arithmetic::div_mod::lemma_div_is_ordered(xa, xb, d);
    if na < nb {
        assert((na + 1) * g <= nb * g) by (nonlinear_arith)
            requires na + 1 <= nb, g >= 0;
        assert((nb - na) * (g - d) <= g - d) by (nonlinear_arith)
            requires nb - na >= 1, g - d <= 0;
        assert((na + 1) * g == na * g + g) by (nonlinear_arith);
        assert(nb * g - na * g - (nb * d - na * d) == (nb - na) * (g - d)) by (nonlinear_arith);
    }
}


/// The in-game clock from the start of the game on: at `k` whole real
/// cycles and `rest` milliseconds into the next one, the in-game time is
/// `k` in-game cycles plus the rest, the rest counting only up to
/// `ig_length` (the game pauses for the remainder of the cycle).
pub proof fn law_hf_cycles(c: TimeConfig, t: int)
    requires
        c.irl_length > 0,
        c.ig_length >= 0,
        t >= c.start_time,
        c.spec_hf_millis(t) is Some,
    ensures
        ({
            let x = t - c.start_time;
            let k = x / (c.irl_length as int);
            let rest = x % (c.irl_length as int);
            c.spec_hf_millis(t)->0 == k * c.ig_length + if rest > c.ig_length { c.ig_length as int } else { rest }
        }),
{
    lemma_hf_split(c, t);
}

} // verus!
