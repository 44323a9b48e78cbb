//! The idle timeout of the password input.
//!
//! Points in time are nanoseconds since some moment that never changes.
use crate::text::to_chars;
use vstd::prelude::*;

verus! {

/// How many seconds a dialog waits for a key when nothing else was asked for.
pub const DEFAULT_TIMEOUT_SECS: u64 = 30;

/// Nanoseconds in a second.
pub const NANOS_PER_SEC: u128 = 1_000_000_000;

/// How long ago `last` was at `now`; nothing for a moment that is still to come.
pub open spec fn elapsed(last: u128, now: u128) -> int {
    if now > last {
        now - last
    } else {
        0
    }
}

/// Whether at `now` at least `timeout_secs` have passed since the last activity.
pub open spec fn expired(last: u128, now: u128, timeout_secs: u64) -> bool {
    elapsed(last, now) >= timeout_secs * NANOS_PER_SEC
}

/// Whether at `now` at least `timeout_secs` have passed since the last activity.
pub fn is_expired(last: u128, now: u128, timeout_secs: u64) -> (r: bool)
    ensures
        r == expired(last, now, timeout_secs),
{
    let limit: u128 = timeout_secs as u128 * NANOS_PER_SEC;
    let passed: u128 = if now > last { now - last } else { 0 };
    passed >= limit
}

/// How many nanoseconds after `now` the timeout is reached if nothing happens until then.
pub fn remaining(last: u128, now: u128, timeout_secs: u64) -> (r: u128)
    ensures
        r == if expired(last, now, timeout_secs) {
            0
        } else {
            timeout_secs * NANOS_PER_SEC - elapsed(last, now)
        },
{
    let limit: u128 = timeout_secs as u128 * NANOS_PER_SEC;
    let passed: u128 = if now > last { now - last } else { 0 };
    if passed >= limit {
        0
    } else {
        limit - passed
    }
}

/// Whether `c` is a decimal digit.
pub open spec fn is_digit(c: char) -> bool {
    '0' <= c <= '9'
}

/// The number that the digits `s` write in base ten.
pub open spec fn decimal_value(s: Seq<char>) -> nat
    decreases s.len(),
{
    if s.len() == 0 {
        0
    } else {
        decimal_value(s.drop_last()) * 10 + (s.last() as nat - '0' as nat) as nat
    }
}

/// The digits of a number that may have a plus sign before it.
pub open spec fn unsigned_digits(s: Seq<char>) -> Seq<char> {
    if s.len() > 0 && s[0] == '+' {
        s.skip(1)
    } else {
        s
    }
}

/// The number that `s` writes, where it writes one that is at most `u64::MAX`.
pub open spec fn parsed_number(s: Seq<char>) -> Option<u64> {
    let digits = unsigned_digits(s);
    if digits.len() > 0 && (forall|i: int| 0 <= i < digits.len() ==> is_digit(#[trigger] digits[i]))
        && decimal_value(digits) <= u64::MAX {
        Some(decimal_value(digits) as u64)
    } else {
        None
    }
}

/// Reads a number as `str::parse::<u64>` of std does: an optional plus sign, then digits, and
/// nothing for a number that does not fit.
pub fn parse_number(s: &str) -> (n: Option<u64>)
    ensures
        n == parsed_number(s@),
{
    let chars = to_chars(s);
    let total = chars.len();
    let start: usize = if total > 0 && chars[0] == '+' { 1 } else { 0 };
    let ghost digits = unsigned_digits(s@);
    assert(digits =~= s@.skip(start as int));
    if start == total {
        return None;
    }
    let mut value: u64 = 0;
    let mut fits = true;
    let mut i: usize = start;
    assert(digits.take(0) =~= Seq::<char>::empty());
    while i < total
        invariant
            total == chars@.len(),
            chars@ == s@,
            start <= i <= total,
            start <= 1,
            digits == s@.skip(start as int),
            digits == unsigned_digits(s@),
            forall|k: int| 0 <= k < i - start ==> is_digit(#[trigger] digits[k]),
            fits ==> value == decimal_value(digits.take(i - start)),
            !fits ==> decimal_value(digits.take(i - start)) > u64::MAX,
        decreases total - i,
    {
        let c = chars[i];
        assert(digits[i - start] == c);
        if !(c >= '0' && c <= '9') {
            assert(!is_digit(digits[i - start]));
            return None;
        }
        let digit: u64 = (c as u32 - '0' as u32) as u64;
        proof {
            assert(digits.take(i - start + 1).drop_last() =~= digits.take(i - start));
            assert(digits.take(i - start + 1).last() == c);
        }
        if fits {
            match value.checked_mul(10) {
                Some(tens) => match tens.checked_add(digit) {
                    Some(sum) => {
                        value = sum;
                    },
                    None => {
                        fits = false;
                    },
                },
                None => {
                    fits = false;
                },
            }
        }
        i = i + 1;
    }
    assert(digits.take(digits.len() as int) =~= digits);
    if fits {
        Some(value)
    } else {
        None
    }
}

/// The idle timeout in seconds: what the variable says, or the default where it is not set or
/// is no number.
pub open spec fn timeout_of(var: Option<Seq<char>>) -> u64 {
    match var {
        Some(s) => match parsed_number(s) {
            Some(n) => n,
            None => DEFAULT_TIMEOUT_SECS,
        },
        None => DEFAULT_TIMEOUT_SECS,
    }
}

/// The idle timeout in seconds that the variable `POLKIT_TUI_TIMEOUT` asks for.
pub fn input_timeout(var: Option<&str>) -> (secs: u64)
    ensures
        secs == timeout_of(
            match var {
                Some(s) => Some(s@),
                None => None,
            },
        ),
{
    match var {
        Some(s) => match parse_number(s) {
            Some(n) => n,
            None => DEFAULT_TIMEOUT_SECS,
        },
        None => DEFAULT_TIMEOUT_SECS,
    }
}

/// Activity gives the full waiting time back: right after it nothing has expired, and a
/// positive timeout is reached exactly when that much time has passed without another activity.
pub proof fn law_activity_restarts_the_wait(at: u128, now: u128, timeout_secs: u64)
    requires
        timeout_secs > 0,
        at <= now,
    ensures
        !expired(at, at, timeout_secs),
        expired(at, now, timeout_secs) <==> now - at >= timeout_secs * NANOS_PER_SEC,
{
    assert(timeout_secs * NANOS_PER_SEC > 0) by (nonlinear_arith)
        requires
            timeout_secs > 0,
            NANOS_PER_SEC == 1_000_000_000,
    ;
}

/// A dialog has been idle for too long exactly when the whole timeout has passed since the last
/// activity; without a timeout it always has. Time that passes never takes that back, and later
/// activity never brings it on.
pub proof fn law_when_the_timeout_is_reached(
    last: u128,
    now: u128,
    timeout_secs: u64,
    later: u128,
    activity: u128,
)
    requires
        now <= later,
        last <= activity,
    ensures
        expired(last, now, timeout_secs) <==> (timeout_secs == 0 || now - last >= timeout_secs
            * 1_000_000_000),
        expired(last, now, timeout_secs) ==> expired(last, later, timeout_secs),
        expired(activity, now, timeout_secs) ==> expired(last, now, timeout_secs),
        now >= last ==> last + elapsed(last, now) == now,
        now < last ==> elapsed(last, now) == 0,
{
    assert(timeout_secs > 0 ==> timeout_secs * NANOS_PER_SEC > 0) by (nonlinear_arith)
        requires
            NANOS_PER_SEC == 1_000_000_000,
    ;
    assert(timeout_secs == 0 ==> timeout_secs * NANOS_PER_SEC == 0);
}

/// One digit more makes a number ten times as large, plus the digit, and is refused where that
/// does not fit; what does not fit does not fit with more digits either.
pub proof fn law_one_digit_more(s: Seq<char>, c: char)
    requires
        '0' <= c <= '9',
    ensures
        parsed_number(seq![c]) == Some((c as int - '0' as int) as u64),
        parsed_number(s) matches Some(n) ==> parsed_number(s.push(c)) == (if n * 10 + (c as int
            - '0' as int) <= u64::MAX {
            Some((n * 10 + (c as int - '0' as int)) as u64)
        } else {
            None
        }),
        parsed_number(s) is None && s.len() > 0 && s != seq!['+'] ==> parsed_number(s.push(c)) is None,
{
    reveal_with_fuel(decimal_value, 2);
    let one = seq![c];
    assert(unsigned_digits(one) =~= one);
    assert(one.drop_last() =~= Seq::<char>::empty());
    let more = s.push(c);
    if s.len() > 0 {
        let d = unsigned_digits(s);
        let e = unsigned_digits(more);
        assert(e =~= d.push(c));
        assert(e.drop_last() =~= d);
        assert forall|i: int| 0 <= i < d.len() implies d[i] == #[trigger] e[i] by {}
        if parsed_number(s) is Some {
            assert forall|i: int| 0 <= i < e.len() implies is_digit(#[trigger] e[i]) by {
                if i < d.len() {
                    assert(is_digit(d[i]));
                }
            }
        } else if d.len() > 0 {
            if !(forall|i: int| 0 <= i < d.len() ==> is_digit(#[trigger] d[i])) {
                let i = choose|i: int| 0 <= i < d.len() && !is_digit(#[trigger] d[i]);
                assert(!is_digit(e[i]));
            }
        } else {
            assert(s =~= seq!['+']);
        }
    }
}

/// A plus sign may stand before the digits, once; any other character that is no digit, and the
/// lack of digits, make it no number.
pub proof fn law_what_is_no_number(s: Seq<char>, i: int)
    ensures
        parsed_number(Seq::<char>::empty()) is None,
        parsed_number(seq!['+']) is None,
        (s.len() > 0 && s[0] != '+') ==> parsed_number(seq!['+'] + s) == parsed_number(s),
        (0 <= i < s.len() && !('0' <= s[i] <= '9') && !(i == 0 && s[0] == '+')) ==> parsed_number(s)
            is None,
{
    let plus = seq!['+'] + s;
    assert(plus.skip(1) =~= s);
    assert(seq!['+'].skip(1) =~= Seq::<char>::empty());
    if 0 <= i < s.len() && !('0' <= s[i] <= '9') && !(i == 0 && s[0] == '+') {
        let d = unsigned_digits(s);
        let k = if s[0] == '+' {
            i - 1
        } else {
            i
        };
        assert(!is_digit(d[k]));
    }
}

/// The timeout is what the variable says, and 30 seconds where it says no number or is not set.
pub proof fn law_which_timeout(s: Seq<char>)
    ensures
        timeout_of(None) == 30,
        parsed_number(s) is None ==> timeout_of(Some(s)) == 30,
        parsed_number(s) matches Some(n) ==> timeout_of(Some(s)) == n,
{
}

/// What the calls about time give.
pub proof fn law_calls_about_time()
    ensures
        forall|last: u128, now: u128, secs: u64, r: bool| #[trigger]
            call_ensures(is_expired, (last, now, secs), r) ==> r == expired(last, now, secs),
        forall|last: u128, now: u128, secs: u64, r: u128| #[trigger]
            call_ensures(remaining, (last, now, secs), r) ==> {
                &&& expired(last, now, secs) ==> r == 0
                &&& !expired(last, now, secs) ==> r + elapsed(last, now) == secs * 1_000_000_000
            },
        forall|s: &str, n: Option<u64>| #[trigger]
            call_ensures(parse_number, (s,), n) ==> n == parsed_number(s@),
        forall|var: Option<&str>, secs: u64| #[trigger]
            call_ensures(input_timeout, (var,), secs) ==> {
                &&& var is None ==> secs == timeout_of(None)
                &&& var is Some ==> secs == timeout_of(Some(var->Some_0@))
            },
{
}

} // verus!
