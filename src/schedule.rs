use vstd::prelude::*;

verus! {

/// Largest magnitude that `read_integer` tells apart: 2^64.
pub const READ_CAP: i128 = 0x1_0000_0000_0000_0000;

pub open spec fn is_digit(c: char) -> bool {
    '0' <= c && c <= '9'
}

pub open spec fn digit_value(c: char) -> int {
    (c as u32) as int - 48
}

pub open spec fn all_digits(s: Seq<char>) -> bool {
    forall|i: int| 0 <= i < s.len() ==> is_digit(#[trigger] s[i])
}

/// The value of a run of decimal digits, most significant first.
pub open spec fn digits_value(s: Seq<char>) -> int
    decreases s.len(),
{
    if s.len() == 0 {
        0
    } else {
        10 * digits_value(s.drop_last()) + digit_value(s.last())
    }
}

/// The integer a text denotes: an optional `+` (or `-` where `signed`), then one or
/// more ASCII digits, and nothing else.
pub open spec fn integer_value(s: Seq<char>, signed: bool) -> Option<int> {
    if s.len() > 0 && (s[0] == '+' || (signed && s[0] == '-')) {
        let d = s.subrange(1, s.len() as int);
        if d.len() > 0 && all_digits(d) {
            Some(if s[0] == '-' { -digits_value(d) } else { digits_value(d) })
        } else {
            None
        }
    } else if s.len() > 0 && all_digits(s) {
        Some(digits_value(s))
    } else {
        None
    }
}

/// `integer_value`, kept only where it lies in `[min, max]`.
pub open spec fn bounded_value(s: Seq<char>, signed: bool, min: int, max: int) -> Option<int> {
    match integer_value(s, signed) {
        Some(v) => if min <= v && v <= max { Some(v) } else { None },
        None => None,
    }
}

pub open spec fn digit_char(d: int) -> char {
    if d == 0 { '0' }
    else if d == 1 { '1' }
    else if d == 2 { '2' }
    else if d == 3 { '3' }
    else if d == 4 { '4' }
    else if d == 5 { '5' }
    else if d == 6 { '6' }
    else if d == 7 { '7' }
    else if d == 8 { '8' }
    else { '9' }
}

/// Decimal text of a natural number, without leading zeros.
pub open spec fn decimal(n: nat) -> Seq<char>
    decreases n,
{
    if n < 10 {
        seq![digit_char(n as int)]
    } else {
        decimal(n / 10).push(digit_char((n % 10) as int))
    }
}

/// Decimal text of an integer, with a leading `-` when negative.
pub open spec fn signed_decimal(v: int) -> Seq<char> {
    if v < 0 {
        seq!['-'] + decimal((-v) as nat)
    } else {
        decimal(v as nat)
    }
}

/// The trigger expression that fires once a day at `hour:minutes` UTC.
pub open spec fn trigger_text(minutes: int, hour: int) -> Seq<char> {
    "0 "@ + decimal(minutes as nat) + " "@ + decimal(hour as nat) + " * * * *"@
}

/// Wraps a raw hour difference into `[0, 23]` by adding or taking 24 once.
pub open spec fn wrap_hour(raw: int) -> int {
    if raw < 0 {
        raw + 24
    } else if raw >= 24 {
        raw - 24
    } else {
        raw
    }
}

proof fn lemma_digits_value_nonneg(s: Seq<char>)
    requires
        all_digits(s),
    ensures
        digits_value(s) >= 0,
    decreases s.len(),
{
    if s.len() > 0 {
        assert(all_digits(s.drop_last()));
        lemma_digits_value_nonneg(s.drop_last());
    }
}

/// Reads the integer that `s` denotes (see `integer_value`) if it lies in `[min, max]`.
pub fn read_integer(s: &str, signed: bool, min: i128, max: i128) -> (r: Option<i128>)
    requires
        -READ_CAP <= min <= max <= READ_CAP,
    ensures
        r matches Some(v) ==> bounded_value(s@, signed, min as int, max as int) == Some(v as int),
        r is None ==> bounded_value(s@, signed, min as int, max as int) is None,
{
    let n = s.unicode_len();
    if n == 0 {
        return None;
    }
    let c0 = s.get_char(0);
    let negative = signed && c0 == '-';
    let start: usize = if c0 == '+' || negative { 1 } else { 0 };
    if start >= n {
        return None;
    }
    let mut acc: i128 = 0;
    let mut big = false;
    let mut i: usize = start;
    while i < n
        invariant
            start <= i <= n,
            n == s@.len(),
            start == 0 || start == 1,
            s@[0] == c0,
            negative == (signed && c0 == '-'),
            start == 1 <==> (c0 == '+' || negative),
            all_digits(s@.subrange(start as int, i as int)),
            big ==> digits_value(s@.subrange(start as int, i as int)) > READ_CAP,
            !big ==> acc == digits_value(s@.subrange(start as int, i as int)),
            0 <= acc <= READ_CAP,
        decreases n - i,
    {
        let c = s.get_char(i);
        if !('0' <= c && c <= '9') {
            proof {
                let d = s@.subrange(start as int, n as int);
                assert(d[i - start] == c);
                assert(!is_digit(d[i - start]));
                assert(!all_digits(d));
                assert(start == 1 ==> d =~= s@.subrange(1, s@.len() as int));
                assert(s@[0] == c0);
                if start == 1 {
                    assert(s@[0] == '+' || (signed && s@[0] == '-'));
                } else {
                    assert(!(s@[0] == '+' || (signed && s@[0] == '-')));
                }
                assert(integer_value(s@, signed) is None);
                if start == 0 {
                    assert(d =~= s@);
                }
            }
            return None;
        }
        let ghost pre = s@.subrange(start as int, i as int);
        let ghost next_seq = s@.subrange(start as int, i + 1);
        proof {
            assert(next_seq.drop_last() =~= pre);
            assert(next_seq.last() == c);
            assert(all_digits(next_seq)) by {
                assert forall|k: int| 0 <= k < next_seq.len() implies is_digit(#[trigger] next_seq[k]) by {
                    if k < pre.len() {
                        assert(next_seq[k] == pre[k]);
                    }
                }
            }
            lemma_digits_value_nonneg(pre);
        }
        if !big {
            let next = acc * 10 + ((c as u32) - 48) as i128;
            if next > READ_CAP {
                big = true;
            } else {
                acc = next;
            }
        }
        i += 1;
    }
    proof {
        assert(s@.subrange(start as int, n as int) =~= s@.subrange(1, s@.len() as int) || start == 0);
        if start == 0 {
            assert(s@.subrange(0, n as int) =~= s@);
        }
    }
    if big {
        return None;
    }
    let v: i128 = if negative { -acc } else { acc };
    if min <= v && v <= max {
        Some(v)
    } else {
        None
    }
}

fn digit_text(d: u32) -> (r: &'static str)
    requires
        d < 10,
    ensures
        r@ == seq![digit_char(d as int)],
{
    proof {
        reveal_strlit("0");
        reveal_strlit("1");
        reveal_strlit("2");
        reveal_strlit("3");
        reveal_strlit("4");
        reveal_strlit("5");
        reveal_strlit("6");
        reveal_strlit("7");
        reveal_strlit("8");
        reveal_strlit("9");
    }
    match d {
        0 => "0",
        1 => "1",
        2 => "2",
        3 => "3",
        4 => "4",
        5 => "5",
        6 => "6",
        7 => "7",
        8 => "8",
        _ => "9",
    }
}

/// Appends the decimal text of `n` to `out`.
pub fn push_decimal(out: &mut String, n: u32)
    ensures
        final(out)@ == old(out)@ + decimal(n as nat),
    decreases n,
{
    if n >= 10 {
        push_decimal(out, n / 10);
    }
    out.append(digit_text(n % 10));
    proof {
        if n >= 10 {
            assert(decimal(n as nat) == decimal((n / 10) as nat).push(digit_char((n % 10) as int)));
        }
        assert(final(out)@ =~= old(out)@ + decimal(n as nat));
    }
}

/// Appends the decimal text of `v`, with a leading `-` when negative.
pub fn push_signed_decimal(out: &mut String, v: i32)
    ensures
        final(out)@ == old(out)@ + signed_decimal(v as int),
{
    if v < 0 {
        proof {
            reveal_strlit("-");
        }
        out.append("-");
        let m: u32 = (-(v as i64)) as u32;
        push_decimal(out, m);
        assert(final(out)@ =~= old(out)@ + signed_decimal(v as int));
    } else {
        push_decimal(out, v as u32);
    }
}

/// The UTC hour at which a local `local_hour` falls under UTC offset `offset`.
///
/// The difference is wrapped into `[0, 23]`; a difference of exactly 24 is wrapped
/// too, so that no trigger ever names hour 24.
pub fn to_utc_hour(local_hour: i8, offset: i8) -> (r: i8)
    requires
        0 <= local_hour <= 24,
        -11 <= offset <= 12,
    ensures
        r == wrap_hour(local_hour - offset),
        0 <= r <= 23,
{
    let raw: i8 = local_hour - offset;
    if raw < 0 {
        raw + 24
    } else if raw >= 24 {
        raw - 24
    } else {
        raw
    }
}

/// The local hour at which a UTC `utc_hour` falls under UTC offset `offset`: the
/// inverse of `to_utc_hour`, wrapped the same way.
pub fn to_local_hour(utc_hour: i8, offset: i8) -> (r: i8)
    requires
        0 <= utc_hour <= 24,
        -11 <= offset <= 12,
    ensures
        r == wrap_hour(utc_hour + offset),
        0 <= r <= 23,
{
    let raw: i8 = utc_hour + offset;
    if raw < 0 {
        raw + 24
    } else if raw >= 24 {
        raw - 24
    } else {
        raw
    }
}

/// The trigger expression `0 {minutes} {hour} * * * *`.
pub fn build_trigger(minutes: i8, hour: i8) -> (r: String)
    requires
        0 <= minutes,
        0 <= hour,
    ensures
        r@ == trigger_text(minutes as int, hour as int),
{
    let mut out = String::from_str("0 ");
    push_decimal(&mut out, minutes as u32);
    out.append(" ");
    push_decimal(&mut out, hour as u32);
    out.append(" * * * *");
    assert(out@ =~= trigger_text(minutes as int, hour as int));
    out
}

/// Recovers minutes and UTC hour (minutes in `[0, 59]`, hour in `[0, 24]`) from a
/// stored trigger expression; `None` where it is not of the form `build_trigger` writes.
pub fn decode_trigger(trigger: &str) -> (r: Option<(i8, i8)>)
    ensures
        r matches Some((m, h)) ==> 0 <= m <= 59 && 0 <= h <= 24 && trigger@ == trigger_text(
            m as int,
            h as int,
        ),
        r is None ==> forall|m: int, h: int|
            0 <= m <= 59 && 0 <= h <= 24 ==> trigger@ != #[trigger] trigger_text(m, h),
{
    let wanted = String::from_str(trigger);
    let mut m: i8 = 0;
    while m < 60
        invariant
            0 <= m <= 60,
            wanted@ == trigger@,
            forall|m2: int, h: int|
                0 <= m2 < m && 0 <= h <= 24 ==> trigger@ != #[trigger] trigger_text(m2, h),
        decreases 60 - m,
    {
        let mut h: i8 = 0;
        while h < 25
            invariant
                0 <= m < 60,
                0 <= h <= 25,
                wanted@ == trigger@,
                forall|m2: int, h2: int|
                    0 <= m2 < m && 0 <= h2 <= 24 ==> trigger@ != #[trigger] trigger_text(m2, h2),
                forall|h2: int| 0 <= h2 < h ==> trigger@ != #[trigger] trigger_text(m as int, h2),
            decreases 25 - h,
        {
            let candidate = build_trigger(m, h);
            if candidate == wanted {
                return Some((m, h));
            }
            h += 1;
        }
        m += 1;
    }
    None
}

/// Re-derives a stored trigger for a new UTC offset: the local time it stood for under
/// `previous_offset` is found again and moved to UTC under `new_offset`.
pub fn reschedule_trigger(trigger: &str, previous_offset: i8, new_offset: i8) -> (r: Option<
    String,
>)
    requires
        -11 <= previous_offset <= 12,
        -11 <= new_offset <= 12,
    ensures
        r is None <==> forall|m: int, h: int|
            0 <= m <= 59 && 0 <= h <= 24 ==> trigger@ != #[trigger] trigger_text(m, h),
        r matches Some(t) ==> exists|m: int, h: int|
            0 <= m <= 59 && 0 <= h <= 24 && trigger@ == #[trigger] trigger_text(m, h) && t@
                == trigger_text(m, wrap_hour(wrap_hour(h + previous_offset) - new_offset)),
{
    match decode_trigger(trigger) {
        None => None,
        Some((minutes, utc_hour)) => {
            let local_hour = to_local_hour(utc_hour, previous_offset);
            let new_hour = to_utc_hour(local_hour, new_offset);
            let r = build_trigger(minutes, new_hour);
            assert(trigger@ == trigger_text(minutes as int, utc_hour as int));
            Some(r)
        },
    }
}

/// For every offset in `[-11, 12]` and local time `hour:minutes`, the UTC hour is
/// `(hour - offset) mod 24`.
pub proof fn lemma_utc_hour_is_mod_24(hour: int, offset: int)
    requires
        0 <= hour <= 23,
        -11 <= offset <= 12,
    ensures
        wrap_hour(hour - offset) == (hour - offset) % 24,
        0 <= wrap_hour(hour - offset) <= 23,
{
}

/// Re-deriving a trigger for an unchanged offset gives the same text back, for every
/// trigger whose hour lies in `[0, 23]` (every trigger that `build_trigger` is given by
/// `to_utc_hour`).
pub proof fn lemma_unchanged_offset_keeps_trigger(minutes: int, hour: int, offset: int)
    requires
        0 <= minutes <= 59,
        0 <= hour <= 23,
        -11 <= offset <= 12,
    ensures
        trigger_text(minutes, wrap_hour(wrap_hour(hour + offset) - offset)) == trigger_text(
            minutes,
            hour,
        ),
{
    assert(wrap_hour(wrap_hour(hour + offset) - offset) == hour);
}

} // verus!
