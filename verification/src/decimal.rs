//! Decimal rendering and parsing of integers, as `Display` and `FromStr` do it.

use vstd::prelude::*;

verus! {

pub open spec fn digit_char(d: int) -> char {
    if d == 0 {
        '0'
    } else if d == 1 {
        '1'
    } else if d == 2 {
        '2'
    } else if d == 3 {
        '3'
    } else if d == 4 {
        '4'
    } else if d == 5 {
        '5'
    } else if d == 6 {
        '6'
    } else if d == 7 {
        '7'
    } else if d == 8 {
        '8'
    } else {
        '9'
    }
}

pub open spec fn is_digit(c: char) -> bool {
    '0' <= c <= '9'
}

pub open spec fn digit_value(c: char) -> int {
    (c as u32) - 48
}

/// Decimal digits of `n`, most significant first, no leading zeros.
pub open spec fn dec(n: nat) -> Seq<char>
    decreases n,
{
    if n < 10 {
        seq![digit_char(n as int)]
    } else {
        dec(n / 10).push(digit_char((n % 10) as int))
    }
}

/// `s` padded on the left with `0` to at least `w` characters (`{:0w}`).
pub open spec fn pad_zero(s: Seq<char>, w: nat) -> Seq<char> {
    if s.len() >= w {
        s
    } else {
        Seq::new((w - s.len()) as nat, |_i: int| '0') + s
    }
}

/// `{}` of a signed integer.
pub open spec fn signed_dec(n: int) -> Seq<char> {
    if n < 0 {
        seq!['-'] + dec((-n) as nat)
    } else {
        dec(n as nat)
    }
}

/// `{:0w}` of a signed integer: the sign first, zeros after it.
pub open spec fn signed_pad(n: int, w: nat) -> Seq<char> {
    if n < 0 {
        seq!['-'] + pad_zero(dec((-n) as nat), if w > 0 { (w - 1) as nat } else { 0 })
    } else {
        pad_zero(dec(n as nat), w)
    }
}

pub open spec fn all_digits(s: Seq<char>) -> bool {
    forall|i: int| 0 <= i < s.len() ==> is_digit(#[trigger] s[i])
}

/// Value of a run of decimal digits.
pub open spec fn digits_value(s: Seq<char>) -> nat
    decreases s.len(),
{
    if s.len() == 0 {
        0
    } else {
        digits_value(s.drop_last()) * 10 + (if is_digit(s.last()) {
            digit_value(s.last()) as nat
        } else {
            0
        })
    }
}

/// The number `FromStr` reads for an unsigned type, before the range check:
/// an optional `+`, then one or more decimal digits.
pub open spec fn unsigned_text(s: Seq<char>) -> Option<nat> {
    let body = if s.len() > 0 && s[0] == '+' {
        s.drop_first()
    } else {
        s
    };
    if body.len() > 0 && all_digits(body) {
        Some(digits_value(body))
    } else {
        None
    }
}

/// The number `FromStr` reads for a signed type, before the range check:
/// an optional `+` or `-`, then one or more decimal digits.
pub open spec fn signed_text(s: Seq<char>) -> Option<int> {
    if s.len() > 0 && s[0] == '-' {
        let body = s.drop_first();
        if body.len() > 0 && all_digits(body) {
            Some(-(digits_value(body) as int))
        } else {
            None
        }
    } else {
        match unsigned_text(s) {
            Some(v) => Some(v as int),
            None => None,
        }
    }
}

/// `FromStr` of an unsigned integer type whose largest value is `max`.
pub open spec fn parse_unsigned(s: Seq<char>, max: nat) -> Option<nat> {
    match unsigned_text(s) {
        Some(v) => if v <= max {
            Some(v)
        } else {
            None
        },
        None => None,
    }
}

/// `FromStr` of a signed integer type with range `min..=max`.
pub open spec fn parse_signed(s: Seq<char>, min: int, max: int) -> Option<int> {
    match signed_text(s) {
        Some(v) => if min <= v <= max {
            Some(v)
        } else {
            None
        },
        None => None,
    }
}

pub proof fn lemma_digit_roundtrip(d: int)
    requires
        0 <= d < 10,
    ensures
        is_digit(digit_char(d)),
        digit_value(digit_char(d)) == d,
{
}

pub proof fn lemma_dec_shape(n: nat)
    ensures
        dec(n).len() >= 1,
        all_digits(dec(n)),
        digits_value(dec(n)) == n,
        n > 0 ==> dec(n)[0] != '0',
        n < 10 <==> dec(n).len() == 1,
    decreases n,
{
    if n < 10 {
        lemma_digit_roundtrip(n as int);
        assert(dec(n).drop_last() =~= Seq::<char>::empty());
        assert(digits_value(Seq::<char>::empty()) == 0);
        assert(dec(n).last() == digit_char(n as int));
    } else {
        lemma_dec_shape(n / 10);
        lemma_digit_roundtrip((n % 10) as int);
        let s = dec(n);
        assert(s.drop_last() =~= dec(n / 10));
        assert(s.last() == digit_char((n % 10) as int));
        assert(n == (n / 10) * 10 + n % 10);
        assert(is_digit(s.last()));
        assert(digits_value(s) == digits_value(dec(n / 10)) * 10 + digit_value(s.last()));
        assert forall|i: int| 0 <= i < s.len() implies is_digit(#[trigger] s[i]) by {
            if i < s.len() - 1 {
                assert(s[i] == dec(n / 10)[i]);
            }
        }
    }
}

fn digit_of(d: u64) -> (c: char)
    requires
        d < 10,
    ensures
        c == digit_char(d as int),
{
    if d == 0 {
        '0'
    } else if d == 1 {
        '1'
    } else if d == 2 {
        '2'
    } else if d == 3 {
        '3'
    } else if d == 4 {
        '4'
    } else if d == 5 {
        '5'
    } else if d == 6 {
        '6'
    } else if d == 7 {
        '7'
    } else if d == 8 {
        '8'
    } else {
        '9'
    }
}

/// Appends the decimal digits of `n`.
pub fn push_dec(out: &mut Vec<char>, n: u64)
    ensures
        final(out)@ == old(out)@ + dec(n as nat),
    decreases n,
{
    if n >= 10 {
        push_dec(out, n / 10);
    }
    out.push(digit_of(n % 10));
    assert(final(out)@ =~= old(out)@ + dec(n as nat));
}

/// `{}` of an unsigned integer, as characters.
pub fn dec_chars(n: u64) -> (r: Vec<char>)
    ensures
        r@ == dec(n as nat),
{
    let mut r: Vec<char> = Vec::new();
    push_dec(&mut r, n);
    assert(r@ =~= dec(n as nat));
    r
}

/// `{}` of an unsigned integer.
pub fn dec_string(n: u64) -> (s: String)
    ensures
        s@ == dec(n as nat),
{
    let v = dec_chars(n);
    crate::text::string_from(v.as_slice())
}

/// Appends `{:0w}` of `n`.
pub fn push_padded(out: &mut Vec<char>, n: u64, w: usize)
    ensures
        final(out)@ == old(out)@ + pad_zero(dec(n as nat), w as nat),
{
    let digits = dec_chars(n);
    let ghost start = out@;
    if digits.len() < w {
        let mut k: usize = digits.len();
        while k < w
            invariant
                digits.len() <= k <= w,
                out@ == start + Seq::new((k - digits@.len()) as nat, |_i: int| '0'),
            decreases w - k,
        {
            out.push('0');
            k = k + 1;
            assert(out@ =~= start + Seq::new((k - digits@.len()) as nat, |_i: int| '0'));
        }
    }
    let ghost mid = out@;
    crate::text::push_all(out, digits.as_slice());
    assert(final(out)@ =~= start + pad_zero(dec(n as nat), w as nat));
}

/// Appends `{:0w}` of a signed value.
pub fn push_signed_padded(out: &mut Vec<char>, n: i64, w: usize)
    ensures
        final(out)@ == old(out)@ + signed_pad(n as int, w as nat),
{
    if n < 0 {
        out.push('-');
        let magnitude: u64 = if n == i64::MIN {
            9223372036854775808u64
        } else {
            (-n) as u64
        };
        let inner = if w > 0 {
            w - 1
        } else {
            0
        };
        let ghost mid = out@;
        push_padded(out, magnitude, inner);
        assert(final(out)@ =~= old(out)@ + signed_pad(n as int, w as nat));
    } else {
        push_padded(out, n as u64, w);
    }
}

/// Appends `{}` of a signed value.
pub fn push_signed(out: &mut Vec<char>, n: i64)
    ensures
        final(out)@ == old(out)@ + signed_dec(n as int),
{
    if n < 0 {
        out.push('-');
        let magnitude: u64 = if n == i64::MIN {
            9223372036854775808u64
        } else {
            (-n) as u64
        };
        let ghost mid = out@;
        push_dec(out, magnitude);
        assert(final(out)@ =~= old(out)@ + signed_dec(n as int));
    } else {
        push_dec(out, n as u64);
    }
}

proof fn lemma_prefix_value(s: Seq<char>, k: int)
    requires
        0 <= k <= s.len(),
        all_digits(s),
    ensures
        digits_value(s.take(k)) <= digits_value(s),
    decreases s.len(),
{
    if k < s.len() {
        lemma_prefix_value(s.drop_last(), k);
        assert(s.drop_last().take(k) =~= s.take(k));
    } else {
        assert(s.take(k) =~= s);
    }
}

/// Value of the decimal digits `v[lo..]`, `None` when it exceeds `u64::MAX`.
fn digits_u64(v: &[char], lo: usize) -> (r: Option<u64>)
    requires
        lo <= v@.len(),
        all_digits(v@.skip(lo as int)),
    ensures
        match r {
            Some(x) => x as nat == digits_value(v@.skip(lo as int)),
            None => digits_value(v@.skip(lo as int)) > u64::MAX,
        },
{
    let ghost body = v@.skip(lo as int);
    let mut acc: u64 = 0;
    let mut i = lo;
    assert(body.take(0) =~= Seq::<char>::empty());
    while i < v.len()
        invariant
            lo <= i <= v@.len(),
            body == v@.skip(lo as int),
            all_digits(body),
            acc as nat == digits_value(body.take(i - lo)),
        decreases v@.len() - i,
    {
        let c = v[i];
        assert(c == body[i - lo]);
        let d = (c as u32 - 48) as u64;
        let ghost next = body.take(i - lo + 1);
        assert(next.drop_last() =~= body.take(i - lo));
        assert(next.last() == c);
        match acc.checked_mul(10) {
            Some(m) => match m.checked_add(d) {
                Some(x) => {
                    acc = x;
                },
                None => {
                    proof {
                        lemma_prefix_value(body, i - lo + 1);
                    }
                    return None;
                },
            },
            None => {
                proof {
                    lemma_prefix_value(body, i - lo + 1);
                }
                return None;
            },
        }
        i = i + 1;
    }
    assert(body.take(i - lo) =~= body);
    Some(acc)
}

/// `u64::from_str`.
pub fn parse_u64(v: &[char]) -> (r: Option<u64>)
    ensures
        match parse_unsigned(v@, u64::MAX as nat) {
            Some(x) => r == Some(x as u64),
            None => r is None,
        },
{
    let lo: usize = if v.len() > 0 && v[0] == '+' {
        1
    } else {
        0
    };
    let ghost body = if v@.len() > 0 && v@[0] == '+' {
        v@.drop_first()
    } else {
        v@
    };
    assert(body =~= v@.skip(lo as int));
    if lo == v.len() {
        return None;
    }
    let mut i = lo;
    while i < v.len()
        invariant
            lo <= i <= v@.len(),
            body == v@.skip(lo as int),
            body == (if v@.len() > 0 && v@[0] == '+' {
                v@.drop_first()
            } else {
                v@
            }),
            body.len() > 0,
            forall|k: int| lo <= k < i ==> is_digit(#[trigger] v@[k]),
        decreases v@.len() - i,
    {
        if !('0' <= v[i] && v[i] <= '9') {
            assert(body[i - lo] == v@[i as int]);
            assert(!all_digits(body));
            return None;
        }
        i = i + 1;
    }
    assert(all_digits(body)) by {
        assert forall|k: int| 0 <= k < body.len() implies is_digit(#[trigger] body[k]) by {
            assert(body[k] == v@[k + lo]);
        }
    }
    digits_u64(v, lo)
}

/// `u32::from_str`.
pub fn parse_u32(v: &[char]) -> (r: Option<u32>)
    ensures
        match parse_unsigned(v@, u32::MAX as nat) {
            Some(x) => r == Some(x as u32),
            None => r is None,
        },
{
    match parse_u64(v) {
        Some(x) => if x <= u32::MAX as u64 {
            Some(x as u32)
        } else {
            None
        },
        None => None,
    }
}

/// `u16::from_str`.
pub fn parse_u16(v: &[char]) -> (r: Option<u16>)
    ensures
        match parse_unsigned(v@, u16::MAX as nat) {
            Some(x) => r == Some(x as u16),
            None => r is None,
        },
{
    match parse_u64(v) {
        Some(x) => if x <= u16::MAX as u64 {
            Some(x as u16)
        } else {
            None
        },
        None => None,
    }
}

/// `i32::from_str`.
pub fn parse_i32(v: &[char]) -> (r: Option<i32>)
    ensures
        match parse_signed(v@, i32::MIN as int, i32::MAX as int) {
            Some(x) => r == Some(x as i32),
            None => r is None,
        },
{
    if v.len() > 0 && v[0] == '-' {
        let rest = crate::text::slice_range(v, 1, v.len());
        assert(rest@ =~= v@.drop_first());
        if rest.len() == 0 || rest[0] == '+' || rest[0] == '-' {
            if rest.len() > 0 {
                assert(!is_digit(rest@[0]));
            }
            return None;
        }
        match parse_u64(rest.as_slice()) {
            Some(m) => {
                if m <= 2147483648u64 {
                    Some((0i64 - m as i64) as i32)
                } else {
                    None
                }
            },
            None => None,
        }
    } else {
        match parse_u64(v) {
            Some(x) => if x <= i32::MAX as u64 {
                Some(x as i32)
            } else {
                None
            },
            None => None,
        }
    }
}

} // verus!
