//! Fixed-point numeric text: decimal rendering of integers, parsing of the
//! wire's decimal number text into micro-units (millionths), and
//! quantization of prices to an instrument's tick size.

use vstd::arithmetic::div_mod::{
    lemma_basic_div, lemma_div_denominator, lemma_fundamental_div_mod, lemma_mod_bound,
};
use vstd::arithmetic::mul::lemma_mul_inequality;
use vstd::prelude::*;

verus! {

/// The canonical character for one decimal digit value.
pub open spec fn digit_char(d: nat) -> char {
    if d == 0 {
        '0'
    } else if d == 1 {
        '1'
    } else if d == 2 {
        '2'
    } else if d == 3 {
        '3'
    } else if d == 4 {
        '4'
    } else if d == 5 {
        '5'
    } else if d == 6 {
        '6'
    } else if d == 7 {
        '7'
    } else if d == 8 {
        '8'
    } else {
        '9'
    }
}

/// The decimal rendering of a natural number, most significant digit first,
/// with no leading zeros (zero itself renders as "0").
pub open spec fn dec_of(n: nat) -> Seq<char>
    decreases n,
{
    if n < 10 {
        seq![digit_char(n)]
    } else {
        dec_of(n / 10).push(digit_char(n % 10))
    }
}

/// Relies on `String::push` of std: appends exactly one character.
#[verifier::external_body]
pub(crate) fn push_char(s: &mut String, c: char)
    ensures
        final(s)@ == old(s)@.push(c),
{
    s.push(c);
}

/// The character for one digit value below ten.
fn digit_to_char(d: u64) -> (c: char)
    requires
        d < 10,
    ensures
        c == digit_char(d as nat),
{
    if d == 0 {
        '0'
    } else if d == 1 {
        '1'
    } else if d == 2 {
        '2'
    } else if d == 3 {
        '3'
    } else if d == 4 {
        '4'
    } else if d == 5 {
        '5'
    } else if d == 6 {
        '6'
    } else if d == 7 {
        '7'
    } else if d == 8 {
        '8'
    } else {
        '9'
    }
}

/// Appends the decimal rendering of `n` to `s`.
fn push_dec(s: &mut String, n: u64)
    ensures
        final(s)@ == old(s)@ + dec_of(n as nat),
    decreases n,
{
    if n >= 10 {
        push_dec(s, n / 10);
    }
    push_char(s, digit_to_char(n % 10));
    assert(s@ =~= old(s)@ + dec_of(n as nat));
}

/// Renders an unsigned integer as its decimal text.
pub fn u64_to_dec(n: u64) -> (s: String)
    ensures
        s@ == dec_of(n as nat),
{
    let mut s = String::new();
    push_dec(&mut s, n);
    assert(s@ =~= dec_of(n as nat));
    s
}

/// Whether a character is a decimal digit.
pub open spec fn is_digit(c: char) -> bool {
    c == '0' || c == '1' || c == '2' || c == '3' || c == '4' || c == '5' || c == '6' || c == '7'
        || c == '8' || c == '9'
}

/// The value of one decimal digit character.
pub open spec fn digit_val(c: char) -> nat {
    if c == '1' {
        1
    } else if c == '2' {
        2
    } else if c == '3' {
        3
    } else if c == '4' {
        4
    } else if c == '5' {
        5
    } else if c == '6' {
        6
    } else if c == '7' {
        7
    } else if c == '8' {
        8
    } else if c == '9' {
        9
    } else {
        0
    }
}

/// Whether every character of a sequence is a decimal digit.
pub open spec fn all_digits(s: Seq<char>) -> bool {
    forall|i: int| 0 <= i < s.len() ==> is_digit(#[trigger] s[i])
}

/// The value of a sequence of decimal digit characters, most significant first.
pub open spec fn digits_val(s: Seq<char>) -> nat
    decreases s.len(),
{
    if s.len() == 0 {
        0
    } else {
        digits_val(s.drop_last()) * 10 + digit_val(s.last())
    }
}

/// The value of a non-empty run of digits, when it fits in 64 bits.
pub open spec fn digits_u64_of(s: Seq<char>) -> Option<u64> {
    if s.len() > 0 && all_digits(s) && digits_val(s) <= u64::MAX {
        Some(digits_val(s) as u64)
    } else {
        None
    }
}

/// Ten to a natural power.
pub open spec fn pow10(e: nat) -> nat
    decreases e,
{
    if e == 0 {
        1
    } else {
        10 * pow10((e - 1) as nat)
    }
}

/// The first position at which one of two characters occurs, or -1.
pub open spec fn find_char(s: Seq<char>, c1: char, c2: char) -> int
    decreases s.len(),
{
    if s.len() == 0 {
        -1
    } else if s[0] == c1 || s[0] == c2 {
        0
    } else {
        let r = find_char(s.drop_first(), c1, c2);
        if r == -1 {
            -1
        } else {
            r + 1
        }
    }
}

proof fn lemma_find_char_at(s: Seq<char>, c1: char, c2: char, i: int)
    requires
        0 <= i < s.len(),
        forall|j: int| 0 <= j < i ==> #[trigger] s[j] != c1 && s[j] != c2,
        s[i] == c1 || s[i] == c2,
    ensures
        find_char(s, c1, c2) == i,
    decreases i,
{
    if i > 0 {
        assert(s[0] != c1 && s[0] != c2);
        let t = s.drop_first();
        assert forall|j: int| 0 <= j < i - 1 implies #[trigger] t[j] != c1 && t[j] != c2 by {
            assert(t[j] == s[j + 1]);
        }
        assert(t[i - 1] == s[i]);
        lemma_find_char_at(t, c1, c2, i - 1);
    }
}

proof fn lemma_find_char_none(s: Seq<char>, c1: char, c2: char)
    requires
        forall|j: int| 0 <= j < s.len() ==> #[trigger] s[j] != c1 && s[j] != c2,
    ensures
        find_char(s, c1, c2) == -1,
    decreases s.len(),
{
    if s.len() > 0 {
        let t = s.drop_first();
        assert forall|j: int| 0 <= j < t.len() implies #[trigger] t[j] != c1 && t[j] != c2 by {
            assert(t[j] == s[j + 1]);
        }
        lemma_find_char_none(t, c1, c2);
    }
}

/// The first position at which one of two characters occurs in a string.
fn find_char_exec(s: &str, c1: char, c2: char) -> (r: Option<usize>)
    ensures
        match r {
            Some(i) => find_char(s@, c1, c2) == i && i < s@.len(),
            None => find_char(s@, c1, c2) == -1,
        },
{
    let n = s.unicode_len();
    let mut i: usize = 0;
    while i < n
        invariant
            0 <= i <= n,
            n == s@.len(),
            forall|j: int| 0 <= j < i ==> #[trigger] s@[j] != c1 && s@[j] != c2,
        decreases n - i,
    {
        let c = s.get_char(i);
        if c == c1 || c == c2 {
            proof {
                lemma_find_char_at(s@, c1, c2, i as int);
            }
            return Some(i);
        }
        i = i + 1;
    }
    proof {
        lemma_find_char_none(s@, c1, c2);
    }
    None
}

/// The value of one decimal digit character, if it is one.
fn char_digit(c: char) -> (r: Option<u64>)
    ensures
        match r {
            Some(d) => is_digit(c) && d == digit_val(c),
            None => !is_digit(c),
        },
{
    match c {
        '0' => Some(0),
        '1' => Some(1),
        '2' => Some(2),
        '3' => Some(3),
        '4' => Some(4),
        '5' => Some(5),
        '6' => Some(6),
        '7' => Some(7),
        '8' => Some(8),
        '9' => Some(9),
        _ => None,
    }
}

proof fn lemma_digits_val_prefix(s: Seq<char>, i: int)
    requires
        0 <= i <= s.len(),
    ensures
        digits_val(s.take(i)) <= digits_val(s),
    decreases s.len() - i,
{
    if i < s.len() {
        lemma_digits_val_prefix(s, i + 1);
        assert(s.take(i + 1).drop_last() =~= s.take(i));
        assert(digits_val(s.take(i + 1)) == digits_val(s.take(i)) * 10 + digit_val(
            s.take(i + 1).last(),
        ));
    } else {
        assert(s.take(i) =~= s);
    }
}

/// Parses a non-empty run of decimal digits into a 64-bit value.
fn parse_digits(s: &str) -> (r: Option<u64>)
    ensures
        r == digits_u64_of(s@),
{
    let n = s.unicode_len();
    if n == 0 {
        return None;
    }
    let mut val: u64 = 0;
    let mut i: usize = 0;
    while i < n
        invariant
            0 <= i <= n,
            n == s@.len(),
            all_digits(s@.take(i as int)),
            val == digits_val(s@.take(i as int)),
        decreases n - i,
    {
        let c = s.get_char(i);
        let d = match char_digit(c) {
            Some(d) => d,
            None => {
                assert(!all_digits(s@));
                return None;
            },
        };
        let v10 = match val.checked_mul(10) {
            Some(v) => v,
            None => {
                proof {
                    assert(s@.take(i as int + 1).drop_last() =~= s@.take(i as int));
                    assert(digits_val(s@.take(i as int + 1)) > u64::MAX);
                    lemma_digits_val_prefix(s@, i as int + 1);
                }
                return None;
            },
        };
        let v = match v10.checked_add(d) {
            Some(v) => v,
            None => {
                proof {
                    assert(s@.take(i as int + 1).drop_last() =~= s@.take(i as int));
                    assert(digits_val(s@.take(i as int + 1)) > u64::MAX);
                    lemma_digits_val_prefix(s@, i as int + 1);
                }
                return None;
            },
        };
        proof {
            assert(s@.take(i as int + 1).drop_last() =~= s@.take(i as int));
        }
        val = v;
        i = i + 1;
    }
    proof {
        assert(s@.take(n as int) =~= s@);
    }
    Some(val)
}

/// Whether two strings hold the same characters.
pub fn str_eq(a: &str, b: &str) -> (r: bool)
    ensures
        r == (a@ == b@),
{
    let n = a.unicode_len();
    let m = b.unicode_len();
    if n != m {
        return false;
    }
    let mut i: usize = 0;
    while i < n
        invariant
            i <= n,
            n == a@.len(),
            n == b@.len(),
            forall|j: int| 0 <= j < i ==> a@[j] == b@[j],
        decreases n - i,
    {
        if a.get_char(i) != b.get_char(i) {
            return false;
        }
        i = i + 1;
    }
    proof {
        assert(a@ =~= b@);
    }
    true
}

proof fn lemma_pow10_pos(e: nat)
    ensures
        pow10(e) >= 1,
    decreases e,
{
    if e > 0 {
        lemma_pow10_pos((e - 1) as nat);
    }
}

proof fn lemma_pow10_add(a: nat, b: nat)
    ensures
        pow10(a + b) == pow10(a) * pow10(b),
    decreases b,
{
    if b == 0 {
        assert(pow10(a + 0) == pow10(a) * 1) by (nonlinear_arith)
            requires
                pow10(a + 0) == pow10(a),
        ;
    } else {
        lemma_pow10_add(a, (b - 1) as nat);
        assert(pow10(a + b) == 10 * pow10((a + b - 1) as nat));
        assert(pow10(a) * pow10(b) == pow10(a) * (10 * pow10((b - 1) as nat)));
        assert(pow10(a) * (10 * pow10((b - 1) as nat)) == 10 * (pow10(a) * pow10(
            (b - 1) as nat,
        ))) by (nonlinear_arith);
    }
}

proof fn lemma_pow10_20_large()
    ensures
        pow10(20) > u64::MAX,
{
    assert(pow10(0) == 1);
    assert(pow10(1) == 10);
    assert(pow10(2) == 100);
    assert(pow10(3) == 1000);
    assert(pow10(4) == 10000);
    lemma_pow10_add(4, 4);
    assert(pow10(8) == 100000000);
    lemma_pow10_add(8, 8);
    assert(pow10(16) == 10000000000000000);
    lemma_pow10_add(16, 4);
    assert(pow10(20) == 100000000000000000000);
}

/// The mantissa text of a number: plain digits, or digits around one dot;
/// its value is the digits' value with the dot removed, together with the
/// count of fraction digits. Values beyond 64 bits are rejected.
pub open spec fn mantissa_of(m: Seq<char>) -> Option<(u64, nat)> {
    let dot = find_char(m, '.', '.');
    if dot == -1 {
        match digits_u64_of(m) {
            Some(v) => Some((v, 0 as nat)),
            None => None,
        }
    } else {
        let ip = m.subrange(0, dot);
        let fp = m.subrange(dot + 1, m.len() as int);
        if ip.len() > 0 && fp.len() > 0 {
            match digits_u64_of(ip + fp) {
                Some(v) => Some((v, fp.len())),
                None => None,
            }
        } else {
            None
        }
    }
}

/// The exponent text of a number: an optional sign and digits, capped at
/// four digits of magnitude.
pub open spec fn exp_of(e: Seq<char>) -> Option<int> {
    let neg = e.len() > 0 && e[0] == '-';
    let d = if e.len() > 0 && (e[0] == '-' || e[0] == '+') {
        e.subrange(1, e.len() as int)
    } else {
        e
    };
    match digits_u64_of(d) {
        Some(v) => if v > 9999 {
            None
        } else {
            Some(
                if neg {
                    -(v as int)
                } else {
                    v as int
                },
            )
        },
        None => None,
    }
}

/// The value of a decimal number text in micro-units (millionths),
/// truncated toward zero. Negative numbers and malformed text give
/// nothing.
pub open spec fn micro_of(s: Seq<char>) -> Option<nat> {
    let epos = find_char(s, 'e', 'E');
    let m = if epos == -1 {
        s
    } else {
        s.subrange(0, epos)
    };
    let e = if epos == -1 {
        Some(0 as int)
    } else {
        exp_of(s.subrange(epos + 1, s.len() as int))
    };
    match (mantissa_of(m), e) {
        (Some((mant, flen)), Some(ex)) => {
            let p = ex + 6 - flen;
            if p >= 0 {
                Some((mant as nat) * pow10(p as nat))
            } else {
                Some((mant as nat) / pow10((-p) as nat))
            }
        },
        _ => None,
    }
}

/// The micro-unit value of a decimal number text, when it fits in 64 bits.
pub open spec fn micro_u64_of(s: Seq<char>) -> Option<u64> {
    match micro_of(s) {
        Some(v) => if v <= u64::MAX {
            Some(v as u64)
        } else {
            None
        },
        None => None,
    }
}

/// Multiplies by a power of ten, reporting overflow.
fn mul_pow10(mant: u64, p: u64) -> (r: Option<u64>)
    ensures
        match r {
            Some(v) => v == (mant as nat) * pow10(p as nat),
            None => (mant as nat) * pow10(p as nat) > u64::MAX,
        },
{
    let mut val: u64 = mant;
    let mut j: u64 = 0;
    proof {
        assert(mant as nat * pow10(0) == mant) by (nonlinear_arith)
            requires
                pow10(0) == 1,
        ;
    }
    while j < p
        invariant
            j <= p,
            val == (mant as nat) * pow10(j as nat),
        decreases p - j,
    {
        let next = match val.checked_mul(10) {
            Some(v) => v,
            None => {
                proof {
                    lemma_pow10_add(j as nat, (p - j) as nat);
                    lemma_pow10_pos((p - j - 1) as nat);
                    assert(pow10((p - j) as nat) >= 10);
                    assert((mant as nat) * pow10(p as nat) == val * pow10((p - j) as nat))
                        by (nonlinear_arith)
                        requires
                            val == (mant as nat) * pow10(j as nat),
                            pow10((j + (p - j)) as nat) == pow10(j as nat) * pow10((p - j) as nat),
                            p as nat == (j + (p - j)) as nat,
                    ;
                    assert(val * pow10((p - j) as nat) >= val * 10) by (nonlinear_arith)
                        requires
                            pow10((p - j) as nat) >= 10,
                            val >= 0,
                    ;
                }
                return None;
            },
        };
        proof {
            assert(pow10((j + 1) as nat) == 10 * pow10(j as nat));
            assert((mant as nat) * pow10((j + 1) as nat) == 10 * ((mant as nat) * pow10(j as nat)))
                by (nonlinear_arith)
                requires
                    pow10((j + 1) as nat) == 10 * pow10(j as nat),
            ;
        }
        val = next;
        j = j + 1;
    }
    Some(val)
}

/// Divides by a power of ten, truncating toward zero.
fn div_pow10(mant: u64, k: u64) -> (r: u64)
    ensures
        r == (mant as nat) / pow10(k as nat),
{
    if k >= 20 {
        proof {
            lemma_pow10_20_large();
            lemma_pow10_add(20, (k - 20) as nat);
            lemma_pow10_pos((k - 20) as nat);
            assert(pow10(k as nat) >= pow10(20)) by (nonlinear_arith)
                requires
                    pow10(k as nat) == pow10(20) * pow10((k - 20) as nat),
                    pow10((k - 20) as nat) >= 1,
                    pow10(20) >= 0,
            ;
            lemma_basic_div(mant as int, pow10(k as nat) as int);
        }
        return 0;
    }
    let mut val: u64 = mant;
    let mut j: u64 = 0;
    proof {
        assert(pow10(0) == 1);
    }
    while j < k
        invariant
            j <= k,
            val == (mant as nat) / pow10(j as nat),
        decreases k - j,
    {
        proof {
            lemma_pow10_pos(j as nat);
            lemma_div_denominator(mant as int, pow10(j as nat) as int, 10);
            assert(pow10((j + 1) as nat) == 10 * pow10(j as nat));
        }
        val = val / 10;
        j = j + 1;
    }
    val
}

/// Parses the mantissa text of a number.
fn parse_mantissa(m: &str) -> (r: Option<(u64, usize)>)
    ensures
        match r {
            Some((v, f)) => mantissa_of(m@) == Some((v, f as nat)),
            None => mantissa_of(m@) is None,
        },
{
    let n = m.unicode_len();
    match find_char_exec(m, '.', '.') {
        None => {
            match parse_digits(m) {
                Some(v) => Some((v, 0)),
                None => None,
            }
        },
        Some(di) => {
            if di == 0 || di + 1 >= n {
                return None;
            }
            let ip = m.substring_char(0, di);
            let fp = m.substring_char(di + 1, n);
            let joined = ip.to_owned().concat(fp);
            let flen = n - di - 1;
            match parse_digits(joined.as_str()) {
                Some(v) => Some((v, flen)),
                None => None,
            }
        },
    }
}

/// Parses the exponent text of a number.
fn parse_exp(e: &str) -> (r: Option<i64>)
    ensures
        match r {
            Some(v) => exp_of(e@) == Some(v as int),
            None => exp_of(e@) is None,
        },
{
    let n = e.unicode_len();
    let mut neg = false;
    let mut start: usize = 0;
    if n > 0 {
        let c = e.get_char(0);
        if c == '-' {
            neg = true;
            start = 1;
        } else if c == '+' {
            start = 1;
        }
    }
    let d = e.substring_char(start, n);
    proof {
        if start == 0 {
            assert(d@ =~= e@);
        }
    }
    match parse_digits(d) {
        Some(v) => {
            if v > 9999 {
                None
            } else if neg {
                Some(-(v as i64))
            } else {
                Some(v as i64)
            }
        },
        None => None,
    }
}

/// Parses a decimal number text into micro-units (millionths), truncated
/// toward zero: digits, an optional fraction after one dot, an optional
/// exponent. Negative or malformed text, and values beyond 64 bits, give
/// nothing.
pub fn parse_micro(s: &str) -> (r: Option<u64>)
    ensures
        r == micro_u64_of(s@),
{
    let n = s.unicode_len();
    let epos = find_char_exec(s, 'e', 'E');
    let (m_str, ex): (&str, i64) = match epos {
        None => (s, 0i64),
        Some(i) => {
            let epart = s.substring_char(i + 1, n);
            match parse_exp(epart) {
                Some(e) => (s.substring_char(0, i), e),
                None => {
                    return None;
                },
            }
        },
    };
    let (mant, flen): (u64, usize) = match parse_mantissa(m_str) {
        Some(p) => p,
        None => {
            return None;
        },
    };
    let p: i128 = ex as i128 + 6 - flen as i128;
    if p >= 0 {
        mul_pow10(mant, p as u64)
    } else {
        let k_wide: i128 = -p;
        let k: u64 = if k_wide >= 20 {
            20
        } else {
            k_wide as u64
        };
        proof {
            if k_wide >= 20 {
                lemma_pow10_20_large();
                lemma_pow10_add(20, (k_wide - 20) as nat);
                lemma_pow10_pos((k_wide - 20) as nat);
                assert(pow10(k_wide as nat) >= pow10(20)) by (nonlinear_arith)
                    requires
                        pow10(k_wide as nat) == pow10(20) * pow10((k_wide - 20) as nat),
                        pow10((k_wide - 20) as nat) >= 1,
                        pow10(20) >= 0,
                ;
                lemma_basic_div(mant as int, pow10(k_wide as nat) as int);
                lemma_basic_div(mant as int, pow10(20) as int);
            }
        }
        Some(div_pow10(mant, k))
    }
}

/// The nearest multiple of the tick at or above `value - tick/2`: rounding
/// to the tick grid, halves rounding up.
pub open spec fn quantized(value: nat, tick: nat) -> nat {
    ((value + tick / 2) / tick) * tick
}

/// Quantizes a micro-unit value to the instrument's tick size.
pub fn quantize(value: u64, tick: u64) -> (r: u64)
    requires
        1 <= tick,
        value + tick / 2 <= u64::MAX,
    ensures
        r == quantized(value as nat, tick as nat),
        r <= value + tick / 2,
{
    let half = tick / 2;
    let sum = value + half;
    let q = sum / tick;
    proof {
        lemma_fundamental_div_mod(sum as int, tick as int);
        lemma_mod_bound(sum as int, tick as int);
        assert(sum as int == tick as int * (sum as int / tick as int) + sum as int % tick as int);
        vstd::arithmetic::mul::lemma_mul_is_commutative(q as int, tick as int);
        assert(q as int * tick as int <= sum as int);
    }
    q * tick
}

} // verus!
