//! The numeric token grammar of the format.
//!
//! A numeric token is an optional sign, a run of digits, and optionally a
//! decimal separator (`.` or `,`) followed by a second run of digits.  The
//! same grammar decides which lines are observation data rows and gives
//! integer and fixed-point decimal column values their meaning.

use vstd::prelude::*;

verus! {

pub open spec fn is_digit_char(c: char) -> bool {
    '0' <= c && c <= '9'
}

pub open spec fn digit_val(c: char) -> int {
    c as int - '0' as int
}

pub open spec fn all_digits(s: Seq<char>) -> bool {
    forall|i: int| 0 <= i < s.len() ==> is_digit_char(s[i])
}

/// The integer value of a run of digits, most significant first.
pub open spec fn digits_val(s: Seq<char>) -> int
    decreases s.len(),
{
    if s.len() == 0 {
        0
    } else {
        digits_val(s.drop_last()) * 10 + digit_val(s.last())
    }
}

pub open spec fn pow10(n: nat) -> int
    decreases n,
{
    if n == 0 {
        1
    } else {
        10 * pow10((n - 1) as nat)
    }
}

/// The first position at or after `i` that does not hold a digit.
pub open spec fn spec_scan_digits(s: Seq<char>, i: int) -> int
    decreases s.len() - i,
{
    if 0 <= i < s.len() {
        if is_digit_char(s[i]) {
            spec_scan_digits(s, i + 1)
        } else {
            i
        }
    } else {
        s.len() as int
    }
}

/// The first position at or after `i` that does not hold `'0'`.
pub open spec fn spec_scan_zeros(s: Seq<char>, i: int) -> int
    decreases s.len() - i,
{
    if 0 <= i < s.len() {
        if s[i] == '0' {
            spec_scan_zeros(s, i + 1)
        } else {
            i
        }
    } else {
        s.len() as int
    }
}

pub proof fn lemma_scan_digits(s: Seq<char>, i: int)
    requires
        0 <= i <= s.len(),
    ensures
        i <= spec_scan_digits(s, i) <= s.len(),
        forall|k: int| i <= k < spec_scan_digits(s, i) ==> is_digit_char(s[k]),
        spec_scan_digits(s, i) < s.len() ==> !is_digit_char(s[spec_scan_digits(s, i)]),
    decreases s.len() - i,
{
    if i < s.len() && is_digit_char(s[i]) {
        lemma_scan_digits(s, i + 1);
    }
}

pub proof fn lemma_scan_zeros(s: Seq<char>, i: int)
    requires
        0 <= i <= s.len(),
    ensures
        i <= spec_scan_zeros(s, i) <= s.len(),
        forall|k: int| i <= k < spec_scan_zeros(s, i) ==> s[k] == '0',
        spec_scan_zeros(s, i) < s.len() ==> s[spec_scan_zeros(s, i)] != '0',
    decreases s.len() - i,
{
    if i < s.len() && s[i] == '0' {
        lemma_scan_zeros(s, i + 1);
    }
}

pub proof fn lemma_digits_val_push(s: Seq<char>, c: char)
    ensures
        digits_val(s.push(c)) == digits_val(s) * 10 + digit_val(c),
{
    assert(s.push(c).drop_last() =~= s);
    assert(s.push(c).last() == c);
}

pub proof fn lemma_digits_val_lower(s: Seq<char>)
    requires
        all_digits(s),
        s.len() >= 1,
        s[0] != '0',
    ensures
        digits_val(s) >= pow10((s.len() - 1) as nat),
    decreases s.len(),
{
    if s.len() == 1 {
        assert(digit_val(s[0]) >= 1);
    } else {
        assert(all_digits(s.drop_last()));
        assert(s.drop_last()[0] == s[0]);
        lemma_digits_val_lower(s.drop_last());
        assert(digits_val(s.drop_last()) >= pow10((s.len() - 2) as nat));
        assert(digits_val(s.drop_last()) * 10 >= pow10((s.len() - 2) as nat) * 10);
        assert(((s.len() - 1) as nat - 1) as nat == (s.len() - 2) as nat);
        assert(pow10((s.len() - 1) as nat) == 10 * pow10((s.len() - 2) as nat));
        assert(digits_val(s) == digits_val(s.drop_last()) * 10 + digit_val(s.last()));
        assert(0 <= digit_val(s.last()));
    }
}

/// Leading zeros do not change the value of a digit run.
pub proof fn lemma_digits_val_leading_zeros(s: Seq<char>, k: int)
    requires
        0 <= k <= s.len(),
        forall|j: int| 0 <= j < k ==> s[j] == '0',
    ensures
        digits_val(s) == digits_val(s.skip(k)),
    decreases s.len(),
{
    if k == 0 {
        assert(s.skip(0) =~= s);
    } else if k == s.len() {
        assert(s.skip(k) =~= Seq::<char>::empty());
        assert(s.drop_last().len() == s.len() - 1);
        lemma_digits_val_leading_zeros(s.drop_last(), k - 1);
        assert(s.drop_last().skip(k - 1) =~= Seq::<char>::empty());
        assert(digit_val(s.last()) == 0);
    } else {
        lemma_digits_val_leading_zeros(s.drop_last(), k);
        assert(s.skip(k).drop_last() =~= s.drop_last().skip(k));
        assert(s.skip(k).last() == s.last());
    }
}

pub proof fn lemma_pow10_concrete()
    ensures
        pow10(6) == 1_000_000,
        pow10(10) == 10_000_000_000,
        pow10(12) == 1_000_000_000_000,
{
    reveal_with_fuel(pow10, 13);
}

/// Where the numeric body of a token starts: after a leading `+` or `-`.
pub open spec fn spec_body_start(s: Seq<char>) -> int {
    if s.len() > 0 && (s[0] == '+' || s[0] == '-') {
        1
    } else {
        0
    }
}

/// The sign a token's value carries.
pub open spec fn spec_sign(s: Seq<char>) -> int {
    if s.len() > 0 && s[0] == '-' {
        -1
    } else {
        1
    }
}

/// Whether a token matches the numeric pattern: an optional sign, a run of
/// digits, and optionally one `.` or `,` followed by a second run of digits.
pub open spec fn spec_is_decimal_token(s: Seq<char>) -> bool {
    let b = spec_body_start(s);
    let e1 = spec_scan_digits(s, b);
    &&& e1 > b
    &&& (e1 == s.len() || {
        &&& (s[e1] == '.' || s[e1] == ',')
        &&& spec_scan_digits(s, e1 + 1) == s.len()
        &&& e1 + 1 < s.len()
    })
}

/// Executable recognizer for [`spec_is_decimal_token`], on a prepared
/// character vector.
pub fn is_decimal_chars(v: &Vec<char>) -> (r: bool)
    ensures
        r == spec_is_decimal_token(v@),
{
    let n: usize = v.len();
    let b: usize = if n > 0 && (v[0] == '+' || v[0] == '-') {
        1
    } else {
        0
    };
    let e1 = scan_digits(v, b);
    proof {
        lemma_scan_digits(v@, b as int);
    }
    if e1 == b {
        return false;
    }
    if e1 == n {
        return true;
    }
    if !(v[e1] == '.' || v[e1] == ',') {
        return false;
    }
    let e2 = scan_digits(v, e1 + 1);
    proof {
        lemma_scan_digits(v@, e1 as int + 1);
    }
    e2 == n && e2 > e1 + 1
}

pub proof fn lemma_pow10_pos(n: nat)
    ensures
        pow10(n) >= 1,
    decreases n,
{
    if n > 0 {
        lemma_pow10_pos((n - 1) as nat);
    }
}

pub proof fn lemma_pow10_mono(a: nat, b: nat)
    requires
        a <= b,
    ensures
        pow10(a) <= pow10(b),
    decreases b,
{
    if a < b {
        lemma_pow10_mono(a, (b - 1) as nat);
        lemma_pow10_pos((b - 1) as nat);
    }
}

/// The value of a fractional digit run, scaled to millionths: the first six
/// digits count, shorter runs are padded with zeros.
pub open spec fn spec_frac_micro(f: Seq<char>) -> int {
    if f.len() >= 6 {
        digits_val(f.take(6))
    } else {
        digits_val(f) * pow10((6 - f.len()) as nat)
    }
}

/// The value of a numeric token in millionths, or `None` where the token does
/// not match the numeric pattern or its integer part has more than twelve
/// significant digits.
pub open spec fn spec_decimal_micro(s: Seq<char>) -> Option<int> {
    if !spec_is_decimal_token(s) {
        None
    } else {
        let b = spec_body_start(s);
        let e1 = spec_scan_digits(s, b);
        let z = spec_scan_zeros(s, b);
        if e1 - z > 12 {
            None
        } else {
            let ip = s.subrange(b, e1);
            let fp = if e1 == s.len() {
                Seq::<char>::empty()
            } else {
                s.subrange(e1 + 1, s.len() as int)
            };
            Some(spec_sign(s) * (digits_val(ip) * 1_000_000 + spec_frac_micro(fp)))
        }
    }
}

/// The value of an integer token, or `None` where the token is not an
/// optional sign followed by digits, or the value does not fit in an `i32`.
pub open spec fn spec_parse_i32(s: Seq<char>) -> Option<i32> {
    let b = spec_body_start(s);
    let e1 = spec_scan_digits(s, b);
    if e1 > b && e1 == s.len() {
        let val = spec_sign(s) * digits_val(s.subrange(b, e1));
        if i32::MIN <= val <= i32::MAX {
            Some(val as i32)
        } else {
            None
        }
    } else {
        None
    }
}

/// Executable mirror of [`spec_scan_zeros`].
pub fn scan_zeros(v: &Vec<char>, i: usize) -> (e: usize)
    requires
        i <= v@.len(),
    ensures
        e as int == spec_scan_zeros(v@, i as int),
        i <= e <= v@.len(),
{
    let n: usize = v.len();
    let mut j: usize = i;
    while j < n && v[j] == '0'
        invariant
            i <= j <= n,
            n == v@.len(),
            spec_scan_zeros(v@, i as int) == spec_scan_zeros(v@, j as int),
        decreases n - j,
    {
        j = j + 1;
    }
    proof {
        lemma_scan_zeros(v@, i as int);
    }
    j
}

/// Ten to a small power.
pub fn pow10_small(k: usize) -> (r: i64)
    requires
        k <= 6,
    ensures
        r as int == pow10(k as nat),
{
    let mut r: i64 = 1;
    let mut t: usize = 0;
    while t < k
        invariant
            t <= k <= 6,
            r as int == pow10(t as nat),
        decreases k - t,
    {
        proof {
            lemma_pow10_mono(t as nat, 5);
            lemma_pow10_concrete();
            reveal_with_fuel(pow10, 7);
        }
        r = r * 10;
        t = t + 1;
    }
    r
}

/// Accumulates the value of the digits `v[from..to]`.
fn digits_value_loop(v: &Vec<char>, from: usize, to: usize) -> (acc: i64)
    requires
        from <= to <= v@.len(),
        to - from <= 12,
        forall|k: int| from <= k < to ==> is_digit_char(v@[k]),
    ensures
        acc as int == digits_val(v@.subrange(from as int, to as int)),
        0 <= acc < pow10((to - from) as nat),
{
    let mut acc: i64 = 0;
    let mut j: usize = from;
    proof {
        assert(v@.subrange(from as int, from as int) =~= Seq::<char>::empty());
    }
    while j < to
        invariant
            from <= j <= to <= v@.len(),
            to - from <= 12,
            forall|k: int| from <= k < to ==> is_digit_char(v@[k]),
            acc as int == digits_val(v@.subrange(from as int, j as int)),
            0 <= acc < pow10((j - from) as nat),
        decreases to - j,
    {
        proof {
            lemma_pow10_mono((j - from) as nat, 12);
            lemma_pow10_concrete();
        }
        let c = v[j];
        assert(is_digit_char(c));
        let d: u32 = (c as u32) - ('0' as u32);
        proof {
            assert(v@.subrange(from as int, j as int).push(v@[j as int]) =~= v@.subrange(
                from as int,
                j as int + 1,
            ));
            lemma_digits_val_push(v@.subrange(from as int, j as int), v@[j as int]);
        }
        acc = acc * 10 + (d as i64);
        j = j + 1;
    }
    acc
}

/// The value of a numeric token in millionths of its unit.  Executable mirror
/// of [`spec_decimal_micro`].
pub fn decimal_micro_chars(v: &Vec<char>) -> (r: Option<i64>)
    ensures
        match r {
            Some(m) => spec_decimal_micro(v@) == Some(m as int),
            None => spec_decimal_micro(v@) is None,
        },
{
    let n: usize = v.len();
    let neg = n > 0 && v[0] == '-';
    let b: usize = if n > 0 && (v[0] == '+' || v[0] == '-') {
        1
    } else {
        0
    };
    let e1 = scan_digits(v, b);
    proof {
        lemma_scan_digits(v@, b as int);
    }
    if e1 == b {
        return None;
    }
    let mut fstart: usize = e1;
    let mut fend: usize = e1;
    if e1 < n {
        if !(v[e1] == '.' || v[e1] == ',') {
            return None;
        }
        let e2 = scan_digits(v, e1 + 1);
        proof {
            lemma_scan_digits(v@, e1 as int + 1);
        }
        if !(e2 == n && e2 > e1 + 1) {
            return None;
        }
        fstart = e1 + 1;
        fend = e2;
    }
    assert(spec_is_decimal_token(v@));
    let z = scan_zeros(v, b);
    proof {
        lemma_scan_zeros(v@, b as int);
        if z > e1 {
            assert(v@[e1 as int] == '0');
            assert(is_digit_char(v@[e1 as int]));
        }
    }
    assert(z <= e1);
    if e1 - z > 12 {
        return None;
    }
    let acc = digits_value_loop(v, z, e1);
    proof {
        lemma_digits_val_leading_zeros(v@.subrange(b as int, e1 as int), z as int - b as int);
        assert(v@.subrange(b as int, e1 as int).skip(z as int - b as int) =~= v@.subrange(
            z as int,
            e1 as int,
        ));
        lemma_pow10_mono((e1 - z) as nat, 12);
        lemma_pow10_concrete();
    }
    let flen: usize = fend - fstart;
    let facc: i64 = if flen >= 6 {
        let f = digits_value_loop(v, fstart, fstart + 6);
        proof {
            assert(v@.subrange(fstart as int, n as int).take(6) =~= v@.subrange(
                fstart as int,
                fstart as int + 6,
            ));
            reveal_with_fuel(pow10, 7);
        }
        f
    } else {
        let f = digits_value_loop(v, fstart, fend);
        proof {
            lemma_pow10_mono((fend - fstart) as nat, 6);
            reveal_with_fuel(pow10, 7);
            if fstart < fend {
                assert(v@.subrange(fstart as int, n as int) =~= v@.subrange(
                    fstart as int,
                    fend as int,
                ));
            } else {
                assert(v@.subrange(fstart as int, fend as int) =~= Seq::<char>::empty());
            }
        }
        let pad = pow10_small(6 - flen);
        proof {
            lemma_pow10_pos((6 - flen) as nat);
            assert((f as int) * (pad as int) < pow10((fend - fstart) as nat) * pow10(
                (6 - flen) as nat,
            )) by (nonlinear_arith)
                requires
                    0 <= (f as int) < pow10((fend - fstart) as nat),
                    (pad as int) == pow10((6 - flen) as nat),
                    pad >= 1,
            ;
            lemma_frac_pow_product((fend - fstart) as nat);
        }
        f * pad
    };
    assert(0 <= facc < 1_000_000);
    let tot: i64 = acc * 1_000_000 + facc;
    proof {
        if fstart == fend {
            assert(spec_frac_micro(Seq::<char>::empty()) == facc as int);
        }
    }
    proof {
        let s = v@;
        let ip = s.subrange(b as int, e1 as int);
        let fp = if e1 == n {
            Seq::<char>::empty()
        } else {
            s.subrange(e1 as int + 1, n as int)
        };
        lemma_sign_mul(spec_sign(s), digits_val(ip) * 1_000_000 + spec_frac_micro(fp));
        assert(digits_val(ip) * 1_000_000 + spec_frac_micro(fp) == tot as int);
    }
    if neg {
        proof {
            assert(spec_decimal_micro(v@) == Some(-(tot as int)));
        }
        Some(-tot)
    } else {
        proof {
            assert(spec_decimal_micro(v@) == Some(tot as int));
        }
        Some(tot)
    }
}

/// `pow10(a) * pow10(6 - a) == pow10(6)` for the padding step.
proof fn lemma_frac_pow_product(a: nat)
    requires
        a <= 6,
    ensures
        pow10(a) * pow10((6 - a) as nat) == 1_000_000,
    decreases a,
{
    if a == 0 {
        lemma_pow10_concrete();
    } else {
        lemma_frac_pow_product((a - 1) as nat);
        assert(pow10(a) == 10 * pow10((a - 1) as nat));
        assert((6 - (a - 1) as nat) as nat == (7 - a) as nat);
        assert(((7 - a) as nat - 1) as nat == (6 - a) as nat);
        assert(pow10((7 - a) as nat) == 10 * pow10((6 - a) as nat));
        assert(pow10((a - 1) as nat) * (10 * pow10((6 - a) as nat)) == 1_000_000);
        assert(pow10(a) * pow10((6 - a) as nat) == 1_000_000) by (nonlinear_arith)
            requires
                pow10(a) == 10 * pow10((a - 1) as nat),
                pow10((a - 1) as nat) * (10 * pow10((6 - a) as nat)) == 1_000_000,
        ;
    }
}

/// A sign factor distributes as negation.
pub proof fn lemma_sign_mul(sgn: int, x: int)
    requires
        sgn == 1 || sgn == -1,
    ensures
        sgn == 1 ==> sgn * x == x,
        sgn == -1 ==> sgn * x == -x,
{
    assert(1 * x == x) by (nonlinear_arith);
    assert((-1) * x == -x) by (nonlinear_arith);
}

/// The value of an integer token if it fits in an `i32`.  Executable mirror
/// of [`spec_parse_i32`].
#[verifier::rlimit(30)]
pub fn parse_i32_chars(v: &Vec<char>) -> (r: Option<i32>)
    ensures
        r == spec_parse_i32(v@),
{
    let n: usize = v.len();
    let neg = n > 0 && v[0] == '-';
    let b: usize = if n > 0 && (v[0] == '+' || v[0] == '-') {
        1
    } else {
        0
    };
    let e1 = scan_digits(v, b);
    proof {
        lemma_scan_digits(v@, b as int);
    }
    if e1 == b || e1 < n {
        return None;
    }
    let z = scan_zeros(v, b);
    proof {
        lemma_scan_zeros(v@, b as int);
        if z > e1 {
            assert(v@[e1 as int] == '0');
        }
    }
    assert(z <= e1);
    proof {
        lemma_digits_val_leading_zeros(v@.subrange(b as int, e1 as int), z as int - b as int);
        assert(v@.subrange(b as int, e1 as int).skip(z as int - b as int) =~= v@.subrange(
            z as int,
            e1 as int,
        ));
    }
    proof {
        assert forall|k: int| 0 <= k < e1 - z implies is_digit_char(
            v@.subrange(z as int, e1 as int)[k],
        ) by {
            assert(v@.subrange(z as int, e1 as int)[k] == v@[z as int + k]);
        }
        assert(all_digits(v@.subrange(z as int, e1 as int)));
    }
    if e1 - z > 10 {
        proof {
            assert(v@.subrange(z as int, e1 as int)[0] == v@[z as int]);
            assert(v@[z as int] != '0');
            lemma_digits_val_lower(v@.subrange(z as int, e1 as int));
            lemma_pow10_mono(10, (e1 - z - 1) as nat);
            lemma_pow10_concrete();
            assert(digits_val(v@.subrange(b as int, e1 as int)) >= 10_000_000_000);
            lemma_sign_mul(spec_sign(v@), digits_val(v@.subrange(b as int, e1 as int)));
            assert(spec_parse_i32(v@) is None);
        }
        return None;
    }
    let acc = digits_value_loop(v, z, e1);
    proof {
        lemma_pow10_mono((e1 - z) as nat, 10);
        lemma_pow10_concrete();
        assert(spec_body_start(v@) == b as int);
        assert(spec_scan_digits(v@, b as int) == e1 as int);
        assert(digits_val(v@.subrange(b as int, e1 as int)) == acc as int);
        lemma_sign_mul(spec_sign(v@), digits_val(v@.subrange(b as int, e1 as int)));
        if neg {
            assert(spec_sign(v@) == -1);
        } else {
            assert(spec_sign(v@) == 1);
        }
    }
    if neg {
        if acc > 2_147_483_648 {
            proof {
                assert(spec_parse_i32(v@) is None);
            }
            None
        } else if acc == 2_147_483_648 {
            proof {
                assert(spec_parse_i32(v@) == Some(i32::MIN));
            }
            Some(i32::MIN)
        } else {
            let r = -(acc as i32);
            proof {
                assert(spec_parse_i32(v@) == Some(r));
            }
            Some(r)
        }
    } else {
        if acc > 2_147_483_647 {
            proof {
                assert(spec_parse_i32(v@) is None);
            }
            None
        } else {
            let r = acc as i32;
            proof {
                assert(spec_parse_i32(v@) == Some(r));
            }
            Some(r)
        }
    }
}

/// Executable mirror of [`spec_scan_digits`].
pub fn scan_digits(v: &Vec<char>, i: usize) -> (e: usize)
    requires
        i <= v@.len(),
    ensures
        e as int == spec_scan_digits(v@, i as int),
        i <= e <= v@.len(),
{
    let n: usize = v.len();
    let mut j: usize = i;
    while j < n && v[j] >= '0' && v[j] <= '9'
        invariant
            i <= j <= n,
            n == v@.len(),
            spec_scan_digits(v@, i as int) == spec_scan_digits(v@, j as int),
        decreases n - j,
    {
        j = j + 1;
    }
    proof {
        lemma_scan_digits(v@, i as int);
    }
    j
}

} // verus!
