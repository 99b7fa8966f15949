//! The mesh's numeric type and the numeric coercion helper.
//!
//! Coordinates, colour channels and material scalars are held in fixed
//! precision: a signed count of millionths in an `i64`.  A token is
//! parsed as an optional sign, an integer part and a fractional part
//! (`12`, `-0.5`, `.25`, `3.`); fractional digits beyond the sixth are
//! truncated toward zero, and values beyond the `i64` range saturate.

use vstd::prelude::*;

use crate::error::ErrV;
use crate::error::ParseError;
use crate::text::find_char;
use crate::text::find_char_from;
use crate::text::lemma_find_char_at;
use crate::text::lemma_find_char_none;

verus! {

/// Millionths per whole unit.
pub const SCALE: i64 = 1000000;

/// One coordinate or colour channel: a signed count of millionths.
#[derive(Clone, Copy, PartialEq, Eq, Structural, Debug)]
pub struct Scalar {
    pub micros: i64,
}

impl View for Scalar {
    type V = int;

    open spec fn view(&self) -> int {
        self.micros as int
    }
}

impl DeepView for Scalar {
    type V = int;

    open spec fn deep_view(&self) -> int {
        self.micros as int
    }
}

pub open spec fn clamp_i64(v: int) -> int {
    if v > i64::MAX as int {
        i64::MAX as int
    } else if v < i64::MIN as int {
        i64::MIN as int
    } else {
        v
    }
}

impl Scalar {
    pub fn zero() -> (r: Scalar)
        ensures
            r@ == 0,
    {
        Scalar { micros: 0 }
    }

    /// One whole unit less this value, saturating at the range ends.
    /// This is the vertical flip applied to texture coordinates.
    pub fn one_minus(self) -> (r: Scalar)
        ensures
            r@ == clamp_i64(SCALE as int - self@),
    {
        if self.micros >= -(i64::MAX - SCALE) {
            Scalar { micros: SCALE - self.micros }
        } else {
            Scalar { micros: i64::MAX }
        }
    }
}

// ---------------------------------------------------------------------
// Digit strings
// ---------------------------------------------------------------------

pub open spec fn is_digit(c: char) -> bool {
    48 <= c as u32 <= 57
}

pub open spec fn digit_val(c: char) -> int {
    c as u32 - 48
}

pub open spec fn all_digits(s: Seq<char>) -> bool {
    forall|i: int| 0 <= i < s.len() ==> is_digit(#[trigger] s[i])
}

/// The number written by a digit string, most significant first.
pub open spec fn digits_val(s: Seq<char>) -> int
    decreases s.len(),
{
    if s.len() == 0 {
        0
    } else {
        digits_val(s.drop_last()) * 10 + digit_val(s.last())
    }
}

pub open spec fn pow10(k: nat) -> int
    decreases k,
{
    if k == 0 {
        1
    } else {
        10 * pow10((k - 1) as nat)
    }
}

proof fn lemma_pow10_pos(k: nat)
    ensures
        pow10(k) >= 1,
    decreases k,
{
    if k > 0 {
        lemma_pow10_pos((k - 1) as nat);
    }
}

proof fn lemma_digits_val_nonneg(s: Seq<char>)
    requires
        all_digits(s),
    ensures
        digits_val(s) >= 0,
    decreases s.len(),
{
    if s.len() > 0 {
        assert(all_digits(s.drop_last()));
        lemma_digits_val_nonneg(s.drop_last());
    }
}

proof fn lemma_digits_val_upper(s: Seq<char>)
    requires
        all_digits(s),
    ensures
        digits_val(s) < pow10(s.len() as nat),
    decreases s.len(),
{
    if s.len() > 0 {
        assert(all_digits(s.drop_last()));
        lemma_digits_val_upper(s.drop_last());
        lemma_pow10_pos((s.len() - 1) as nat);
        assert(pow10(s.len() as nat) == 10 * pow10((s.len() - 1) as nat));
    }
}

proof fn lemma_digits_val_take_step(s: Seq<char>, j: int)
    requires
        0 <= j < s.len(),
    ensures
        digits_val(s.take(j + 1)) == digits_val(s.take(j)) * 10 + digit_val(s[j]),
{
    assert(s.take(j + 1).drop_last() =~= s.take(j));
    assert(s.take(j + 1).last() == s[j]);
}

// ---------------------------------------------------------------------
// The token grammar
// ---------------------------------------------------------------------

pub open spec fn has_sign(s: Seq<char>) -> bool {
    s.len() > 0 && (s[0] == '+' || s[0] == '-')
}

pub open spec fn is_negative(s: Seq<char>) -> bool {
    s.len() > 0 && s[0] == '-'
}

/// The token with its sign removed.
pub open spec fn body_of(s: Seq<char>) -> Seq<char> {
    if has_sign(s) {
        s.drop_first()
    } else {
        s
    }
}

/// The digits before the decimal point (the whole body when there is
/// no point).
pub open spec fn int_chars(b: Seq<char>) -> Seq<char> {
    let i = find_char(b, '.');
    if i < 0 {
        b
    } else {
        b.take(i)
    }
}

/// The digits after the decimal point (empty when there is no point).
pub open spec fn frac_chars(b: Seq<char>) -> Seq<char> {
    let i = find_char(b, '.');
    if i < 0 {
        Seq::empty()
    } else {
        b.skip(i + 1)
    }
}

/// A well-formed scalar token: an optional sign, then digits with at
/// most one decimal point, with at least one digit on some side.
pub open spec fn valid_scalar_token(s: Seq<char>) -> bool {
    let b = body_of(s);
    &&& all_digits(int_chars(b))
    &&& all_digits(frac_chars(b))
    &&& int_chars(b).len() + frac_chars(b).len() > 0
}

/// Millionths contributed by the fractional digits: the first six,
/// right-padded with zeros; later digits are truncated.
pub open spec fn frac_micros(f: Seq<char>) -> int {
    if f.len() >= 6 {
        digits_val(f.take(6))
    } else {
        digits_val(f) * pow10((6 - f.len()) as nat)
    }
}

/// The value of a well-formed token, in millionths, saturated to i64.
pub open spec fn scalar_token_val(s: Seq<char>) -> int {
    let b = body_of(s);
    let mag = digits_val(int_chars(b)) * (SCALE as int) + frac_micros(frac_chars(b));
    if is_negative(s) {
        clamp_i64(-mag)
    } else {
        clamp_i64(mag)
    }
}

/// What parsing a scalar token yields.
pub open spec fn parse_scalar_spec(s: Seq<char>) -> Option<int> {
    if valid_scalar_token(s) {
        Some(scalar_token_val(s))
    } else {
        None
    }
}

// ---------------------------------------------------------------------
// Integer tokens (face indices)
// ---------------------------------------------------------------------

pub open spec fn valid_int_token(s: Seq<char>) -> bool {
    let b = body_of(s);
    b.len() > 0 && all_digits(b)
}

pub open spec fn int_token_val(s: Seq<char>) -> int {
    if is_negative(s) {
        -digits_val(body_of(s))
    } else {
        digits_val(body_of(s))
    }
}

/// What parsing an i32 token yields: the written value when it fits.
pub open spec fn parse_int_spec(s: Seq<char>) -> Option<int> {
    if valid_int_token(s) && i32::MIN as int <= int_token_val(s) <= i32::MAX as int {
        Some(int_token_val(s))
    } else {
        None
    }
}

// ---------------------------------------------------------------------
// Executable parsing
// ---------------------------------------------------------------------

/// Parse a scalar token into millionths.
#[verifier::rlimit(50)]
pub fn parse_scalar(s: &str) -> (r: Option<Scalar>)
    ensures
        match r {
            Some(x) => parse_scalar_spec(s@) == Some(x@),
            None => parse_scalar_spec(s@) is None,
        },
{
    let n = s.unicode_len();
    let mut off: usize = 0;
    let mut neg = false;
    if n > 0 {
        let c0 = s.get_char(0);
        if c0 == '+' || c0 == '-' {
            off = 1;
            neg = c0 == '-';
        }
    }
    let ghost b = body_of(s@);
    proof {
        assert(b =~= s@.skip(off as int));
        assert(neg == is_negative(s@));
    }
    let dot = find_char_from(s, off, '.');
    let int_end: usize = match dot {
        Some(d) => d,
        None => n,
    };
    let ghost je: int = int_end as int - off as int;
    proof {
        match dot {
            Some(d) => {
                assert(b[je] == s@[d as int]);
                assert(forall|k: int| 0 <= k < je ==> #[trigger] b[k] == s@[k + off]);
                lemma_find_char_at(b, '.', je);
                assert(int_chars(b) == b.take(je));
                assert(frac_chars(b) == b.skip(je + 1));
            },
            None => {
                assert(forall|k: int| 0 <= k < b.len() ==> #[trigger] b[k] == s@[k + off]);
                lemma_find_char_none(b, '.');
                assert(b.take(je) =~= b);
                assert(int_chars(b) == b);
                assert(frac_chars(b) == Seq::<char>::empty());
            },
        }
    }
    // integer part
    let mut acc: u128 = 0;
    let mut i: usize = off;
    while i < int_end
        invariant
            n == s@.len(),
            off <= i <= int_end <= n,
            b == body_of(s@),
            b == s@.skip(off as int),
            je == int_end as int - off as int,
            int_chars(b) == b.take(je),
            forall|k: int| 0 <= k < i - off ==> is_digit(#[trigger] b[k]),
            acc <= (i64::MAX as u128) + 1,
            acc <= i64::MAX as u128 ==> acc as int == digits_val(b.take(i - off)),
            acc > i64::MAX as u128 ==> digits_val(b.take(i - off)) > i64::MAX as int,
        decreases int_end - i,
    {
        let c = s.get_char(i);
        let u = c as u32;
        if u < 48 || u > 57 {
            proof {
                assert(b[i - off] == s@[i as int]);
                assert(!is_digit(int_chars(b)[i - off]));
                assert(!all_digits(int_chars(b)));
            }
            return None;
        }
        proof {
            assert(b[i - off] == s@[i as int]);
            assert(is_digit(b[i - off]));
            lemma_digits_val_take_step(b, i - off);
        }
        let ghost oacc = acc;
        let d = (u - 48) as u128;
        acc = acc * 10 + d;
        if acc > i64::MAX as u128 {
            proof {
                if oacc > i64::MAX as u128 {
                    assert(digits_val(b.take(i - off + 1)) > i64::MAX as int) by (nonlinear_arith)
                        requires
                            digits_val(b.take(i - off)) > i64::MAX as int,
                            digit_val(b[i - off]) >= 0,
                            digits_val(b.take(i - off + 1)) == digits_val(b.take(i - off)) * 10
                                + digit_val(b[i - off]),
                    ;
                }
            }
            acc = (i64::MAX as u128) + 1;
        }
        i = i + 1;
    }
    proof {
        assert(b.take(je) == int_chars(b));
        assert(all_digits(int_chars(b)));
    }
    // fractional part
    let ghost fr = frac_chars(b);
    let mut frac_acc: u64 = 0;
    let mut frac_cnt: usize = 0;
    let mut frac_len: usize = 0;
    if int_end < n {
        let mut i2: usize = int_end + 1;
        while i2 < n
            invariant
                n == s@.len(),
                off <= int_end < n,
                b == body_of(s@),
                b == s@.skip(off as int),
                je == int_end as int - off as int,
                fr == frac_chars(b),
                fr == b.skip(je + 1),
                int_end + 1 <= i2 <= n,
                frac_len == i2 - int_end - 1,
                forall|k: int| 0 <= k < frac_len ==> is_digit(#[trigger] fr[k]),
                frac_cnt as int == (if frac_len >= 6 {
                    6int
                } else {
                    frac_len as int
                }),
                frac_acc as int == digits_val(fr.take(frac_cnt as int)),
                (frac_acc as int) < pow10(frac_cnt as nat),
            decreases n - i2,
        {
            let c = s.get_char(i2);
            let u = c as u32;
            proof {
                assert(fr[i2 - int_end - 1] == s@[i2 as int]);
            }
            if u < 48 || u > 57 {
                proof {
                    assert(!is_digit(fr[i2 - int_end - 1]));
                    assert(!all_digits(frac_chars(b)));
                }
                return None;
            }
            if frac_cnt < 6 {
                proof {
                    lemma_digits_val_take_step(fr, frac_cnt as int);
                    assert(pow10((frac_cnt + 1) as nat) == 10 * pow10(frac_cnt as nat));
                    assert(pow10(0) == 1);
                    assert(pow10(1) == 10);
                    assert(pow10(2) == 100);
                    assert(pow10(3) == 1000);
                    assert(pow10(4) == 10000);
                    assert(pow10(5) == 100000);
                    assert(pow10(6) == 1000000);
                }
                frac_acc = frac_acc * 10 + ((u - 48) as u64);
                frac_cnt = frac_cnt + 1;
            }
            frac_len = frac_len + 1;
            i2 = i2 + 1;
        }
        proof {
            assert(frac_len == fr.len());
            assert(all_digits(fr));
        }
    } else {
        proof {
            assert(fr.len() == 0);
            assert(all_digits(fr));
            assert(fr.take(0) =~= fr);
        }
    }
    // validity
    let int_len = int_end - off;
    if int_len == 0 && frac_len == 0 {
        proof {
            assert(int_chars(b).len() == 0);
            assert(frac_chars(b).len() == 0);
        }
        return None;
    }
    proof {
        assert(valid_scalar_token(s@));
        assert(pow10(0) == 1);
        assert(pow10(1) == 10);
        assert(pow10(2) == 100);
        assert(pow10(3) == 1000);
        assert(pow10(4) == 10000);
        assert(pow10(5) == 100000);
        assert(pow10(6) == 1000000);
    }
    // scale the fractional digits to millionths
    let scale: u64 = if frac_cnt == 0 {
        1000000
    } else if frac_cnt == 1 {
        100000
    } else if frac_cnt == 2 {
        10000
    } else if frac_cnt == 3 {
        1000
    } else if frac_cnt == 4 {
        100
    } else if frac_cnt == 5 {
        10
    } else {
        1
    };
    proof {
        if frac_cnt == 0 {
            assert(frac_acc < 1);
        } else if frac_cnt == 1 {
            assert(frac_acc < 10);
        } else if frac_cnt == 2 {
            assert(frac_acc < 100);
        } else if frac_cnt == 3 {
            assert(frac_acc < 1000);
        } else if frac_cnt == 4 {
            assert(frac_acc < 10000);
        } else if frac_cnt == 5 {
            assert(frac_acc < 100000);
        } else {
            assert(frac_cnt == 6);
            assert(frac_acc < 1000000);
        }
        assert(frac_acc <= 999999);
        assert(scale <= 1000000);
        assert((frac_acc as int) * (scale as int) <= 999999000000int) by (nonlinear_arith)
            requires
                0 <= frac_acc as int <= 999999,
                0 <= scale as int <= 1000000,
        ;
    }
    let frac6: u64 = frac_acc * scale;
    proof {
        if frac_len >= 6 {
            assert(frac_cnt == 6);
            assert(frac6 == frac_acc);
            assert(frac6 as int == frac_micros(fr));
            assert(frac6 < 1000000);
        } else {
            assert(frac_cnt == frac_len);
            assert(fr.take(frac_len as int) =~= fr);
            assert(frac_micros(fr) == digits_val(fr) * pow10((6 - frac_len) as nat));
            if frac_len == 0 {
                assert(scale == 1000000 && frac_acc < 1);
            } else if frac_len == 1 {
                assert(scale == 100000 && frac_acc < 10);
            } else if frac_len == 2 {
                assert(scale == 10000 && frac_acc < 100);
            } else if frac_len == 3 {
                assert(scale == 1000 && frac_acc < 1000);
            } else if frac_len == 4 {
                assert(scale == 100 && frac_acc < 10000);
            } else {
                assert(scale == 10 && frac_acc < 100000);
            }
            assert(scale as int == pow10((6 - frac_len) as nat));
            assert(frac6 as int == frac_micros(fr));
            assert(frac6 < 1000000);
        }
    }
    // combine, saturating to the i64 range
    let mag: u128 = acc * 1000000 + frac6 as u128;
    let ghost dvi = digits_val(int_chars(b));
    let ghost fm = frac_micros(frac_chars(b));
    let ghost tm = dvi * (SCALE as int) + fm;
    proof {
        lemma_digits_val_nonneg(int_chars(b));
        assert(fm == frac6 as int);
        if acc <= i64::MAX as u128 {
            assert(acc as int == dvi);
            assert(mag as int == tm);
        } else {
            assert(dvi > i64::MAX as int);
            assert(tm > i64::MAX as int + 1) by (nonlinear_arith)
                requires
                    dvi > i64::MAX as int,
                    fm >= 0,
                    tm == dvi * 1000000 + fm,
            ;
            assert(mag >= (i64::MAX as u128) + 1);
        }
        assert(scalar_token_val(s@) == (if is_negative(s@) {
            clamp_i64(-tm)
        } else {
            clamp_i64(tm)
        }));
    }
    if neg {
        if mag >= (i64::MAX as u128) + 1 {
            proof {
                assert(tm >= i64::MAX as int + 1);
                assert(clamp_i64(-tm) == i64::MIN as int);
            }
            Some(Scalar { micros: i64::MIN })
        } else {
            proof {
                assert(mag as int == tm);
                assert(clamp_i64(-tm) == -tm);
            }
            Some(Scalar { micros: -(mag as i64) })
        }
    } else {
        if mag > i64::MAX as u128 {
            proof {
                assert(tm > i64::MAX as int);
                assert(clamp_i64(tm) == i64::MAX as int);
            }
            Some(Scalar { micros: i64::MAX })
        } else {
            proof {
                assert(mag as int == tm);
                assert(clamp_i64(tm) == tm);
            }
            Some(Scalar { micros: mag as i64 })
        }
    }
}

/// Parse an i32 token (used for face point references).
pub fn parse_i32(s: &str) -> (r: Option<i32>)
    ensures
        match r {
            Some(x) => parse_int_spec(s@) == Some(x as int),
            None => parse_int_spec(s@) is None,
        },
{
    let n = s.unicode_len();
    let mut off: usize = 0;
    let mut neg = false;
    if n > 0 {
        let c0 = s.get_char(0);
        if c0 == '+' || c0 == '-' {
            off = 1;
            neg = c0 == '-';
        }
    }
    let ghost b = body_of(s@);
    proof {
        assert(b =~= s@.skip(off as int));
        assert(neg == is_negative(s@));
    }
    if off >= n {
        proof {
            assert(b.len() == 0);
        }
        return None;
    }
    let mut acc: u64 = 0;
    let mut i: usize = off;
    while i < n
        invariant
            n == s@.len(),
            off <= i <= n,
            b == body_of(s@),
            b == s@.skip(off as int),
            forall|k: int| 0 <= k < i - off ==> is_digit(#[trigger] b[k]),
            acc <= 0x80000001u64,
            acc <= 0x80000000u64 ==> acc as int == digits_val(b.take(i - off)),
            acc > 0x80000000u64 ==> digits_val(b.take(i - off)) > 0x80000000,
        decreases n - i,
    {
        let c = s.get_char(i);
        let u = c as u32;
        proof {
            assert(b[i - off] == s@[i as int]);
        }
        if u < 48 || u > 57 {
            proof {
                assert(!is_digit(b[i - off]));
                assert(!all_digits(b));
            }
            return None;
        }
        proof {
            lemma_digits_val_take_step(b, i - off);
        }
        let ghost oacc = acc;
        acc = acc * 10 + ((u - 48) as u64);
        if acc > 0x80000000 {
            proof {
                if oacc > 0x80000000 {
                    assert(digits_val(b.take(i - off + 1)) > 0x80000000) by (nonlinear_arith)
                        requires
                            digits_val(b.take(i - off)) > 0x80000000,
                            digit_val(b[i - off]) >= 0,
                            digits_val(b.take(i - off + 1)) == digits_val(b.take(i - off)) * 10
                                + digit_val(b[i - off]),
                    ;
                }
            }
            acc = 0x80000001;
        }
        i = i + 1;
    }
    proof {
        assert(b.take(n - off as int) =~= b);
        assert(all_digits(b));
        assert(valid_int_token(s@));
        assert(int_token_val(s@) == (if is_negative(s@) {
            -digits_val(b)
        } else {
            digits_val(b)
        }));
    }
    if neg {
        if acc > 0x80000000 {
            None
        } else if acc == 0x80000000 {
            Some(i32::MIN)
        } else {
            Some(-(acc as i32))
        }
    } else {
        if acc > 0x7fffffff {
            None
        } else {
            Some(acc as i32)
        }
    }
}

/// Numeric coercion for the mesh's scalar type, with the positioned
/// failure demanded by the parsers.
pub fn parse_number(stri: &str, line_num: i32) -> (r: Result<Scalar, ParseError>)
    ensures
        match r {
            Ok(x) => parse_scalar_spec(stri@) == Some(x@),
            Err(e) => parse_scalar_spec(stri@) is None && e@ == (ErrV::Numeric {
                line: line_num as int,
                token: stri@,
            }),
        },
{
    match parse_scalar(stri) {
        Some(x) => Ok(x),
        None => Err(ParseError::NumericParseError { line: line_num, token: stri.to_owned() }),
    }
}

/// Numeric coercion for face point references, with the positioned
/// failure demanded by the parsers.
pub fn parse_integer(stri: &str, line_num: i32) -> (r: Result<i32, ParseError>)
    ensures
        match r {
            Ok(x) => parse_int_spec(stri@) == Some(x as int),
            Err(e) => parse_int_spec(stri@) is None && e@ == (ErrV::Numeric {
                line: line_num as int,
                token: stri@,
            }),
        },
{
    match parse_i32(stri) {
        Some(x) => Ok(x),
        None => Err(ParseError::NumericParseError { line: line_num, token: stri.to_owned() }),
    }
}

} // verus!
