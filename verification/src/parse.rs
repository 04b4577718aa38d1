//! Text-to-value parsing: unsigned integers, `YYYY-MM-DD` dates, and the
//! decimal rendering of integers used when building request URLs.

use vstd::prelude::*;

use crate::data::Date;
use crate::error::{TvdbError, TvdbResult};

verus! {

/// A decimal digit character.
pub open spec fn is_dec_digit(c: char) -> bool {
    48 <= c as int <= 57
}

/// Every character of `s` is a decimal digit.
pub open spec fn all_digits(s: Seq<char>) -> bool {
    forall|k: int| 0 <= k < s.len() ==> is_dec_digit(#[trigger] s[k])
}

/// The numeric value of a digit string, most significant digit first.
pub open spec fn dec_val(s: Seq<char>) -> int
    decreases s.len(),
{
    if s.len() == 0 {
        0
    } else {
        dec_val(s.drop_last()) * 10 + (s.last() as int - 48)
    }
}

/// The input with an optional leading `+` removed.
pub open spec fn trimmed_digits(s: Seq<char>) -> Seq<char> {
    if s.len() > 0 && s[0] == '+' {
        s.drop_first()
    } else {
        s
    }
}

/// What `str::parse::<u32>` accepts: an optional leading `+`, then at least
/// one digit, all digits, and a value that fits in `u32`.
pub open spec fn parse_u32_spec(s: Seq<char>) -> Option<u32> {
    let t = trimmed_digits(s);
    if t.len() > 0 && all_digits(t) && dec_val(t) <= u32::MAX {
        Some(dec_val(t) as u32)
    } else {
        None
    }
}

proof fn lemma_dec_val_nonneg(s: Seq<char>)
    requires
        all_digits(s),
    ensures
        dec_val(s) >= 0,
    decreases s.len(),
{
    if s.len() > 0 {
        assert(all_digits(s.drop_last()));
        lemma_dec_val_nonneg(s.drop_last());
    }
}

/// Extending a digit string never decreases its value.
proof fn lemma_dec_val_prefix(s: Seq<char>, i: int)
    requires
        all_digits(s),
        0 <= i <= s.len(),
    ensures
        dec_val(s.subrange(0, i)) <= dec_val(s),
    decreases s.len() - i,
{
    if i < s.len() {
        lemma_dec_val_prefix(s, i + 1);
        let a = s.subrange(0, i);
        let b = s.subrange(0, i + 1);
        assert(b.drop_last() =~= a);
        assert(b.last() == s[i]);
        assert(all_digits(a));
        lemma_dec_val_nonneg(a);
        assert(dec_val(b) == dec_val(a) * 10 + (s[i] as int - 48));
        assert(dec_val(a) * 10 >= dec_val(a)) by (nonlinear_arith)
            requires dec_val(a) >= 0;
    } else {
        assert(s.subrange(0, i) =~= s);
    }
}

/// Turns "123" into 123; fails with a `DataError` naming the input on
/// anything `str::parse::<u32>` would reject.
pub fn intify(instr: &str) -> (r: TvdbResult<u32>)
    ensures
        r matches Ok(v) ==> parse_u32_spec(instr@) == Some(v),
        r is Ok <==> parse_u32_spec(instr@) is Some,
        r matches Err(e) ==> e matches TvdbError::DataError { reason }
            && reason@ == "Malformed unsigned integer: "@ + instr@,
{
    let n = instr.unicode_len();
    let start: usize = if n > 0 && instr.get_char(0) == '+' {
        1
    } else {
        0
    };
    let ghost t: Seq<char> = instr@.subrange(start as int, n as int);
    proof {
        if start == 1 {
            assert(t =~= instr@.drop_first());
        } else {
            assert(t =~= instr@);
        }
        assert(t == trimmed_digits(instr@));
    }
    if start >= n {
        return Err(intify_error(instr));
    }
    let mut acc: u32 = 0;
    let mut i: usize = start;
    while i < n
        invariant
            start <= i <= n,
            n == instr@.len(),
            start == 0 || start == 1,
            t == instr@.subrange(start as int, n as int),
            t == trimmed_digits(instr@),
            all_digits(instr@.subrange(start as int, i as int)),
            acc == dec_val(instr@.subrange(start as int, i as int)),
        decreases n - i,
    {
        let c = instr.get_char(i);
        let u = c as u32;
        let ghost pre = instr@.subrange(start as int, i as int);
        let ghost cur = instr@.subrange(start as int, i as int + 1);
        proof {
            assert(cur.drop_last() =~= pre);
            assert(cur.last() == instr@[i as int]);
        }
        if u < 48 || u > 57 {
            proof {
                assert(t[i - start] == instr@[i as int]);
                assert(!is_dec_digit(t[i - start]));
            }
            return Err(intify_error(instr));
        }
        let d = u - 48;
        if acc > (u32::MAX - d) / 10 {
            proof {
                assert(dec_val(cur) == acc * 10 + d);
                assert(acc * 10 + d > u32::MAX) by (nonlinear_arith)
                    requires acc > (u32::MAX - d) / 10, d < 10, u32::MAX == 4294967295;
                if all_digits(t) {
                    lemma_dec_val_prefix(t, i + 1 - start as int);
                    assert(t.subrange(0, i + 1 - start as int) =~= cur);
                    assert(dec_val(t) > u32::MAX);
                }
            }
            return Err(intify_error(instr));
        }
        proof {
            assert(acc * 10 + d <= u32::MAX) by (nonlinear_arith)
                requires acc <= (u32::MAX - d) / 10, d < 10, u32::MAX == 4294967295;
        }
        acc = acc * 10 + d;
        i = i + 1;
    }
    Ok(acc)
}

/// The error value every malformed `intify` input maps to.
fn intify_error(instr: &str) -> (r: TvdbError)
    ensures
        r matches TvdbError::DataError { reason }
            && reason@ == "Malformed unsigned integer: "@ + instr@,
{
    let mut reason = "Malformed unsigned integer: ".to_owned();
    reason.append(instr);
    TvdbError::DataError { reason }
}

/// `i` and `j` are the positions of the only two `-` characters of `s`.
pub open spec fn dash_positions_ok(s: Seq<char>, i: int, j: int) -> bool {
    &&& 0 <= i < j < s.len()
    &&& s[i] == '-'
    &&& s[j] == '-'
    &&& forall|k: int| 0 <= k < s.len() && s[k] == '-' ==> k == i || k == j
}

/// What date parsing accepts: split on `-` yields exactly three chunks and
/// each chunk parses as an unsigned integer.  Nothing is checked beyond
/// that; out-of-range months and days are accepted.
pub open spec fn date_spec(s: Seq<char>) -> Option<Date> {
    if exists|i: int, j: int| dash_positions_ok(s, i, j) {
        let (i, j) = choose|i: int, j: int| dash_positions_ok(s, i, j);
        match (
            parse_u32_spec(s.subrange(0, i)),
            parse_u32_spec(s.subrange(i + 1, j)),
            parse_u32_spec(s.subrange(j + 1, s.len() as int)),
        ) {
            (Some(y), Some(m), Some(d)) => Some(Date { year: y, month: m, day: d }),
            _ => None,
        }
    } else {
        None
    }
}

/// The two dash positions of a string are unique.
proof fn lemma_dash_positions_unique(s: Seq<char>, i1: int, j1: int, i2: int, j2: int)
    requires
        dash_positions_ok(s, i1, j1),
        dash_positions_ok(s, i2, j2),
    ensures
        i1 == i2,
        j1 == j2,
{
}

/// Parse `YYYY-MM-DD` formatted text into a `Date`; fails with a `DataError`
/// naming the input if the split does not yield exactly three parts or any
/// part is not an unsigned integer.
pub fn dateify(instr: &str) -> (r: TvdbResult<Date>)
    ensures
        r matches Ok(d) ==> date_spec(instr@) == Some(d),
        r is Ok <==> date_spec(instr@) is Some,
        r matches Err(e) ==> e matches TvdbError::DataError { reason }
            && reason@ == "Malformed YYYY-MM-DD date: "@ + instr@,
{
    let n = instr.unicode_len();
    let mut count: usize = 0;
    let mut p1: usize = 0;
    let mut p2: usize = 0;
    let mut p3: usize = 0;
    let mut i: usize = 0;
    while i < n
        invariant
            0 <= i <= n,
            n == instr@.len(),
            count >= 1 ==> 0 <= p1 < i && instr@[p1 as int] == '-',
            count >= 2 ==> p1 < p2 < i && instr@[p2 as int] == '-',
            count >= 3 ==> p2 < p3 < i && instr@[p3 as int] == '-',
            count == 0 ==> forall|k: int| 0 <= k < i ==> instr@[k] != '-',
            count == 1 ==> forall|k: int| 0 <= k < i && instr@[k] == '-' ==> k == p1,
            count >= 2 ==> forall|k: int| 0 <= k < i && instr@[k] == '-'
                ==> k == p1 || k == p2 || (count >= 3 && k >= p3),
        decreases n - i,
    {
        let c = instr.get_char(i);
        if c == '-' {
            if count == 0 {
                p1 = i;
            } else if count == 1 {
                p2 = i;
            } else if count == 2 {
                p3 = i;
            }
            if count < 3 {
                count = count + 1;
            }
        }
        i = i + 1;
    }
    if count != 2 {
        proof {
            if exists|a: int, b: int| dash_positions_ok(instr@, a, b) {
                let (a, b) = choose|a: int, b: int| dash_positions_ok(instr@, a, b);
                if count == 0 {
                    assert(instr@[a] != '-');
                } else if count == 1 {
                    assert(a == p1 && b == p1);
                } else {
                    assert(instr@[p1 as int] == '-' && instr@[p2 as int] == '-'
                        && instr@[p3 as int] == '-');
                    assert(p1 == a || p1 == b);
                    assert(p2 == a || p2 == b);
                    assert(p3 == a || p3 == b);
                }
                assert(false);
            }
        }
        return Err(dateify_error(instr));
    }
    let ys = instr.substring_char(0, p1);
    let ms = instr.substring_char(p1 + 1, p2);
    let ds = instr.substring_char(p2 + 1, n);
    proof {
        assert(dash_positions_ok(instr@, p1 as int, p2 as int));
        let (a, b) = choose|a: int, b: int| dash_positions_ok(instr@, a, b);
        lemma_dash_positions_unique(instr@, a, b, p1 as int, p2 as int);
    }
    let year = match intify(ys) {
        Ok(y) => y,
        Err(_) => {
            return Err(dateify_error(instr));
        },
    };
    let month = match intify(ms) {
        Ok(m) => m,
        Err(_) => {
            return Err(dateify_error(instr));
        },
    };
    let day = match intify(ds) {
        Ok(d) => d,
        Err(_) => {
            return Err(dateify_error(instr));
        },
    };
    Ok(Date { year, month, day })
}

/// The error value every malformed `dateify` input maps to.
fn dateify_error(instr: &str) -> (r: TvdbError)
    ensures
        r matches TvdbError::DataError { reason }
            && reason@ == "Malformed YYYY-MM-DD date: "@ + instr@,
{
    let mut reason = "Malformed YYYY-MM-DD date: ".to_owned();
    reason.append(instr);
    TvdbError::DataError { reason }
}

/// The character for a single decimal digit.
pub open spec fn digit_char(d: int) -> char {
    ((48 + d) as u8) as char
}

/// The decimal rendering of a nonnegative integer, no sign, no padding.
pub open spec fn dec_str(n: int) -> Seq<char>
    decreases n,
{
    if n < 10 {
        seq![digit_char(n)]
    } else {
        dec_str(n / 10).push(digit_char(n % 10))
    }
}

/// A one-character string for a single decimal digit.
fn digit_str(d: u32) -> (r: &'static str)
    requires
        d < 10,
    ensures
        r@ == seq![digit_char(d as int)],
{
    let r = match d {
        0 => "0",
        1 => "1",
        2 => "2",
        3 => "3",
        4 => "4",
        5 => "5",
        6 => "6",
        7 => "7",
        8 => "8",
        _ => "9",
    };
    proof {
        reveal_strlit("0");
        reveal_strlit("1");
        reveal_strlit("2");
        reveal_strlit("3");
        reveal_strlit("4");
        reveal_strlit("5");
        reveal_strlit("6");
        reveal_strlit("7");
        reveal_strlit("8");
        reveal_strlit("9");
        assert(r@ =~= seq![digit_char(d as int)]);
    }
    r
}

/// The decimal rendering of a `u32`, used when building request URLs.
pub fn u32_to_string(n: u32) -> (r: String)
    ensures
        r@ == dec_str(n as int),
    decreases n,
{
    if n < 10 {
        digit_str(n).to_owned()
    } else {
        let mut s = u32_to_string(n / 10);
        s.append(digit_str(n % 10));
        proof {
            assert(dec_str((n / 10) as int).push(digit_char((n % 10) as int))
                =~= dec_str((n / 10) as int) + seq![digit_char((n % 10) as int)]);
        }
        s
    }
}

} // verus!
