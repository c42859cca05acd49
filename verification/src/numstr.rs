//! Decimal numbers as the portal exchanges them: parsing the numeric
//! strings of its JSON responses, and printing numbers back into
//! strings (error codes, address octets).

use vstd::prelude::*;
use vstd::string::StrSliceExecFns;

verus! {

pub open spec fn is_digit(c: char) -> bool {
    48 <= c as int && c as int <= 57
}

pub open spec fn digit_val(c: char) -> int {
    c as int - 48
}

pub open spec fn all_digits(s: Seq<char>) -> bool {
    forall|i: int| 0 <= i < s.len() ==> is_digit(#[trigger] s[i])
}

/// Value of a digit string, most significant digit first.
pub open spec fn dec_value(s: Seq<char>) -> int
    decreases s.len(),
{
    if s.len() == 0 {
        0
    } else {
        dec_value(s.drop_last()) * 10 + digit_val(s.last())
    }
}

pub open spec fn digit_char(d: int) -> char {
    if d == 0 {
        '0'
    } else if d == 1 {
        '1'
    } else if d == 2 {
        '2'
    } else if d == 3 {
        '3'
    } else if d == 4 {
        '4'
    } else if d == 5 {
        '5'
    } else if d == 6 {
        '6'
    } else if d == 7 {
        '7'
    } else if d == 8 {
        '8'
    } else {
        '9'
    }
}

/// Shortest decimal rendering of `n >= 0`, most significant digit
/// first.
pub open spec fn dec_rep(n: int) -> Seq<char>
    decreases n,
{
    if n <= 9 {
        seq![digit_char(n)]
    } else {
        dec_rep(n / 10).push(digit_char(n % 10))
    }
}

/// What `u64` parsing accepts: an optional leading plus sign, then one
/// or more decimal digits, with the value in range.
pub open spec fn spec_parse_u64(s: Seq<char>) -> Option<u64> {
    let d = if s.len() > 0 && s[0] == '+' {
        s.skip(1)
    } else {
        s
    };
    if d.len() > 0 && all_digits(d) && dec_value(d) <= u64::MAX {
        Some(dec_value(d) as u64)
    } else {
        None
    }
}

/// What `i64` parsing accepts: an optional sign, then one or more
/// decimal digits, with the value in range.
pub open spec fn spec_parse_i64(s: Seq<char>) -> Option<i64> {
    if s.len() > 0 && s[0] == '-' {
        let d = s.skip(1);
        if d.len() > 0 && all_digits(d) && dec_value(d) <= 0x8000_0000_0000_0000 {
            Some((-dec_value(d)) as i64)
        } else {
            None
        }
    } else {
        let d = if s.len() > 0 && s[0] == '+' {
            s.skip(1)
        } else {
            s
        };
        if d.len() > 0 && all_digits(d) && dec_value(d) <= i64::MAX {
            Some(dec_value(d) as i64)
        } else {
            None
        }
    }
}

proof fn lemma_dec_value_nonneg(s: Seq<char>)
    requires
        all_digits(s),
    ensures
        dec_value(s) >= 0,
    decreases s.len(),
{
    if s.len() > 0 {
        assert(all_digits(s.drop_last()));
        lemma_dec_value_nonneg(s.drop_last());
    }
}

/// Appending digits never decreases the value of a digit string.
proof fn lemma_dec_value_prefix_le(s: Seq<char>, i: int)
    requires
        all_digits(s),
        0 <= i <= s.len(),
    ensures
        dec_value(s.take(i)) <= dec_value(s),
    decreases s.len() - i,
{
    if i < s.len() {
        assert(s.take(i + 1).drop_last() =~= s.take(i));
        assert(s.take(i + 1).last() == s[i]);
        assert(all_digits(s.take(i)));
        lemma_dec_value_nonneg(s.take(i));
        assert(dec_value(s.take(i)) <= dec_value(s.take(i + 1)));
        lemma_dec_value_prefix_le(s, i + 1);
    } else {
        assert(s.take(i) =~= s);
    }
}

/// Parses the digit run `s[from..]`: `Some` exactly when it is
/// non-empty, all digits, and its value fits in a `u64`.
fn parse_dec_digits(s: &str, from: usize) -> (r: Option<u64>)
    requires
        from <= s@.len(),
    ensures
        ({
            let d = s@.skip(from as int);
            if d.len() > 0 && all_digits(d) && dec_value(d) <= u64::MAX {
                r == Some(dec_value(d) as u64)
            } else {
                r == None::<u64>
            }
        }),
{
    let ghost d = s@.skip(from as int);
    let n = s.unicode_len();
    if from == n {
        return None;
    }
    let mut val: u64 = 0;
    let mut i: usize = from;
    while i < n
        invariant
            from <= i <= n,
            n == s@.len(),
            d == s@.skip(from as int),
            all_digits(d.take(i - from)),
            val == dec_value(d.take(i - from)),
        decreases n - i,
    {
        let c = s.get_char(i);
        let u = c as u32;
        if u < 48 || u > 57 {
            proof {
                assert(d[i - from] == s@[i as int]);
                assert(!is_digit(d[i - from]));
            }
            return None;
        }
        let dv: u64 = (u - 48) as u64;
        if val > (u64::MAX - dv) / 10 {
            proof {
                assert(d.take(i - from + 1).drop_last() =~= d.take(i - from));
                assert(d.take(i - from + 1).last() == d[i - from]);
                assert(dec_value(d.take(i - from + 1)) == val * 10 + dv);
                assert(val * 10 + dv > u64::MAX) by (nonlinear_arith)
                    requires
                        val > (u64::MAX - dv) / 10,
                        dv < 10,
                ;
                if all_digits(d) {
                    lemma_dec_value_prefix_le(d, i - from + 1);
                    assert(dec_value(d) > u64::MAX);
                }
            }
            return None;
        }
        proof {
            assert(val * 10 + dv <= u64::MAX) by (nonlinear_arith)
                requires
                    val <= (u64::MAX - dv) / 10,
                    dv < 10,
            ;
            assert(d.take(i - from + 1).drop_last() =~= d.take(i - from));
            assert(d.take(i - from + 1).last() == d[i - from]);
            assert(d[i - from] == s@[i as int]);
        }
        val = val * 10 + dv;
        i = i + 1;
    }
    proof {
        assert(d.take(n - from) =~= d);
    }
    Some(val)
}

/// Parses a decimal `u64` as the portal's numeric strings are read: an
/// optional `+`, then digits.
pub fn parse_u64(s: &str) -> (r: Option<u64>)
    ensures
        r == spec_parse_u64(s@),
{
    let n = s.unicode_len();
    if n > 0 && s.get_char(0) == '+' {
        parse_dec_digits(s, 1)
    } else {
        let r = parse_dec_digits(s, 0);
        proof {
            assert(s@.skip(0) =~= s@);
        }
        r
    }
}

/// Parses a decimal `i64`: an optional sign, then digits.
pub fn parse_i64(s: &str) -> (r: Option<i64>)
    ensures
        r == spec_parse_i64(s@),
{
    let n = s.unicode_len();
    if n > 0 && s.get_char(0) == '-' {
        match parse_dec_digits(s, 1) {
            None => None,
            Some(mag) => {
                proof {
                    lemma_dec_value_nonneg(s@.skip(1));
                    assert(dec_value(s@.skip(1)) == mag);
                }
                if mag > 0x8000_0000_0000_0000u64 {
                    None
                } else if mag == 0x8000_0000_0000_0000u64 {
                    Some(i64::MIN)
                } else {
                    Some(-(mag as i64))
                }
            },
        }
    } else if n > 0 && s.get_char(0) == '+' {
        match parse_dec_digits(s, 1) {
            None => None,
            Some(mag) => {
                proof {
                    lemma_dec_value_nonneg(s@.skip(1));
                }
                if mag > i64::MAX as u64 {
                    None
                } else {
                    Some(mag as i64)
                }
            },
        }
    } else {
        proof {
            assert(s@.skip(0) =~= s@);
        }
        match parse_dec_digits(s, 0) {
            None => None,
            Some(mag) => {
                proof {
                    lemma_dec_value_nonneg(s@);
                }
                if mag > i64::MAX as u64 {
                    None
                } else {
                    Some(mag as i64)
                }
            },
        }
    }
}

/// The one-character string for a decimal digit.
fn digit_str(d: u64) -> (r: &'static str)
    requires
        d < 10,
    ensures
        r@ =~= seq![digit_char(d as int)],
{
    match d {
        0 => {
            let r = "0";
            proof {
                reveal_strlit("0");
            }
            r
        },
        1 => {
            let r = "1";
            proof {
                reveal_strlit("1");
            }
            r
        },
        2 => {
            let r = "2";
            proof {
                reveal_strlit("2");
            }
            r
        },
        3 => {
            let r = "3";
            proof {
                reveal_strlit("3");
            }
            r
        },
        4 => {
            let r = "4";
            proof {
                reveal_strlit("4");
            }
            r
        },
        5 => {
            let r = "5";
            proof {
                reveal_strlit("5");
            }
            r
        },
        6 => {
            let r = "6";
            proof {
                reveal_strlit("6");
            }
            r
        },
        7 => {
            let r = "7";
            proof {
                reveal_strlit("7");
            }
            r
        },
        8 => {
            let r = "8";
            proof {
                reveal_strlit("8");
            }
            r
        },
        _ => {
            let r = "9";
            proof {
                reveal_strlit("9");
            }
            r
        },
    }
}

/// Appends the decimal rendering of `n` to `s`.
pub fn push_dec(s: &mut String, n: u64)
    ensures
        final(s)@ == old(s)@ + dec_rep(n as int),
    decreases n,
{
    if n >= 10 {
        push_dec(s, n / 10);
    }
    s.append(digit_str(n % 10));
    proof {
        if n <= 9 {
            assert(dec_rep(n as int) =~= seq![digit_char(n as int)]);
            assert(final(s)@ =~= old(s)@ + dec_rep(n as int));
        } else {
            assert(dec_rep(n as int) =~= dec_rep(n as int / 10).push(
                digit_char(n as int % 10),
            ));
            assert(final(s)@ =~= old(s)@ + dec_rep(n as int));
        }
    }
}

/// Shortest decimal rendering of `n`.
pub fn u64_to_string(n: u64) -> (r: String)
    ensures
        r@ == dec_rep(n as int),
{
    let mut s = String::new();
    push_dec(&mut s, n);
    proof {
        assert(s@ =~= dec_rep(n as int));
    }
    s
}

} // verus!
