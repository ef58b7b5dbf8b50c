//! Plain-text helpers: decimal rendering of integers, decimal parsing into
//! `i8`, and string-slice equality, each against an exact specification.
use vstd::prelude::*;

verus! {

/// The character for one decimal digit value.
pub open spec fn digit_char(d: int) -> char {
    if d == 0 {
        '0'
    } else if d == 1 {
        '1'
    } else if d == 2 {
        '2'
    } else if d == 3 {
        '3'
    } else if d == 4 {
        '4'
    } else if d == 5 {
        '5'
    } else if d == 6 {
        '6'
    } else if d == 7 {
        '7'
    } else if d == 8 {
        '8'
    } else {
        '9'
    }
}

/// The decimal digits of a non-negative number, most significant first,
/// without a sign and without leading zeros (a single `0` for zero).
pub open spec fn dec_digits(n: nat) -> Seq<char>
    decreases n,
{
    if n < 10 {
        seq![digit_char(n as int)]
    } else {
        dec_digits(n / 10).push(digit_char((n % 10) as int))
    }
}

/// The decimal rendering of an integer: a `-` sign for negative numbers,
/// then the digits.
pub open spec fn int_str(n: int) -> Seq<char> {
    if n < 0 {
        seq!['-'] + dec_digits((-n) as nat)
    } else {
        dec_digits(n as nat)
    }
}

/// The digit characters of a magnitude collected least significant first,
/// read back in display order.
spec fn rev_chars(ds: Seq<u8>) -> Seq<char> {
    Seq::new(ds.len(), |k: int| digit_char(ds[ds.len() - 1 - k] as int))
}

/// A single decimal digit as a string slice.
fn digit_str(d: u8) -> (r: &'static str)
    requires
        d < 10,
    ensures
        r@ == seq![digit_char(d as int)],
{
    proof {
        reveal_strlit("0");
        reveal_strlit("1");
        reveal_strlit("2");
        reveal_strlit("3");
        reveal_strlit("4");
        reveal_strlit("5");
        reveal_strlit("6");
        reveal_strlit("7");
        reveal_strlit("8");
        reveal_strlit("9");
    }
    let r = match d {
        0 => "0",
        1 => "1",
        2 => "2",
        3 => "3",
        4 => "4",
        5 => "5",
        6 => "6",
        7 => "7",
        8 => "8",
        _ => "9",
    };
    proof {
        assert(r@ =~= seq![digit_char(d as int)]);
    }
    r
}

/// Renders an integer in decimal, matching `int_str`.
pub fn i64_to_string(n: i64) -> (r: String)
    ensures
        r@ == int_str(n as int),
{
    let m: u64 = if n >= 0 {
        n as u64
    } else {
        (-(n as i128)) as u64
    };
    let ghost m0: nat = m as nat;
    let mut digits: Vec<u8> = Vec::new();
    let mut m2: u64 = m;
    while m2 >= 10
        invariant
            dec_digits(m0) =~= dec_digits(m2 as nat) + rev_chars(digits@),
            forall|k: int| 0 <= k < digits@.len() ==> digits@[k] < 10,
        decreases m2,
    {
        let d: u8 = (m2 % 10) as u8;
        let ghost old_digits = digits@;
        let ghost old_m2 = m2 as nat;
        digits.push(d);
        m2 = m2 / 10;
        proof {
            assert(rev_chars(old_digits.push(d)) =~= seq![digit_char(d as int)] + rev_chars(
                old_digits,
            ));
            assert(dec_digits(old_m2) == dec_digits(old_m2 / 10).push(
                digit_char((old_m2 % 10) as int),
            ));
            assert(dec_digits(old_m2 / 10).push(digit_char((old_m2 % 10) as int)) + rev_chars(
                old_digits,
            ) =~= dec_digits(old_m2 / 10) + rev_chars(old_digits.push(d)));
        }
    }
    let ghost old_digits = digits@;
    let last: u8 = m2 as u8;
    digits.push(last);
    proof {
        assert(rev_chars(old_digits.push(last)) =~= seq![digit_char(last as int)] + rev_chars(
            old_digits,
        ));
        assert(dec_digits(m0) =~= rev_chars(digits@));
    }
    let mut s = String::new();
    if n < 0 {
        s.append("-");
        proof {
            reveal_strlit("-");
            assert(s@ =~= seq!['-']);
        }
    }
    let ghost sign: Seq<char> = s@;
    let mut i: usize = digits.len();
    while i > 0
        invariant
            i <= digits.len(),
            forall|k: int| 0 <= k < digits@.len() ==> digits@[k] < 10,
            s@ =~= sign + rev_chars(digits@).take(digits@.len() - i),
        decreases i,
    {
        i = i - 1;
        s.append(digit_str(digits[i]));
        proof {
            assert(s@ =~= sign + rev_chars(digits@).take(digits@.len() - i));
        }
    }
    proof {
        assert(rev_chars(digits@).take(digits@.len() as int) =~= rev_chars(digits@));
        if n < 0 {
            assert(s@ =~= seq!['-'] + dec_digits((-(n as int)) as nat));
        } else {
            assert(s@ =~= dec_digits(n as nat));
        }
    }
    s
}

/// Whether a character is a decimal digit.
pub open spec fn is_digit(c: char) -> bool {
    48 <= c as int <= 57
}

/// The value of one digit character.
pub open spec fn digit_val(c: char) -> int {
    c as int - 48
}

/// The value of a run of digit characters, most significant first.
pub open spec fn digits_val(s: Seq<char>) -> int
    decreases s.len(),
{
    if s.len() == 0 {
        0
    } else {
        digits_val(s.drop_last()) * 10 + digit_val(s.last())
    }
}

/// Whether every character of a run is a decimal digit.
pub open spec fn all_digits(s: Seq<char>) -> bool {
    forall|i: int| 0 <= i < s.len() ==> is_digit(#[trigger] s[i])
}

/// What `str::parse::<i8>` accepts: an optional sign, then at least one
/// digit, with the signed value within the bounds of `i8`; and the value
/// it yields.
pub open spec fn parsed_i8(s: Seq<char>) -> Option<i8> {
    let sign: int = if s.len() > 0 && s[0] == '-' {
        -1
    } else {
        1
    };
    let mag: Seq<char> = if s.len() > 0 && (s[0] == '-' || s[0] == '+') {
        s.skip(1)
    } else {
        s
    };
    if mag.len() > 0 && all_digits(mag) && -128 <= sign * digits_val(mag) <= 127 {
        Some((sign * digits_val(mag)) as i8)
    } else {
        None
    }
}

proof fn lemma_digits_val_nonneg(s: Seq<char>)
    requires
        all_digits(s),
    ensures
        digits_val(s) >= 0,
    decreases s.len(),
{
    if s.len() > 0 {
        assert(all_digits(s.drop_last()));
        lemma_digits_val_nonneg(s.drop_last());
    }
}

/// Parses a decimal string into an `i8`, matching `parsed_i8`.
pub fn parse_i8(s: &str) -> (r: Option<i8>)
    ensures
        r == parsed_i8(s@),
{
    let len = s.unicode_len();
    if len == 0 {
        return None;
    }
    let first = s.get_char(0);
    let neg: bool = first == '-';
    let start: usize = if first == '-' || first == '+' {
        1
    } else {
        0
    };
    if start >= len {
        return None;
    }
    let ghost mag: Seq<char> = if start == 1 {
        s@.skip(1)
    } else {
        s@
    };
    let mut i: usize = start;
    let mut acc: u32 = 0;
    while i < len
        invariant
            start <= i <= len,
            len == s@.len(),
            start == 0 || start == 1,
            start < len,
            neg == (s@[0] == '-'),
            (start == 1) == (s@[0] == '-' || s@[0] == '+'),
            mag == s@.skip(start as int),
            mag.len() == len - start,
            all_digits(mag.take(i - start)),
            acc <= 128 && acc == digits_val(mag.take(i - start)) || acc == 129 && digits_val(
                mag.take(i - start),
            ) >= 129,
        decreases len - i,
    {
        let c = s.get_char(i);
        let u = c as u32;
        if u < 48 || u > 57 {
            proof {
                assert(mag[i - start] == s@[i as int]);
                assert(!is_digit(mag[i - start]));
                assert(!all_digits(mag));
            }
            return None;
        }
        let d: u32 = u - 48;
        let ghost pref = mag.take(i - start);
        proof {
            let next = mag.take(i + 1 - start);
            assert(pref.push(s@[i as int]) =~= next);
            assert(next.drop_last() =~= pref);
            assert(next.last() == s@[i as int]);
            assert(digits_val(next) == digits_val(pref) * 10 + digit_val(s@[i as int]));
            if acc == 129 {
                lemma_digits_val_nonneg(pref);
            }
        }
        if acc <= 128 {
            acc = acc * 10 + d;
            if acc > 128 {
                acc = 129;
            }
        } else {
            acc = 129;
        }
        i = i + 1;
    }
    proof {
        assert(mag.take(i - start) =~= mag);
        assert(all_digits(mag));
        assert(mag.len() > 0);
        if acc <= 128 {
            assert(acc == digits_val(mag));
        } else {
            assert(digits_val(mag) >= 129);
        }
    }
    if neg {
        if acc <= 128 {
            proof {
                assert(s@[0] == '-');
                assert(start == 1);
                assert(mag =~= s@.skip(1));
                assert(mag.len() > 0);
                assert(all_digits(mag));
                assert(digits_val(mag) == acc as int);
                assert(-128 <= -1 * digits_val(mag) <= 127);
                assert(parsed_i8(s@) == Some((-(acc as int)) as i8));
            }
            Some((-(acc as i32)) as i8)
        } else {
            proof {
                assert(s@[0] == '-');
                assert(start == 1);
                assert(mag =~= s@.skip(1));
                assert(digits_val(mag) >= 129);
                assert(-1 * digits_val(mag) < -128) by (nonlinear_arith)
                    requires
                        digits_val(mag) >= 129,
                ;
                assert(parsed_i8(s@) is None);
            }
            None
        }
    } else {
        if acc <= 127 {
            proof {
                assert(s@[0] != '-');
                assert(mag.len() > 0);
                assert(all_digits(mag));
                assert(digits_val(mag) == acc as int);
                assert(-128 <= 1 * digits_val(mag) <= 127);
                assert(parsed_i8(s@) == Some(acc as i8));
            }
            Some(acc as i8)
        } else {
            proof {
                assert(s@[0] != '-');
                assert(digits_val(mag) >= 128);
                assert(1 * digits_val(mag) > 127);
                assert(parsed_i8(s@) is None);
            }
            None
        }
    }
}

/// Whether two string slices hold the same characters.
pub fn str_eq(a: &str, b: &str) -> (r: bool)
    ensures
        r == (a@ == b@),
{
    let x: String = a.to_owned();
    let y: String = b.to_owned();
    x == y
}

} // verus!
