//! Characters, decimal digit runs, and decimal formatting.
//!
//! The geometry and message grammars are built from runs of decimal digits;
//! this module gives those runs their mathematical meaning (`digits_val`),
//! provides the executable scanner over them, and renders integers back to
//! decimal text for window titles and the final status line.

use vstd::prelude::*;
use vstd::string::*;

verus! {

/// Whether `c` is a decimal digit.
pub open spec fn is_digit(c: char) -> bool {
    '0' as int <= c as int <= '9' as int
}

/// Numeric value of a decimal digit character.
pub open spec fn digit_val(c: char) -> int {
    c as int - '0' as int
}

/// Value of a digit string read left to right; 0 for the empty string.
pub open spec fn digits_val(s: Seq<char>) -> int
    decreases s.len(),
{
    if s.len() == 0 {
        0
    } else {
        digits_val(s.drop_last()) * 10 + digit_val(s.last())
    }
}

/// End of the run of digits that starts at position `i` of `s`.
pub open spec fn digit_run_end(s: Seq<char>, i: int) -> int
    decreases s.len() - i,
{
    if 0 <= i < s.len() && is_digit(s[i]) {
        digit_run_end(s, i + 1)
    } else {
        i
    }
}

/// A digit run stays inside the string, holds digits only, and stops at
/// the first non-digit.
pub proof fn lemma_digit_run_end_bounds(s: Seq<char>, i: int)
    requires
        0 <= i <= s.len(),
    ensures
        i <= digit_run_end(s, i) <= s.len(),
        forall|k: int| i <= k < digit_run_end(s, i) ==> is_digit(s[k]),
        digit_run_end(s, i) < s.len() ==> !is_digit(s[digit_run_end(s, i)]),
    decreases s.len() - i,
{
    if 0 <= i < s.len() && is_digit(s[i]) {
        lemma_digit_run_end_bounds(s, i + 1);
    }
}

/// A digit string made of digits only is non-negative.
pub proof fn lemma_digits_val_nonneg(s: Seq<char>)
    requires
        forall|k: int| 0 <= k < s.len() ==> is_digit(s[k]),
    ensures
        digits_val(s) >= 0,
    decreases s.len(),
{
    if s.len() > 0 {
        lemma_digits_val_nonneg(s.drop_last());
    }
}

/// The saturation bound used by the digit scanner: one past `u32::MAX`.
pub open spec fn scan_cap() -> int {
    0x1_0000_0000
}

/// `digits_val` saturated at `scan_cap()`.
pub open spec fn capped_digits_val(s: Seq<char>) -> int {
    if digits_val(s) >= scan_cap() {
        scan_cap()
    } else {
        digits_val(s)
    }
}

/// Scans the run of digits in `s` that starts at `from` and returns the
/// position just past the run together with its value, saturated at
/// `scan_cap()` so that arbitrarily long digit strings never overflow.
pub fn scan_digits(s: &str, from: usize) -> (r: (usize, u64))
    requires
        from <= s@.len(),
    ensures
        r.0 == digit_run_end(s@, from as int),
        r.1 == capped_digits_val(s@.subrange(from as int, r.0 as int)),
        from <= r.0 <= s@.len(),
{
    let len: usize = s.unicode_len();
    let mut j: usize = from;
    let mut acc: u64 = 0;
    proof {
        assert(s@.subrange(from as int, from as int) =~= Seq::<char>::empty());
    }
    loop
        invariant
            from <= j <= len,
            len == s@.len(),
            s@.len() <= usize::MAX,
            forall|k: int| from <= k < j ==> is_digit(s@[k]),
            acc == capped_digits_val(s@.subrange(from as int, j as int)),
            0 <= acc <= scan_cap(),
        ensures
            j == digit_run_end(s@, from as int),
            acc == capped_digits_val(s@.subrange(from as int, j as int)),
        decreases len - j,
    {
        if j == len || !is_digit_char(s.get_char(j)) {
            proof {
                lemma_digit_run_frozen(s@, from as int, j as int);
            }
            break;
        }
        let c: char = s.get_char(j);
        let d: u64 = (c as u32 - 48) as u64;
        let ghost pre: Seq<char> = s@.subrange(from as int, j as int);
        let ghost post: Seq<char> = s@.subrange(from as int, j as int + 1);
        proof {
            assert(post.drop_last() =~= pre);
            assert(post.last() == s@[j as int]);
            lemma_digits_val_nonneg(pre);
        }
        let step: u64 = acc * 10 + d;
        acc = if step > 4_294_967_296 {
            4_294_967_296
        } else {
            step
        };
        j = j + 1;
    }
    (j, acc)
}

/// Exec counterpart of `is_digit`.
pub fn is_digit_char(c: char) -> (r: bool)
    ensures
        r == is_digit(c),
{
    let u: u32 = c as u32;
    48 <= u && u <= 57
}

/// When every character from `from` up to `j` is a digit and `j` sits at the
/// end of the string or on a non-digit, `j` is exactly the end of the run.
proof fn lemma_digit_run_frozen(s: Seq<char>, from: int, j: int)
    requires
        0 <= from <= j <= s.len(),
        forall|k: int| from <= k < j ==> is_digit(s[k]),
        j == s.len() || !is_digit(s[j]),
    ensures
        digit_run_end(s, from) == j,
    decreases j - from,
{
    if from < j {
        lemma_digit_run_frozen(s, from + 1, j);
    }
}

/// Exec string equality, specified over the character views.
pub fn str_eq(a: &str, b: &str) -> (r: bool)
    ensures
        r == (a@ == b@),
{
    let alen: usize = a.unicode_len();
    let blen: usize = b.unicode_len();
    if alen != blen {
        return false;
    }
    let mut i: usize = 0;
    while i < alen
        invariant
            0 <= i <= alen,
            alen == a@.len(),
            alen == b@.len(),
            forall|k: int| 0 <= k < i ==> a@[k] == b@[k],
        decreases alen - i,
    {
        if a.get_char(i) != b.get_char(i) {
            return false;
        }
        i = i + 1;
    }
    proof {
        assert(a@ =~= b@);
    }
    true
}

/// Decimal digit character for a value between 0 and 9.
pub open spec fn digit_char(d: int) -> char {
    if d == 0 {
        '0'
    } else if d == 1 {
        '1'
    } else if d == 2 {
        '2'
    } else if d == 3 {
        '3'
    } else if d == 4 {
        '4'
    } else if d == 5 {
        '5'
    } else if d == 6 {
        '6'
    } else if d == 7 {
        '7'
    } else if d == 8 {
        '8'
    } else {
        '9'
    }
}

/// Decimal rendering of a non-negative integer, without sign or padding.
pub open spec fn spec_nat_text(n: int) -> Seq<char>
    decreases n,
{
    if n <= 0 {
        seq!['0']
    } else if n < 10 {
        seq![digit_char(n)]
    } else {
        spec_nat_text(n / 10).push(digit_char(n % 10))
    }
}

/// Decimal rendering of a signed integer, with a leading `-` when negative.
pub open spec fn spec_i64_text(n: int) -> Seq<char> {
    if n < 0 {
        seq!['-'] + spec_nat_text(-n)
    } else {
        spec_nat_text(n)
    }
}

/// Appends the decimal digits of `n` to `out`.
fn push_nat_text(out: &mut String, n: u64)
    ensures
        final(out)@ == old(out)@ + spec_nat_text(n as int),
    decreases n,
{
    if n >= 10 {
        push_nat_text(out, n / 10);
    }
    let d: u64 = n % 10;
    let piece: &str = if d == 0 {
        "0"
    } else if d == 1 {
        "1"
    } else if d == 2 {
        "2"
    } else if d == 3 {
        "3"
    } else if d == 4 {
        "4"
    } else if d == 5 {
        "5"
    } else if d == 6 {
        "6"
    } else if d == 7 {
        "7"
    } else if d == 8 {
        "8"
    } else {
        "9"
    };
    proof {
        reveal_strlit("0");
        reveal_strlit("1");
        reveal_strlit("2");
        reveal_strlit("3");
        reveal_strlit("4");
        reveal_strlit("5");
        reveal_strlit("6");
        reveal_strlit("7");
        reveal_strlit("8");
        reveal_strlit("9");
        if n >= 10 {
            assert(spec_nat_text(n as int) =~= spec_nat_text(n as int / 10).push(
                digit_char(n as int % 10),
            ));
        }
    }
    out.append(piece);
    proof {
        assert(out@ =~= old(out)@ + spec_nat_text(n as int));
    }
}

/// Renders a signed integer as decimal text.
pub fn i64_to_text(n: i64) -> (r: String)
    ensures
        r@ == spec_i64_text(n as int),
{
    let mut out: String = String::new();
    if n < 0 {
        out.append("-");
        proof {
            reveal_strlit("-");
            assert(out@ =~= seq!['-']);
        }
        let mag: u64 = if n == i64::MIN {
            9_223_372_036_854_775_808u64
        } else {
            (-n) as u64
        };
        push_nat_text(&mut out, mag);
        proof {
            assert(out@ =~= spec_i64_text(n as int));
        }
    } else {
        push_nat_text(&mut out, n as u64);
    }
    out
}

/// Rust-style signed 64-bit decimal parsing: an optional sign followed by at
/// least one digit, with the value in range.
pub open spec fn spec_parse_i64(s: Seq<char>) -> Option<i64> {
    let start: int = if s.len() > 0 && (s[0] == '+' || s[0] == '-') {
        1
    } else {
        0
    };
    let neg = s.len() > 0 && s[0] == '-';
    if digit_run_end(s, start) != s.len() || s.len() == start {
        None
    } else {
        let v = if neg {
            -digits_val(s.subrange(start, s.len() as int))
        } else {
            digits_val(s.subrange(start, s.len() as int))
        };
        if i64::MIN <= v <= i64::MAX {
            Some(v as i64)
        } else {
            None
        }
    }
}

/// The saturation bound used by the 64-bit scanner: one past `2^63`.
pub open spec fn parse_cap() -> int {
    0x8000_0000_0000_0001
}

/// `digits_val` saturated at `parse_cap()`.
pub open spec fn capped_digits_val64(s: Seq<char>) -> int {
    if digits_val(s) >= parse_cap() {
        parse_cap()
    } else {
        digits_val(s)
    }
}

/// Parses `s` as a signed 64-bit decimal integer; `None` when `s` is not an
/// optional sign followed only by digits, or the value is out of range.
pub fn parse_i64(s: &str) -> (r: Option<i64>)
    ensures
        r == spec_parse_i64(s@),
{
    let len: usize = s.unicode_len();
    if len == 0 {
        return None;
    }
    let c0: char = s.get_char(0);
    let neg: bool = c0 == '-';
    let start: usize = if c0 == '-' || c0 == '+' {
        1
    } else {
        0
    };
    let mut j: usize = start;
    let mut acc: u128 = 0;
    proof {
        assert(s@.subrange(start as int, start as int) =~= Seq::<char>::empty());
    }
    loop
        invariant
            start <= j <= len,
            len == s@.len(),
            s@.len() <= usize::MAX,
            forall|k: int| start <= k < j ==> is_digit(s@[k]),
            acc == capped_digits_val64(s@.subrange(start as int, j as int)),
            0 <= acc <= parse_cap(),
        ensures
            j == digit_run_end(s@, start as int),
            acc == capped_digits_val64(s@.subrange(start as int, j as int)),
        decreases len - j,
    {
        if j == len || !is_digit_char(s.get_char(j)) {
            proof {
                lemma_digit_run_frozen(s@, start as int, j as int);
            }
            break;
        }
        let c: char = s.get_char(j);
        let d: u128 = (c as u32 - 48) as u128;
        let ghost pre: Seq<char> = s@.subrange(start as int, j as int);
        let ghost post: Seq<char> = s@.subrange(start as int, j as int + 1);
        proof {
            assert(post.drop_last() =~= pre);
            assert(post.last() == s@[j as int]);
            lemma_digits_val_nonneg(pre);
        }
        let step: u128 = acc * 10 + d;
        acc = if step > 0x8000_0000_0000_0001u128 {
            0x8000_0000_0000_0001u128
        } else {
            step
        };
        j = j + 1;
    }
    if j != len || len == start {
        return None;
    }
    let ghost body: Seq<char> = s@.subrange(start as int, len as int);
    proof {
        lemma_digit_run_end_bounds(s@, start as int);
        lemma_digits_val_nonneg(body);
    }
    if neg {
        if acc <= 0x8000_0000_0000_0000u128 {
            let v: i64 = if acc == 0x8000_0000_0000_0000u128 {
                i64::MIN
            } else {
                -(acc as i64)
            };
            Some(v)
        } else {
            None
        }
    } else {
        if acc <= 0x7fff_ffff_ffff_ffffu128 {
            Some(acc as i64)
        } else {
            None
        }
    }
}

} // verus!
