//! The geometry grammar `[WIDTHxHEIGHT][±X±Y]`.
//!
//! A geometry string may carry a size part, an offset part, both, or be
//! empty; anything else matches nothing and yields neither field.  A number
//! that a field cannot hold is treated as an absent field rather than an
//! error.  The offset grammar on its own is also the payload of a
//! `move-window` message.

use vstd::prelude::*;
use vstd::string::*;
use crate::text::{
    digit_run_end, digits_val, is_digit, lemma_digit_run_end_bounds, lemma_digits_val_nonneg,
    scan_digits,
};

verus! {

/// Size and position read out of one geometry string.
#[derive(PartialEq, Eq, Clone, Copy, Debug)]
pub struct Geometry {
    /// Width and height, present only when the size part matched and fits.
    pub size: Option<(u32, u32)>,
    /// Signed screen offsets, present only when the offset part matched and
    /// fits.
    pub position: Option<(i32, i32)>,
}

/// Whether `c` opens a signed offset.
pub open spec fn is_sign(c: char) -> bool {
    c == '+' || c == '-'
}

/// The offset grammar `±X±Y`, matched from position `from` to the very end
/// of `s`; the values keep their mathematical size.
pub open spec fn spec_offsets_at(s: Seq<char>, from: int) -> Option<(int, int)>
    recommends
        0 <= from <= s.len(),
{
    if from >= s.len() || !is_sign(s[from]) {
        None
    } else {
        let e1 = digit_run_end(s, from + 1);
        if e1 == from + 1 || e1 >= s.len() || !is_sign(s[e1]) {
            None
        } else {
            let e2 = digit_run_end(s, e1 + 1);
            if e2 == e1 + 1 || e2 != s.len() {
                None
            } else {
                let xm = digits_val(s.subrange(from + 1, e1));
                let ym = digits_val(s.subrange(e1 + 1, e2));
                Some(
                    (
                        if s[from] == '-' {
                            -xm
                        } else {
                            xm
                        },
                        if s[e1] == '-' {
                            -ym
                        } else {
                            ym
                        },
                    ),
                )
            }
        }
    }
}

/// Keeps an offset pair only when both coordinates fit a signed 32-bit
/// field.
pub open spec fn fit_position(p: (int, int)) -> Option<(i32, i32)> {
    if i32::MIN <= p.0 <= i32::MAX && i32::MIN <= p.1 <= i32::MAX {
        Some((p.0 as i32, p.1 as i32))
    } else {
        None
    }
}

/// Keeps a size pair only when both lengths fit an unsigned 32-bit field.
pub open spec fn fit_size(w: int, h: int) -> Option<(u32, u32)> {
    if w <= u32::MAX && h <= u32::MAX {
        Some((w as u32, h as u32))
    } else {
        None
    }
}

/// What a whole string yields as a `move-window` payload.
pub open spec fn spec_parse_position(s: Seq<char>) -> Option<(i32, i32)> {
    match spec_offsets_at(s, 0) {
        Some(p) => fit_position(p),
        None => None,
    }
}

/// What a whole geometry string yields.  A malformed string matches nothing
/// and yields neither field; a matched number that does not fit drops only
/// its own field.
pub open spec fn spec_parse_geometry(s: Seq<char>) -> Geometry {
    let d1 = digit_run_end(s, 0);
    if d1 == 0 {
        if s.len() == 0 {
            Geometry { size: None, position: None }
        } else {
            match spec_offsets_at(s, 0) {
                Some(p) => Geometry { size: None, position: fit_position(p) },
                None => Geometry { size: None, position: None },
            }
        }
    } else if d1 < s.len() && s[d1] == 'x' && digit_run_end(s, d1 + 1) > d1 + 1 {
        let d2 = digit_run_end(s, d1 + 1);
        let w = digits_val(s.subrange(0, d1));
        let h = digits_val(s.subrange(d1 + 1, d2));
        if d2 == s.len() {
            Geometry { size: fit_size(w, h), position: None }
        } else {
            match spec_offsets_at(s, d2) {
                Some(p) => Geometry { size: fit_size(w, h), position: fit_position(p) },
                None => Geometry { size: None, position: None },
            }
        }
    } else {
        Geometry { size: None, position: None }
    }
}

/// Scans the offset grammar from `from` to the end of `s`.  The first
/// component says whether the grammar matched at all; the second carries the
/// offsets when they also fit.
fn parse_offsets(s: &str, from: usize) -> (r: (bool, Option<(i32, i32)>))
    requires
        from <= s@.len(),
    ensures
        r.0 == (spec_offsets_at(s@, from as int) is Some),
        r.1 == (match spec_offsets_at(s@, from as int) {
            Some(p) => fit_position(p),
            None => None,
        }),
{
    let len: usize = s.unicode_len();
    if from == len {
        return (false, None);
    }
    let c0: char = s.get_char(from);
    if c0 != '+' && c0 != '-' {
        return (false, None);
    }
    let (e1, xm): (usize, u64) = scan_digits(s, from + 1);
    if e1 == from + 1 || e1 == len {
        return (false, None);
    }
    let c1: char = s.get_char(e1);
    if c1 != '+' && c1 != '-' {
        return (false, None);
    }
    let (e2, ym): (usize, u64) = scan_digits(s, e1 + 1);
    if e2 == e1 + 1 || e2 != len {
        return (false, None);
    }
    let ghost xsub: Seq<char> = s@.subrange(from as int + 1, e1 as int);
    let ghost ysub: Seq<char> = s@.subrange(e1 as int + 1, e2 as int);
    proof {
        lemma_digit_run_end_bounds(s@, from as int + 1);
        lemma_digit_run_end_bounds(s@, e1 as int + 1);
        assert(forall|k: int| 0 <= k < xsub.len() ==> is_digit(#[trigger] xsub[k]));
        assert(forall|k: int| 0 <= k < ysub.len() ==> is_digit(#[trigger] ysub[k]));
        lemma_digits_val_nonneg(xsub);
        lemma_digits_val_nonneg(ysub);
    }
    let xv: i64 = if c0 == '-' {
        -(xm as i64)
    } else {
        xm as i64
    };
    let yv: i64 = if c1 == '-' {
        -(ym as i64)
    } else {
        ym as i64
    };
    let fits: bool = -2147483648 <= xv && xv <= 2147483647 && -2147483648 <= yv && yv
        <= 2147483647;
    if fits {
        (true, Some((xv as i32, yv as i32)))
    } else {
        (true, None)
    }
}

/// Parses a `move-window` payload: `±X±Y` and nothing else.
pub fn parse_position(s: &str) -> (r: Option<(i32, i32)>)
    ensures
        r == spec_parse_position(s@),
{
    let (_, p): (bool, Option<(i32, i32)>) = parse_offsets(s, 0);
    p
}

/// Parses a geometry string `[WIDTHxHEIGHT][±X±Y]`.
pub fn parse_geometry(s: &str) -> (r: Geometry)
    ensures
        r == spec_parse_geometry(s@),
{
    let len: usize = s.unicode_len();
    let (d1, wm): (usize, u64) = scan_digits(s, 0);
    if d1 == 0 {
        if len == 0 {
            return Geometry { size: None, position: None };
        }
        let (_, p): (bool, Option<(i32, i32)>) = parse_offsets(s, 0);
        return Geometry { size: None, position: p };
    }
    if d1 == len || s.get_char(d1) != 'x' {
        return Geometry { size: None, position: None };
    }
    let (d2, hm): (usize, u64) = scan_digits(s, d1 + 1);
    if d2 == d1 + 1 {
        return Geometry { size: None, position: None };
    }
    let ghost wsub: Seq<char> = s@.subrange(0, d1 as int);
    let ghost hsub: Seq<char> = s@.subrange(d1 as int + 1, d2 as int);
    proof {
        lemma_digit_run_end_bounds(s@, 0);
        lemma_digit_run_end_bounds(s@, d1 as int + 1);
        assert(forall|k: int| 0 <= k < wsub.len() ==> is_digit(#[trigger] wsub[k]));
        assert(forall|k: int| 0 <= k < hsub.len() ==> is_digit(#[trigger] hsub[k]));
        lemma_digits_val_nonneg(wsub);
        lemma_digits_val_nonneg(hsub);
    }
    let size: Option<(u32, u32)> = if wm <= 4294967295 && hm <= 4294967295 {
        Some((wm as u32, hm as u32))
    } else {
        None
    };
    if d2 == len {
        return Geometry { size, position: None };
    }
    let (matched, p): (bool, Option<(i32, i32)>) = parse_offsets(s, d2);
    if matched {
        Geometry { size, position: p }
    } else {
        Geometry { size: None, position: None }
    }
}

} // verus!
