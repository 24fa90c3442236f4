//! Rendering one cell value into the characters a column of a given width
//! shows: blank for a null, right-aligned for numeric text, left-aligned
//! for plain text, centered for booleans, times and combined date-times,
//! a footnote slot plus the date for dates, everything clipped to the
//! column width with a continuation marker.

use vstd::prelude::*;
use crate::data_value::DataValue;
use crate::date::{
    Date,
    date_text,
    time_text,
    datetime_text,
    is_expiration,
    is_monthly_expiration,
    date_chars,
    time_chars,
    datetime_chars,
};
use crate::text::{
    spaces,
    pad_left,
    pad_right,
    center,
    clip,
    dec_nat,
    dec_int,
    pad_left_vec,
    pad_right_vec,
    center_vec,
    clip_vec,
    push_repeat,
    push_all,
    push_str_chars,
    u64_digits,
    i64_digits,
};

verus! {

/// The native text of a boolean.
pub open spec fn bool_text(b: bool) -> Seq<char> {
    if b {
        seq!['t', 'r', 'u', 'e']
    } else {
        seq!['f', 'a', 'l', 's', 'e']
    }
}

/// A date cell: one footnote slot holding the expiration star or a space,
/// then the date text left-aligned in the remaining width.
pub open spec fn date_cell(d: Date, w: nat) -> Seq<char> {
    seq![
        if is_expiration(d) {
            '*'
        } else {
            ' '
        },
    ] + pad_right(date_text(d), (w - 1) as nat)
}

/// The text of a cell of width `w` before clipping: a null shows only
/// blank space; integers and numeric text are right-aligned; plain text is
/// left-aligned; booleans, times, combined date-times and 32-bit unsigned
/// values are centered; dates carry the footnote slot in front.
pub open spec fn natural_text(v: DataValue, w: nat) -> Seq<char> {
    match v {
        DataValue::I64(x) => pad_left(dec_int(x as int), w),
        DataValue::F64(s) => pad_left(s@, w),
        DataValue::F32(s) => pad_left(s@, w),
        DataValue::U64(x) => pad_left(dec_nat(x as nat), w),
        DataValue::U32(x) => center(dec_nat(x as nat), w),
        DataValue::Bool(b) => center(bool_text(b), w),
        DataValue::String(s) => pad_right(s@, w),
        DataValue::Date(d) => date_cell(d, w),
        DataValue::Time(t) => center(time_text(t), w),
        DataValue::DateTime(dt) => center(datetime_text(dt), w),
        DataValue::OptionDate(o) => match o {
            None => spaces(w),
            Some(d) => date_cell(d, w),
        },
        DataValue::OptionTime(o) => match o {
            None => spaces(w),
            Some(t) => center(time_text(t), w),
        },
        DataValue::OptionDateTime(o) => match o {
            None => spaces(w),
            Some(dt) => center(datetime_text(dt), w),
        },
        DataValue::OptionF64(o) => match o {
            None => spaces(w),
            Some(s) => pad_left(s@, w),
        },
        DataValue::OptionF32(o) => match o {
            None => spaces(w),
            Some(s) => pad_left(s@, w),
        },
        DataValue::OptionI64(o) => match o {
            None => spaces(w),
            Some(x) => pad_left(dec_int(x as int), w),
        },
        DataValue::OptionU64(o) => match o {
            None => spaces(w),
            Some(x) => pad_left(dec_nat(x as nat), w),
        },
        DataValue::OptionU32(o) => match o {
            None => spaces(w),
            Some(x) => center(dec_nat(x as nat), w),
        },
        DataValue::OptionString(o) => match o {
            None => spaces(w),
            Some(s) => pad_right(s@, w),
        },
    }
}

/// What a cell of width `w` shows: its natural text, clipped to `w`.
pub open spec fn rendered_cell(v: DataValue, w: nat) -> Seq<char> {
    clip(natural_text(v, w), w)
}

/// `w` space characters.
pub fn spaces_vec(w: usize) -> (r: Vec<char>)
    ensures
        r@ == spaces(w as nat),
{
    let mut out: Vec<char> = Vec::new();
    push_repeat(&mut out, ' ', w);
    out
}

/// The characters of a string slice.
pub fn str_chars(s: &str) -> (r: Vec<char>)
    ensures
        r@ == s@,
{
    let mut out: Vec<char> = Vec::new();
    push_str_chars(&mut out, s);
    out
}

/// The characters of a boolean's native text.
pub fn bool_chars(b: bool) -> (r: Vec<char>)
    ensures
        r@ == bool_text(b),
{
    let mut out: Vec<char> = Vec::new();
    if b {
        out.push('t');
        out.push('r');
        out.push('u');
        out.push('e');
    } else {
        out.push('f');
        out.push('a');
        out.push('l');
        out.push('s');
        out.push('e');
    }
    proof {
        assert(out@ =~= bool_text(b));
    }
    out
}

/// The characters of a date cell of width `w`, footnote slot included.
pub fn date_cell_chars(d: &Date, w: usize) -> (r: Vec<char>)
    requires
        w >= 1,
        d.valid(),
    ensures
        r@ == date_cell(*d, w as nat),
{
    let mut out: Vec<char> = Vec::new();
    if is_monthly_expiration(d) {
        out.push('*');
    } else {
        out.push(' ');
    }
    let body = pad_right_vec(date_chars(d), w - 1);
    push_all(&mut out, &body);
    proof {
        assert(out@ =~= date_cell(*d, w as nat));
    }
    out
}

/// The characters a cell of width `w` shows.
pub fn cell_chars(val: &DataValue, w: usize) -> (r: Vec<char>)
    requires
        w >= 1,
        val.valid(),
    ensures
        r@ == rendered_cell(*val, w as nat),
{
    let content: Vec<char> = match val {
        DataValue::I64(x) => pad_left_vec(i64_digits(*x), w),
        DataValue::F64(s) => pad_left_vec(str_chars(s.as_str()), w),
        DataValue::F32(s) => pad_left_vec(str_chars(s.as_str()), w),
        DataValue::U64(x) => pad_left_vec(u64_digits(*x), w),
        DataValue::U32(x) => center_vec(u64_digits(*x as u64), w),
        DataValue::Bool(b) => center_vec(bool_chars(*b), w),
        DataValue::String(s) => pad_right_vec(str_chars(s.as_str()), w),
        DataValue::Date(d) => date_cell_chars(d, w),
        DataValue::Time(t) => center_vec(time_chars(t), w),
        DataValue::DateTime(dt) => center_vec(datetime_chars(dt), w),
        DataValue::OptionDate(o) => match o {
            None => spaces_vec(w),
            Some(d) => date_cell_chars(d, w),
        },
        DataValue::OptionTime(o) => match o {
            None => spaces_vec(w),
            Some(t) => center_vec(time_chars(t), w),
        },
        DataValue::OptionDateTime(o) => match o {
            None => spaces_vec(w),
            Some(dt) => center_vec(datetime_chars(dt), w),
        },
        DataValue::OptionF64(o) => match o {
            None => spaces_vec(w),
            Some(s) => pad_left_vec(str_chars(s.as_str()), w),
        },
        DataValue::OptionF32(o) => match o {
            None => spaces_vec(w),
            Some(s) => pad_left_vec(str_chars(s.as_str()), w),
        },
        DataValue::OptionI64(o) => match o {
            None => spaces_vec(w),
            Some(x) => pad_left_vec(i64_digits(*x), w),
        },
        DataValue::OptionU64(o) => match o {
            None => spaces_vec(w),
            Some(x) => pad_left_vec(u64_digits(*x), w),
        },
        DataValue::OptionU32(o) => match o {
            None => spaces_vec(w),
            Some(x) => center_vec(u64_digits(*x as u64), w),
        },
        DataValue::OptionString(o) => match o {
            None => spaces_vec(w),
            Some(s) => pad_right_vec(str_chars(s.as_str()), w),
        },
    };
    clip_vec(content, w)
}

} // verus!
