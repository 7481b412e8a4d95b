//! Laying out text in columns.

use crate::decimal::{
    decimal_from_i64, decimal_ge, decimal_of, decimal_ordering, decimal_quotient, decimal_rounded,
    decimal_text, decimal_to_string,
};
use crate::text::{chars_of, push_chars, same_text, string_of};
use rust_decimal::Decimal;
use unicode_width::UnicodeWidthChar;
use vstd::prelude::*;

verus! {

/// The columns that `unicode_width` gives a character in a CJK context, `None`
/// for a control character.
pub uninterp spec fn cjk_width(c: char) -> Option<usize>;

/// `UnicodeWidthChar::width_cjk`: not proved, only named. The width is looked up
/// in the crate's tables and depends on the character alone.
#[verifier::external_body]
fn char_width_cjk(c: char) -> (r: Option<usize>)
    ensures
        r == cjk_width(c),
{
    c.width_cjk()
}

/// The columns that a character takes beyond the first.
pub open spec fn extra_columns_of(c: char) -> nat {
    match cjk_width(c) {
        Some(w) => if w >= 1 {
            (w - 1) as nat
        } else {
            0
        },
        None => 0,
    }
}

/// The columns that a text takes beyond one per character.
pub open spec fn extra_columns(s: Seq<char>) -> nat
    decreases s.len(),
{
    if s.len() == 0 {
        0
    } else {
        extra_columns(s.drop_last()) + extra_columns_of(s.last())
    }
}

/// The number of characters that `text` is padded to, for `width` columns: the
/// width less the extra columns of the text, or the width itself where the text
/// has more extra columns than that.
pub open spec fn padded_chars(s: Seq<char>, width: usize) -> nat {
    if extra_columns(s) <= width {
        (width - extra_columns(s)) as nat
    } else {
        width as nat
    }
}

/// `text` aligned to the right of `width` columns: spaces in front, as many as
/// it takes to fill the columns. A text that is too wide stays as it is.
pub open spec fn aligned_right(s: Seq<char>, width: usize) -> Seq<char> {
    if s.len() >= padded_chars(s, width) {
        s
    } else {
        Seq::new((padded_chars(s, width) - s.len()) as nat, |i: int| ' ') + s
    }
}

/// Aligns `text` to the right of `width` columns, counting wide characters as
/// the columns they take.
pub fn align_right(text: &str, width: usize) -> (r: String)
    ensures
        r@ == aligned_right(text@, width),
{
    let v = chars_of(text);
    // extra columns, counted up to `width + 1`: beyond that the count does not matter
    let mut extra: usize = 0;
    let mut over: bool = false;
    let mut i: usize = 0;
    assert(v@.take(0) =~= Seq::<char>::empty());
    while i < v.len()
        invariant
            i <= v.len(),
            over ==> extra_columns(v@.take(i as int)) > width,
            !over ==> extra == extra_columns(v@.take(i as int)) && extra <= width,
        decreases v.len() - i,
    {
        assert(v@.take(i + 1).drop_last() =~= v@.take(i as int));
        assert(v@.take(i + 1).last() == v@[i as int]);
        if !over {
            match char_width_cjk(v[i]) {
                Some(w) => {
                    if w >= 1 {
                        if w - 1 > width - extra {
                            over = true;
                        } else {
                            extra = extra + (w - 1);
                        }
                    }
                },
                None => {},
            }
        }
        i = i + 1;
    }
    assert(v@.take(v.len() as int) =~= v@);
    let target: usize = if over {
        width
    } else {
        width - extra
    };
    if v.len() >= target {
        return string_of(&v);
    }
    let pad: usize = target - v.len();
    let mut out: Vec<char> = Vec::new();
    let mut n: usize = 0;
    while n < pad
        invariant
            n <= pad,
            out@ == Seq::new(n as nat, |i: int| ' '),
        decreases pad - n,
    {
        out.push(' ');
        assert(out@ =~= Seq::new((n + 1) as nat, |i: int| ' '));
        n = n + 1;
    }
    push_chars(&mut out, &v);
    string_of(&out)
}

/// The column of the cursor in an input field that starts at column `chunk_x`,
/// behind one column of border: as far right as the columns go.
pub fn safe_cursor_x(chunk_x: u16, visual_cursor: usize) -> (r: u16)
    ensures
        r as int == if chunk_x + visual_cursor + 1 > u16::MAX {
            u16::MAX as int
        } else {
            chunk_x + visual_cursor + 1
        },
{
    let offset: u16 = if visual_cursor > u16::MAX as usize {
        u16::MAX - 1
    } else {
        visual_cursor as u16
    };
    chunk_x.saturating_add(offset).saturating_add(1)
}

/// `number` in units of `divisor`, rounded to `precision` places, with the
/// name of the unit behind. `None` where the quotient does not fit.
pub open spec fn in_units(number: Decimal, divisor: int, precision: u32, name: Seq<char>) -> Option<
    Seq<char>,
> {
    match decimal_quotient(number, decimal_of(divisor)) {
        Some(q) => Some(decimal_text(decimal_rounded(q, precision as int)) + name),
        None => None,
    }
}

/// `number` rounded to `precision` places, with no unit.
pub open spec fn plain_number(number: Decimal, precision: u32) -> Seq<char> {
    decimal_text(decimal_rounded(number, precision as int))
}

/// `number` written short in steps of a thousand: in billions from 10^9, in
/// millions from 10^6, in thousands from 10^3, and plain below.
pub open spec fn short_by_thousands(
    number: Decimal,
    precision: u32,
    thousand: Seq<char>,
    million: Seq<char>,
    billion: Seq<char>,
) -> Option<Seq<char>> {
    if decimal_ge(number, decimal_of(1_000_000_000)) {
        in_units(number, 1_000_000_000, precision, billion)
    } else if decimal_ge(number, decimal_of(1_000_000)) {
        in_units(number, 1_000_000, precision, million)
    } else if decimal_ge(number, decimal_of(1_000)) {
        in_units(number, 1_000, precision, thousand)
    } else {
        Some(plain_number(number, precision))
    }
}

/// `number` written short in steps of ten thousand: in units of 10^12 from
/// there, of 10^8 from there, of 10^4 from there, and plain below.
pub open spec fn short_by_myriads(
    number: Decimal,
    precision: u32,
    myriad: Seq<char>,
    hundred_million: Seq<char>,
    trillion: Seq<char>,
) -> Option<Seq<char>> {
    if decimal_ge(number, decimal_of(1_000_000_000_000)) {
        in_units(number, 1_000_000_000_000, precision, trillion)
    } else if decimal_ge(number, decimal_of(100_000_000)) {
        in_units(number, 100_000_000, precision, hundred_million)
    } else if decimal_ge(number, decimal_of(10_000)) {
        in_units(number, 10_000, precision, myriad)
    } else {
        Some(plain_number(number, precision))
    }
}

/// `number` written short for a reader of `locale`: in steps of ten thousand
/// with the units of mainland China for `zh-CN` and those of Hong Kong for
/// `zh-HK`, in steps of a thousand with K, M and B for every other.
pub open spec fn short_number(number: Decimal, precision: u32, locale: Seq<char>) -> Option<
    Seq<char>,
> {
    if locale == "zh-CN"@ {
        short_by_myriads(number, precision, " 万"@, " 亿"@, " 万亿"@)
    } else if locale == "zh-HK"@ {
        short_by_myriads(number, precision, " 萬"@, " 億"@, " 萬億"@)
    } else {
        short_by_thousands(number, precision, "K"@, "M"@, "B"@)
    }
}

fn in_unit(number: Decimal, divisor: i64, precision: u32, name: &str) -> (r: Option<String>)
    ensures
        match r {
            Some(text) => in_units(number, divisor as int, precision, name@) == Some(text@),
            None => in_units(number, divisor as int, precision, name@) is None,
        },
{
    match number.checked_div(decimal_from_i64(divisor)) {
        Some(q) => {
            let mut text = decimal_to_string(q.round_dp(precision));
            text.append(name);
            Some(text)
        },
        None => None,
    }
}

/// Writes `number` short in steps of a thousand.
pub fn unit_3(number: Decimal, precision: u32, units: (&str, &str, &str)) -> (r: Option<String>)
    ensures
        match r {
            Some(text) => short_by_thousands(number, precision, units.0@, units.1@, units.2@)
                == Some(text@),
            None => short_by_thousands(number, precision, units.0@, units.1@, units.2@) is None,
        },
{
    if decimal_ordering(number, decimal_from_i64(1_000_000_000)) >= 0 {
        in_unit(number, 1_000_000_000, precision, units.2)
    } else if decimal_ordering(number, decimal_from_i64(1_000_000)) >= 0 {
        in_unit(number, 1_000_000, precision, units.1)
    } else if decimal_ordering(number, decimal_from_i64(1_000)) >= 0 {
        in_unit(number, 1_000, precision, units.0)
    } else {
        Some(decimal_to_string(number.round_dp(precision)))
    }
}

/// Writes `number` short in steps of ten thousand.
pub fn unit_4(number: Decimal, precision: u32, units: (&str, &str, &str)) -> (r: Option<String>)
    ensures
        match r {
            Some(text) => short_by_myriads(number, precision, units.0@, units.1@, units.2@)
                == Some(text@),
            None => short_by_myriads(number, precision, units.0@, units.1@, units.2@) is None,
        },
{
    if decimal_ordering(number, decimal_from_i64(1_000_000_000_000)) >= 0 {
        in_unit(number, 1_000_000_000_000, precision, units.2)
    } else if decimal_ordering(number, decimal_from_i64(100_000_000)) >= 0 {
        in_unit(number, 100_000_000, precision, units.1)
    } else if decimal_ordering(number, decimal_from_i64(10_000)) >= 0 {
        in_unit(number, 10_000, precision, units.0)
    } else {
        Some(decimal_to_string(number.round_dp(precision)))
    }
}

/// Writes `number` short for a reader of `locale`. `None` where a quotient
/// does not fit a decimal.
pub fn unit(number: Decimal, precision: u32, locale: &str) -> (r: Option<String>)
    ensures
        match r {
            Some(text) => short_number(number, precision, locale@) == Some(text@),
            None => short_number(number, precision, locale@) is None,
        },
{
    if same_text(locale, "zh-CN") {
        unit_4(number, precision, (" 万", " 亿", " 万亿"))
    } else if same_text(locale, "zh-HK") {
        unit_4(number, precision, (" 萬", " 億", " 萬億"))
    } else {
        unit_3(number, precision, ("K", "M", "B"))
    }
}

} // verus!
