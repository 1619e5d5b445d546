//! Numeric rendering: decimal digit expansion, zero padding, and the
//! translation of digits into the locale's digit symbols, with a plain
//! ASCII fallback when no symbols are loaded.

use vstd::prelude::*;
use crate::data::{DecimalSymbols, DecimalSymbolsModel};

verus! {

/// The decimal digits of a number, most significant first.
pub open spec fn spec_digits(n: int) -> Seq<int>
    decreases n,
{
    if n < 10 {
        seq![n]
    } else {
        spec_digits(n / 10).push(n % 10)
    }
}

/// The digits padded with leading zeros to at least `min` digits.
pub open spec fn spec_zero_pad(digits: Seq<int>, min: int) -> Seq<int> {
    if digits.len() >= min {
        digits
    } else {
        Seq::new((min - digits.len()) as nat, |i: int| 0int) + digits
    }
}

/// The ASCII character of a digit.
pub open spec fn spec_digit_char(d: int) -> char {
    ((48 + d) as u8) as char
}

/// The text of a digit under optional digit symbols: the locale's digit
/// where symbols are loaded, the ASCII digit otherwise.
pub open spec fn spec_digit_text(d: int, symbols: Option<DecimalSymbolsModel>) -> Seq<char> {
    match symbols {
        Some(sy) => sy.digits[d],
        None => seq![spec_digit_char(d)],
    }
}

/// The text of a digit sequence under optional digit symbols.
pub open spec fn spec_digits_text(digits: Seq<int>, symbols: Option<DecimalSymbolsModel>) -> Seq<
    char,
>
    decreases digits.len(),
{
    if digits.len() == 0 {
        Seq::empty()
    } else {
        spec_digit_text(digits[0], symbols) + spec_digits_text(digits.drop_first(), symbols)
    }
}

/// The text of an unsigned number, zero padded to at least `min` digits.
pub open spec fn spec_number_text(
    value: int,
    min: int,
    symbols: Option<DecimalSymbolsModel>,
) -> Seq<char> {
    spec_digits_text(spec_zero_pad(spec_digits(value), min), symbols)
}

/// The text of a signed number: the minus sign (the locale's where
/// symbols are loaded, the ASCII hyphen otherwise) before the text of the
/// magnitude.
pub open spec fn spec_signed_number_text(
    value: int,
    min: int,
    symbols: Option<DecimalSymbolsModel>,
) -> Seq<char> {
    if value < 0 {
        (match symbols {
            Some(sy) => sy.minus_sign,
            None => "-"@,
        }) + spec_number_text(-value, min, symbols)
    } else {
        spec_number_text(value, min, symbols)
    }
}

/// The ASCII digit string of a digit value.
fn ascii_digit_str(d: u8) -> (r: &'static str)
    requires
        d < 10,
    ensures
        r@ == seq![spec_digit_char(d as int)],
{
    proof {
        reveal_strlit("0");
        reveal_strlit("1");
        reveal_strlit("2");
        reveal_strlit("3");
        reveal_strlit("4");
        reveal_strlit("5");
        reveal_strlit("6");
        reveal_strlit("7");
        reveal_strlit("8");
        reveal_strlit("9");
    }
    match d {
        0 => "0",
        1 => "1",
        2 => "2",
        3 => "3",
        4 => "4",
        5 => "5",
        6 => "6",
        7 => "7",
        8 => "8",
        _ => "9",
    }
}

/// The decimal digits of a number as bytes, most significant first.
pub open spec fn spec_digits_u8(n: u64) -> Seq<u8>
    decreases n,
{
    if n < 10 {
        seq![n as u8]
    } else {
        spec_digits_u8((n / 10) as u64).push((n % 10) as u8)
    }
}

/// A byte digit sequence read as numbers.
pub open spec fn digits_as_ints(s: Seq<u8>) -> Seq<int> {
    s.map(|i: int, d: u8| d as int)
}

/// The byte digits of a number, read as numbers, are its decimal digits.
proof fn lemma_digits_u8_int(n: u64)
    ensures
        digits_as_ints(spec_digits_u8(n)) =~= spec_digits(n as int),
        forall|i: int| 0 <= i < spec_digits_u8(n).len() ==> #[trigger] spec_digits_u8(n)[i] < 10,
    decreases n,
{
    if n < 10 {
        assert(digits_as_ints(spec_digits_u8(n)) =~= spec_digits(n as int));
    } else {
        lemma_digits_u8_int((n / 10) as u64);
        assert forall|i: int|
            0 <= i < digits_as_ints(spec_digits_u8(n)).len() implies digits_as_ints(
            spec_digits_u8(n),
        )[i] == spec_digits(n as int)[i] by {
            if i < spec_digits_u8((n / 10) as u64).len() as int {
                assert(spec_digits_u8(n)[i] == spec_digits_u8((n / 10) as u64)[i]);
                assert(digits_as_ints(spec_digits_u8((n / 10) as u64))[i] == spec_digits(
                    n as int / 10,
                )[i]);
            }
        }
    }
}

/// Appends the decimal digits of `n`, most significant first.
fn push_digits(n: u64, out: &mut Vec<u8>)
    ensures
        final(out)@ == old(out)@ + spec_digits_u8(n),
        final(out)@.len() > old(out)@.len(),
    decreases n,
{
    if n < 10 {
        out.push(n as u8);
        proof {
            assert(out@ =~= old(out)@ + spec_digits_u8(n));
        }
    } else {
        push_digits(n / 10, out);
        out.push((n % 10) as u8);
        proof {
            assert(out@ =~= old(out)@ + spec_digits_u8(n));
        }
    }
}

/// Appends the text of one digit to a string.
fn push_digit_text(out: &mut String, d: u8, symbols: Option<&DecimalSymbols>)
    requires
        d < 10,
        symbols matches Some(sy) ==> sy@.digits.len() == 10,
    ensures
        final(out)@ == old(out)@ + spec_digit_text(
            d as int,
            match symbols {
                Some(sy) => Some(sy@),
                None => None,
            },
        ),
{
    match symbols {
        Some(sy) => {
            out.append(sy.digits[d as usize].as_str());
        },
        None => {
            out.append(ascii_digit_str(d));
        },
    }
}

/// Renders an unsigned number, zero padded to at least `min_digits`
/// digits, through the loaded digit symbols or as ASCII digits.
pub fn format_number(value: u64, min_digits: usize, symbols: Option<&DecimalSymbols>) -> (r:
    String)
    requires
        symbols matches Some(sy) ==> sy@.digits.len() == 10,
    ensures
        r@ == spec_number_text(
            value as int,
            min_digits as int,
            match symbols {
                Some(sy) => Some(sy@),
                None => None,
            },
        ),
{
    let ghost symodel: Option<DecimalSymbolsModel> = match symbols {
        Some(sy) => Some(sy@),
        None => None,
    };
    let mut digits: Vec<u8> = Vec::new();
    push_digits(value, &mut digits);
    let ghost digit_ints = digits_as_ints(digits@);
    proof {
        assert(digits@ =~= spec_digits_u8(value));
        lemma_digits_u8_int(value);
        lemma_spec_digits_in_range(value as int);
    }
    let mut out = String::new();
    let mut pad: usize = 0;
    let total: usize = if digits.len() >= min_digits {
        digits.len()
    } else {
        min_digits
    };
    let ghost padded = spec_zero_pad(digit_ints, min_digits as int);
    proof {
        assert(padded.len() == total as int);
    }
    while pad < total - digits.len()
        invariant
            symodel == (match symbols {
                Some(sy) => Some(sy@),
                None => None,
            }),
            symbols matches Some(sy) ==> sy@.digits.len() == 10,
            digits_as_ints(digits@) == digit_ints,
            digit_ints == spec_digits(value as int),
            forall|i: int| 0 <= i < digits@.len() ==> #[trigger] digits@[i] < 10,
            digits.len() <= total,
            pad <= total - digits.len(),
            padded == spec_zero_pad(digit_ints, min_digits as int),
            padded.len() == total as int,
            out@ == spec_digits_text(padded.take(pad as int), symodel),
        decreases total - digits.len() - pad,
    {
        proof {
            assert(padded[pad as int] == 0);
            lemma_digits_text_snoc(padded.take(pad as int + 1), symodel);
            assert(padded.take(pad as int + 1).drop_last() =~= padded.take(pad as int));
        }
        push_digit_text(&mut out, 0, symbols);
        pad += 1;
    }
    let mut i: usize = 0;
    while i < digits.len()
        invariant
            symodel == (match symbols {
                Some(sy) => Some(sy@),
                None => None,
            }),
            symbols matches Some(sy) ==> sy@.digits.len() == 10,
            digits_as_ints(digits@) == digit_ints,
            digit_ints == spec_digits(value as int),
            forall|j: int| 0 <= j < digits@.len() ==> #[trigger] digits@[j] < 10,
            i <= digits.len(),
            digits.len() <= total,
            padded == spec_zero_pad(digit_ints, min_digits as int),
            padded.len() == total as int,
            out@ == spec_digits_text(padded.take(total - digits.len() + i as int), symodel),
        decreases digits.len() - i,
    {
        let ghost k = total - digits.len() + i as int;
        proof {
            assert(digit_ints[i as int] == digits@[i as int] as int);
            assert(padded[k] == digit_ints[i as int]);
            lemma_digits_text_snoc(padded.take(k + 1), symodel);
            assert(padded.take(k + 1).drop_last() =~= padded.take(k));
        }
        let d = digits[i];
        push_digit_text(&mut out, d, symbols);
        i += 1;
    }
    proof {
        assert(padded.take(padded.len() as int) =~= padded);
    }
    out
}

/// Every decimal digit of a non-negative number lies between 0 and 9.
proof fn lemma_spec_digits_in_range(n: int)
    requires
        n >= 0,
    ensures
        forall|i: int|
            0 <= i < spec_digits(n).len() ==> 0 <= #[trigger] spec_digits(n)[i] < 10,
    decreases n,
{
    if n >= 10 {
        lemma_spec_digits_in_range(n / 10);
        assert forall|i: int|
            0 <= i < spec_digits(n).len() implies 0 <= #[trigger] spec_digits(n)[i] < 10 by {
            if i < spec_digits(n / 10).len() {
                assert(spec_digits(n)[i] == spec_digits(n / 10)[i]);
            }
        }
    }
}

/// The text of a digit sequence grows by the text of its last digit.
proof fn lemma_digits_text_snoc(digits: Seq<int>, symbols: Option<DecimalSymbolsModel>)
    requires
        digits.len() > 0,
    ensures
        spec_digits_text(digits, symbols) == spec_digits_text(digits.drop_last(), symbols)
            + spec_digit_text(digits.last(), symbols),
    decreases digits.len(),
{
    if digits.len() == 1 {
        assert(digits.drop_first() =~= Seq::<int>::empty());
        assert(digits.drop_last() =~= Seq::<int>::empty());
        assert(spec_digits_text(digits, symbols) =~= spec_digit_text(digits[0], symbols));
        assert(spec_digits_text(digits.drop_last(), symbols) + spec_digit_text(
            digits.last(),
            symbols,
        ) =~= spec_digit_text(digits[0], symbols));
    } else {
        lemma_digits_text_snoc(digits.drop_first(), symbols);
        assert(digits.drop_first().drop_last() =~= digits.drop_last().drop_first());
        assert(digits.drop_first().last() == digits.last());
        assert(digits.drop_last()[0] == digits[0]);
        assert(digits.drop_last().len() > 0);
        assert(spec_digits_text(digits.drop_last(), symbols) == spec_digit_text(digits[0], symbols)
            + spec_digits_text(digits.drop_last().drop_first(), symbols));
        assert(spec_digits_text(digits, symbols) == spec_digit_text(digits[0], symbols)
            + spec_digits_text(digits.drop_first(), symbols));
        assert(spec_digits_text(digits, symbols) =~= spec_digits_text(digits.drop_last(), symbols)
            + spec_digit_text(digits.last(), symbols));
    }
}

/// Renders a signed number: the minus sign before the magnitude.
pub fn format_signed_number(value: i64, min_digits: usize, symbols: Option<&DecimalSymbols>) -> (r:
    String)
    requires
        value > i64::MIN,
        symbols matches Some(sy) ==> sy@.digits.len() == 10,
    ensures
        r@ == spec_signed_number_text(
            value as int,
            min_digits as int,
            match symbols {
                Some(sy) => Some(sy@),
                None => None,
            },
        ),
{
    if value < 0 {
        let mut out = match symbols {
            Some(sy) => sy.minus_sign.clone(),
            None => {
                proof {
                    reveal_strlit("-");
                }
                String::from_str("-")
            },
        };
        let magnitude = format_number((-value) as u64, min_digits, symbols);
        out.append(magnitude.as_str());
        out
    } else {
        format_number(value as u64, min_digits, symbols)
    }
}

} // verus!
