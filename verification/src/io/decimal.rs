//! The notation of real numbers.
//!
//! A document writes a real number as a numeral: an optional sign, then
//! digits with an optional point among them and an optional exponent, or one
//! of the words for infinity and for what is no number. This module tells
//! numerals from other texts, and says how a numeral stands to zero, by its
//! notation alone.

use crate::io::input::same_text;
use vstd::prelude::*;

verus! {

/// How a numeral stands to zero.
#[derive(Clone, Copy, Debug, PartialEq, Eq, Structural)]
pub enum NumberClass {
    Negative,
    /// Every digit before the exponent is zero.
    Zero,
    Positive,
    /// The numeral is a word for what is no number, and has no order.
    NotANumber,
}

pub open spec fn is_digit(c: char) -> bool {
    '0' <= c && c <= '9'
}

pub open spec fn is_sign(c: char) -> bool {
    c == '+' || c == '-'
}

pub open spec fn is_exponent_mark(c: char) -> bool {
    c == 'e' || c == 'E'
}

/// The end of the run of digits that begins at `from`.
pub open spec fn digits_end(text: Seq<char>, from: int) -> int
    decreases text.len() - from,
{
    if 0 <= from < text.len() && is_digit(text[from]) {
        digits_end(text, from + 1)
    } else {
        from
    }
}

/// Whether a digit other than zero stands in a stretch of a text.
pub open spec fn has_nonzero_digit(text: Seq<char>, from: int, to: int) -> bool {
    exists|k: int| from <= k < to && is_digit(#[trigger] text[k]) && text[k] != '0'
}

/// Whether a text spells a word, each letter in lower or in upper case.
pub open spec fn spells(text: Seq<char>, lower: Seq<char>, upper: Seq<char>) -> bool {
    &&& text.len() == lower.len()
    &&& forall|k: int| 0 <= k < text.len() ==> #[trigger] text[k] == lower[k] || text[k] == upper[k]
}

/// Whether a text without its sign is a word for infinity.
pub open spec fn is_infinity(body: Seq<char>) -> bool {
    ||| spells(body, "inf"@, "INF"@)
    ||| spells(body, "infinity"@, "INFINITY"@)
    ||| body == ".inf"@
    ||| body == ".Inf"@
    ||| body == ".INF"@
}

/// Whether a text is a word for what is no number; `signed` says whether a
/// sign was taken off it.
pub open spec fn is_not_a_number(body: Seq<char>, signed: bool) -> bool {
    spells(body, "nan"@, "NAN"@) || (!signed && (body == ".nan"@ || body == ".NAN"@))
}

/// The end of the mantissa of a text that begins with one: the digits
/// before the point, the point if there is one, and the digits after it.
pub open spec fn mantissa_end(body: Seq<char>) -> int {
    let whole = digits_end(body, 0);
    if whole < body.len() && body[whole] == '.' {
        digits_end(body, whole + 1)
    } else {
        whole
    }
}

/// The number of digits in the mantissa.
pub open spec fn mantissa_digits(body: Seq<char>) -> int {
    let whole = digits_end(body, 0);
    if whole < body.len() && body[whole] == '.' {
        mantissa_end(body) - 1
    } else {
        whole
    }
}

/// Where the digits of the exponent begin, for an exponent mark at `mark`:
/// behind the mark and the sign, if there is one.
pub open spec fn exponent_start(body: Seq<char>, mark: int) -> int {
    if mark + 1 < body.len() && is_sign(body[mark + 1]) {
        mark + 2
    } else {
        mark + 1
    }
}

/// Whether a text without its sign is a number in digits: a mantissa with
/// at least one digit, and then nothing, or an exponent mark, an optional
/// sign and at least one digit.
pub open spec fn is_digits_numeral(body: Seq<char>) -> bool {
    let end = mantissa_end(body);
    if mantissa_digits(body) == 0 {
        false
    } else if end == body.len() {
        true
    } else if is_exponent_mark(body[end]) {
        let start = exponent_start(body, end);
        digits_end(body, start) > start && digits_end(body, start) == body.len()
    } else {
        false
    }
}

/// Whether a sign stands at the head of a text.
pub open spec fn is_signed(text: Seq<char>) -> bool {
    text.len() > 0 && is_sign(text[0])
}

/// A text without the sign at its head.
pub open spec fn unsigned_part(text: Seq<char>) -> Seq<char> {
    if is_signed(text) {
        text.subrange(1, text.len() as int)
    } else {
        text
    }
}

/// How a numeral stands to zero; nothing for a text that is no numeral.
pub open spec fn numeral_class(text: Seq<char>) -> Option<NumberClass> {
    let negative = text.len() > 0 && text[0] == '-';
    let body = unsigned_part(text);
    if is_infinity(body) {
        Some(
            if negative {
                NumberClass::Negative
            } else {
                NumberClass::Positive
            },
        )
    } else if is_not_a_number(body, is_signed(text)) {
        Some(NumberClass::NotANumber)
    } else if is_digits_numeral(body) {
        Some(
            if !has_nonzero_digit(body, 0, mantissa_end(body)) {
                NumberClass::Zero
            } else if negative {
                NumberClass::Negative
            } else {
                NumberClass::Positive
            },
        )
    } else {
        None
    }
}

/// Whether a text is a numeral.
pub open spec fn is_numeral(text: Seq<char>) -> bool {
    numeral_class(text) is Some
}

/// A run of digits ends behind its last digit, and holds digits only.
pub proof fn lemma_digits_end(text: Seq<char>, from: int)
    requires
        0 <= from <= text.len(),
    ensures
        from <= digits_end(text, from) <= text.len(),
        forall|k: int| from <= k < digits_end(text, from) ==> is_digit(#[trigger] text[k]),
        digits_end(text, from) < text.len() ==> !is_digit(text[digits_end(text, from)]),
    decreases text.len() - from,
{
    if from < text.len() && is_digit(text[from]) {
        lemma_digits_end(text, from + 1);
    }
}

/// Whether a character is a digit.
fn digit(c: char) -> (r: bool)
    ensures
        r == is_digit(c),
{
    '0' <= c && c <= '9'
}

/// Runs over the digits from `from` on. Gives the place behind the last of
/// them, and whether one of them is not zero.
fn scan_digits(text: &str, from: usize, length: usize) -> (r: (usize, bool))
    requires
        from <= length,
        length == text@.len(),
    ensures
        r.0 == digits_end(text@, from as int),
        from <= r.0 <= length,
        r.1 == has_nonzero_digit(text@, from as int, r.0 as int),
{
    let mut end = from;
    let mut nonzero = false;
    while end < length && digit(text.get_char(end))
        invariant
            from <= end <= length,
            length == text@.len(),
            digits_end(text@, from as int) == digits_end(text@, end as int),
            nonzero == has_nonzero_digit(text@, from as int, end as int),
        decreases length - end,
    {
        let ghost before = end as int;
        if text.get_char(end) != '0' {
            nonzero = true;
        }
        end += 1;
        proof {
            if has_nonzero_digit(text@, from as int, before) {
                let k = choose|k: int|
                    from <= k < before && is_digit(#[trigger] text@[k]) && text@[k] != '0';
                assert(is_digit(text@[k]) && text@[k] != '0');
            }
            if has_nonzero_digit(text@, from as int, end as int) && text@[before] == '0' {
                let k = choose|k: int|
                    from <= k < end && is_digit(#[trigger] text@[k]) && text@[k] != '0';
                assert(k < before);
            }
            assert(text@[before] != '0' ==> is_digit(text@[before]) && text@[before] != '0');
        }
    }
    (end, nonzero)
}

/// Whether a text spells a word, each letter in lower or in upper case.
fn spells_word(text: &str, lower: &str, upper: &str) -> (r: bool)
    requires
        lower@.len() == upper@.len(),
    ensures
        r == spells(text@, lower@, upper@),
{
    let length = text.unicode_len();
    if length != lower.unicode_len() {
        return false;
    }
    let mut k: usize = 0;
    while k < length
        invariant
            k <= length,
            length == text@.len(),
            length == lower@.len(),
            length == upper@.len(),
            forall|j: int| 0 <= j < k ==> #[trigger] text@[j] == lower@[j] || text@[j] == upper@[j],
        decreases length - k,
    {
        let c = text.get_char(k);
        if c != lower.get_char(k) && c != upper.get_char(k) {
            assert(!(text@[k as int] == lower@[k as int] || text@[k as int] == upper@[k as int]));
            return false;
        }
        k += 1;
    }
    true
}

/// Whether a text without its sign is a word for infinity.
fn infinity(body: &str) -> (r: bool)
    ensures
        r == is_infinity(body@),
{
    proof {
        reveal_strlit("inf");
        reveal_strlit("INF");
        reveal_strlit("infinity");
        reveal_strlit("INFINITY");
    }
    spells_word(body, "inf", "INF") || spells_word(body, "infinity", "INFINITY") || same_text(
        body,
        ".inf",
    ) || same_text(body, ".Inf") || same_text(body, ".INF")
}

/// Whether a text is a word for what is no number.
fn not_a_number(body: &str, signed: bool) -> (r: bool)
    ensures
        r == is_not_a_number(body@, signed),
{
    proof {
        reveal_strlit("nan");
        reveal_strlit("NAN");
    }
    spells_word(body, "nan", "NAN") || (!signed && (same_text(body, ".nan") || same_text(
        body,
        ".NAN",
    )))
}

/// Whether a text without its sign is a number in digits, and whether a
/// digit of its mantissa is not zero.
fn digits_numeral(body: &str) -> (r: (bool, bool))
    ensures
        r.0 == is_digits_numeral(body@),
        r.1 == has_nonzero_digit(body@, 0, mantissa_end(body@)),
{
    let length = body.unicode_len();
    let (whole, whole_nonzero) = scan_digits(body, 0, length);
    let pointed = whole < length && body.get_char(whole) == '.';
    let (end, fraction_nonzero) = if pointed {
        scan_digits(body, whole + 1, length)
    } else {
        (whole, false)
    };
    let nonzero = whole_nonzero || fraction_nonzero;
    proof {
        let text = body@;
        if has_nonzero_digit(text, 0, end as int) {
            let k = choose|k: int| 0 <= k < end && is_digit(#[trigger] text[k]) && text[k] != '0';
            if k < whole {
                assert(is_digit(text[k]) && text[k] != '0');
            } else {
                assert(pointed && k != whole);
                assert(whole + 1 <= k < end && is_digit(text[k]) && text[k] != '0');
            }
            assert(nonzero);
        }
        if whole_nonzero {
            let k = choose|k: int|
                0 <= k < whole && is_digit(#[trigger] text[k]) && text[k] != '0';
            assert(0 <= k < end && is_digit(text[k]) && text[k] != '0');
        }
        if fraction_nonzero {
            let k = choose|k: int|
                whole + 1 <= k < end && is_digit(#[trigger] text[k]) && text[k] != '0';
            assert(0 <= k < end && is_digit(text[k]) && text[k] != '0');
        }
    }
    let digits = if pointed {
        end - 1
    } else {
        end
    };
    if digits == 0 {
        return (false, nonzero);
    }
    if end == length {
        return (true, nonzero);
    }
    let mark = body.get_char(end);
    if mark != 'e' && mark != 'E' {
        return (false, nonzero);
    }
    let start = if end + 1 < length && (body.get_char(end + 1) == '+' || body.get_char(end + 1)
        == '-') {
        end + 2
    } else {
        end + 1
    };
    let (last, _) = scan_digits(body, start, length);
    (last > start && last == length, nonzero)
}

/// Says how a numeral stands to zero, and gives nothing for a text that is
/// no numeral.
pub fn classify(text: &str) -> (r: Option<NumberClass>)
    ensures
        r == numeral_class(text@),
{
    let length = text.unicode_len();
    let signed = length > 0 && (text.get_char(0) == '+' || text.get_char(0) == '-');
    let negative = length > 0 && text.get_char(0) == '-';
    let body = if signed {
        text.substring_char(1, length)
    } else {
        text
    };
    if infinity(body) {
        if negative {
            Some(NumberClass::Negative)
        } else {
            Some(NumberClass::Positive)
        }
    } else if not_a_number(body, signed) {
        Some(NumberClass::NotANumber)
    } else {
        let (numeral, nonzero) = digits_numeral(body);
        if !numeral {
            None
        } else if !nonzero {
            Some(NumberClass::Zero)
        } else if negative {
            Some(NumberClass::Negative)
        } else {
            Some(NumberClass::Positive)
        }
    }
}

/// Whether a text is made of digits only.
pub open spec fn all_digits(text: Seq<char>) -> bool {
    forall|k: int| 0 <= k < text.len() ==> is_digit(#[trigger] text[k])
}

/// The exponent of a number in digits: its mark, its sign, which is empty
/// or one character, and its digits.
pub struct ExponentParts {
    pub mark: char,
    pub sign: Seq<char>,
    pub digits: Seq<char>,
}

/// The parts that a number in digits is written with: the digits before the
/// point, whether there is a point, the digits after it, and the exponent if
/// there is one.
pub struct NumeralParts {
    pub whole: Seq<char>,
    pub pointed: bool,
    pub fraction: Seq<char>,
    pub exponent: Option<ExponentParts>,
}

/// Whether the parts are those of a number in digits: digits where digits
/// belong, at least one of them in the mantissa and in the exponent, none
/// after a point that is not there, and a mark and a sign that are such.
pub open spec fn parts_make_numeral(parts: NumeralParts) -> bool {
    &&& all_digits(parts.whole)
    &&& all_digits(parts.fraction)
    &&& parts.pointed || parts.fraction.len() == 0
    &&& parts.whole.len() + parts.fraction.len() > 0
    &&& match parts.exponent {
        Some(exponent) => {
            &&& is_exponent_mark(exponent.mark)
            &&& exponent.sign.len() == 0 || (exponent.sign.len() == 1 && is_sign(exponent.sign[0]))
            &&& all_digits(exponent.digits)
            &&& exponent.digits.len() > 0
        },
        None => true,
    }
}

/// The text that the parts make up, one behind the other.
pub open spec fn written(parts: NumeralParts) -> Seq<char> {
    parts.whole + (if parts.pointed {
        seq!['.']
    } else {
        Seq::empty()
    }) + parts.fraction + (match parts.exponent {
        Some(exponent) => seq![exponent.mark] + exponent.sign + exponent.digits,
        None => Seq::empty(),
    })
}

/// The parts of a text that is a number in digits.
pub open spec fn parts_of(body: Seq<char>) -> NumeralParts {
    let whole = digits_end(body, 0);
    let pointed = whole < body.len() && body[whole] == '.';
    let end = mantissa_end(body);
    let start = exponent_start(body, end);
    NumeralParts {
        whole: body.subrange(0, whole),
        pointed,
        fraction: if pointed {
            body.subrange(whole + 1, end)
        } else {
            Seq::empty()
        },
        exponent: if end == body.len() {
            None
        } else {
            Some(
                ExponentParts {
                    mark: body[end],
                    sign: body.subrange(end + 1, start),
                    digits: body.subrange(start, body.len() as int),
                },
            )
        },
    }
}

/// A stretch of digits that ends at the end of the text, or before a
/// character that is no digit, is a run of digits.
pub proof fn lemma_digits_run(text: Seq<char>, from: int, to: int)
    requires
        0 <= from <= to <= text.len(),
        forall|k: int| from <= k < to ==> is_digit(#[trigger] text[k]),
        to == text.len() || !is_digit(text[to]),
    ensures
        digits_end(text, from) == to,
    decreases to - from,
{
    if from < to {
        lemma_digits_run(text, from + 1, to);
    }
}

/// What is written with the parts of a number in digits is a number in
/// digits.
pub proof fn lemma_written_is_numeral(parts: NumeralParts)
    requires
        parts_make_numeral(parts),
    ensures
        is_digits_numeral(written(parts)),
        parts_of(written(parts)) == parts,
{
    let text = written(parts);
    let whole = parts.whole.len() as int;
    let point: Seq<char> = if parts.pointed {
        seq!['.']
    } else {
        Seq::empty()
    };
    let tail: Seq<char> = match parts.exponent {
        Some(exponent) => seq![exponent.mark] + exponent.sign + exponent.digits,
        None => Seq::empty(),
    };
    let end = whole + point.len() + parts.fraction.len();
    assert(text == parts.whole + point + parts.fraction + tail);
    assert(text.len() == end + tail.len());
    assert forall|k: int| 0 <= k < whole implies text[k] == parts.whole[k] by {}
    assert forall|k: int| whole + point.len() <= k < end implies text[k] == parts.fraction[k
        - whole - point.len()] by {}
    assert forall|k: int| end <= k < text.len() implies text[k] == tail[k - end] by {}
    if parts.pointed {
        assert(text[whole] == '.');
    }
    if parts.exponent is Some {
        assert(text[end] == tail[0]);
        assert(is_exponent_mark(text[end]));
    }
    assert(whole == text.len() || !is_digit(text[whole]));
    lemma_digits_run(text, 0, whole);
    if parts.pointed {
        assert(end == text.len() || !is_digit(text[end]));
        lemma_digits_run(text, whole + 1, end);
    }
    assert(mantissa_end(text) == end);
    assert(parts_of(text).whole =~= parts.whole);
    assert(parts_of(text).fraction =~= parts.fraction);
    match parts.exponent {
        Some(exponent) => {
            let start = end + 1 + exponent.sign.len();
            assert forall|k: int| 0 <= k < exponent.sign.len() implies tail[1 + k]
                == exponent.sign[k] by {}
            assert forall|k: int| 0 <= k < exponent.digits.len() implies tail[1
                + exponent.sign.len() + k] == exponent.digits[k] by {}
            assert(text[start] == exponent.digits[0]);
            if exponent.sign.len() == 1 {
                assert(text[end + 1] == exponent.sign[0]);
            } else {
                assert(is_digit(text[end + 1]));
            }
            assert(exponent_start(text, end) == start);
            assert forall|k: int| start <= k < text.len() implies is_digit(#[trigger] text[k]) by {
                assert(text[k] == exponent.digits[k - start]);
            }
            lemma_digits_run(text, start, text.len() as int);
            assert(parts_of(text).exponent.unwrap().sign =~= exponent.sign);
            assert(parts_of(text).exponent.unwrap().digits =~= exponent.digits);
        },
        None => {},
    }
}

/// A number in digits is written with its parts, and they are the parts of
/// a number in digits.
pub proof fn lemma_numeral_is_written(body: Seq<char>)
    requires
        is_digits_numeral(body),
    ensures
        parts_make_numeral(parts_of(body)),
        written(parts_of(body)) == body,
{
    let parts = parts_of(body);
    let whole = digits_end(body, 0);
    let end = mantissa_end(body);
    lemma_digits_end(body, 0);
    if parts.pointed {
        lemma_digits_end(body, whole + 1);
    }
    if end < body.len() {
        let start = exponent_start(body, end);
        lemma_digits_end(body, start);
    }
    assert(written(parts) =~= body);
}

} // verus!
