use vstd::prelude::*;
use vstd::string::*;
use crate::text::{
    digit_char, digit_str, int_text, is_digit, is_i64_text, lemma_int_text_round_trip,
    lemma_nat_text_digits, lemma_trim_end_digit_newline, nat_text, nat_to_text, parse_i64,
    trim_end, int_text_value, trimmed_len,
};

verus! {

/// Why a file-backed value could not be read.
#[derive(Clone, Copy, Debug, PartialEq, Eq, Structural)]
pub enum ReadError {
    /// The file could not be read at all.
    IoFailure,
    /// The content is not a valid number.
    ParseFailure,
    /// The content holds no usable value.
    FormatFailure,
}

/// One temperature reading, in thousandths of a degree Celsius.
#[derive(Clone, Copy, Debug, PartialEq, Eq, Structural)]
pub struct Sample {
    pub millidegrees: i64,
}

/// The text of a file, or `None` when it could not be read.
pub open spec fn content_view(content: Option<&str>) -> Option<Seq<char>> {
    match content {
        Some(s) => Some(s@),
        None => None,
    }
}

/// What reading the sensor gives for the given file content.
pub open spec fn temperature_result(content: Option<Seq<char>>) -> Result<Sample, ReadError> {
    match content {
        None => Err(ReadError::IoFailure),
        Some(t) => if is_i64_text(trim_end(t)) {
            Ok(Sample { millidegrees: int_text_value(trim_end(t)) as i64 })
        } else {
            Err(ReadError::ParseFailure)
        },
    }
}

/// Turns the sensor file's content (`None` if unreadable) into a sample: trailing
/// white space is dropped and the rest must be an integer count of millidegrees.
pub fn read_temperature(content: Option<&str>) -> (r: Result<Sample, ReadError>)
    ensures
        r == temperature_result(content_view(content)),
{
    match content {
        None => Err(ReadError::IoFailure),
        Some(text) => {
            let n = trimmed_len(text);
            let body = text.substring_char(0, n);
            match parse_i64(body) {
                Some(v) => Ok(Sample { millidegrees: v }),
                None => Err(ReadError::ParseFailure),
            }
        },
    }
}

/// Any `i64` written in decimal with a trailing newline reads back as that many millidegrees.
pub proof fn lemma_rendered_reading(n: i64)
    ensures
        temperature_result(Some(int_text(n as int) + seq!['\n'])) == Ok::<Sample, ReadError>(
            Sample { millidegrees: n },
        ),
{
    let t = int_text(n as int);
    lemma_int_text_round_trip(n);
    let m = if n < 0 { (-n) as nat } else { n as nat };
    lemma_nat_text_digits(m);
    let digits = nat_text(m);
    assert(t.last() == digits.last());
    assert(is_digit(digits[digits.len() - 1]));
    lemma_trim_end_digit_newline(t);
}

/// Content that does not trim to integer text is always a parse failure.
pub proof fn lemma_non_integer_is_parse_failure(t: Seq<char>)
    requires
        !is_i64_text(trim_end(t)),
    ensures
        temperature_result(Some(t)) == Err::<Sample, ReadError>(ReadError::ParseFailure),
{
}

pub open spec fn magnitude(m: int) -> int {
    if m < 0 {
        -m
    } else {
        m
    }
}

pub open spec fn sign_text(m: int) -> Seq<char> {
    if m < 0 {
        seq!['-']
    } else {
        Seq::empty()
    }
}

/// The fractional digits of `f` thousandths, trailing zeros dropped, with their point.
pub open spec fn fraction_text(f: int) -> Seq<char> {
    if f == 0 {
        Seq::empty()
    } else if f % 100 == 0 {
        seq!['.', digit_char(f / 100)]
    } else if f % 10 == 0 {
        seq!['.', digit_char(f / 100), digit_char(f / 10 % 10)]
    } else {
        seq!['.', digit_char(f / 100), digit_char(f / 10 % 10), digit_char(f % 10)]
    }
}

/// The exact value of `m` thousandths in decimal, without trailing fractional zeros.
pub open spec fn celsius_text(m: int) -> Seq<char> {
    sign_text(m) + nat_text((magnitude(m) / 1000) as nat) + fraction_text(magnitude(m) % 1000)
}

/// `m` thousandths in hundredths, rounded half away from zero.
pub open spec fn rounded_hundredths(m: int) -> int {
    (magnitude(m) + 5) / 10
}

/// The value of `m` thousandths with exactly two fractional digits.
pub open spec fn two_decimal_text(m: int) -> Seq<char> {
    let h = rounded_hundredths(m);
    sign_text(m) + nat_text((h / 100) as nat) + seq!['.', digit_char(h % 100 / 10), digit_char(h % 10)]
}

fn magnitude_of(m: i64) -> (r: u64)
    ensures
        r == magnitude(m as int),
{
    if m < 0 {
        (-(m as i128)) as u64
    } else {
        m as u64
    }
}

fn sign_of(m: i64) -> (r: String)
    ensures
        r@ == sign_text(m as int),
{
    if m < 0 {
        let r = String::from_str("-");
        proof {
            reveal_strlit("-");
            assert(r@ =~= seq!['-']);
        }
        r
    } else {
        String::new()
    }
}

fn append_point(out: &mut String)
    ensures
        final(out)@ == old(out)@ + seq!['.'],
{
    proof {
        reveal_strlit(".");
    }
    out.append(".");
}

impl Sample {
    /// The reading in degrees Celsius as exact decimal text ("42.567", "42.5", "42").
    pub fn payload_text(&self) -> (r: String)
        ensures
            r@ == celsius_text(self.millidegrees as int),
    {
        let a = magnitude_of(self.millidegrees);
        let whole = nat_to_text(a / 1000);
        let f = a % 1000;
        let mut out = sign_of(self.millidegrees);
        out.append(whole.as_str());
        let ghost head = out@;
        if f != 0 {
            append_point(&mut out);
            out.append(digit_str(f / 100));
            if f % 100 != 0 {
                out.append(digit_str(f / 10 % 10));
                if f % 10 != 0 {
                    out.append(digit_str(f % 10));
                }
            }
        }
        proof {
            assert(out@ =~= head + fraction_text(f as int));
        }
        out
    }

    /// The reading in degrees Celsius with two fractional digits ("42.57").
    pub fn display_text(&self) -> (r: String)
        ensures
            r@ == two_decimal_text(self.millidegrees as int),
    {
        let a = magnitude_of(self.millidegrees);
        let h = (a + 5) / 10;
        let whole = nat_to_text(h / 100);
        let mut out = sign_of(self.millidegrees);
        out.append(whole.as_str());
        append_point(&mut out);
        out.append(digit_str(h % 100 / 10));
        out.append(digit_str(h % 10));
        proof {
            assert(out@ =~= two_decimal_text(self.millidegrees as int));
        }
        out
    }
}

} // verus!
