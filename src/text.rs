use vstd::prelude::*;
use vstd::string::*;

verus! {

/// The characters that `char::is_whitespace` accepts (Unicode White_Space).
pub open spec fn is_white_space(c: char) -> bool {
    let u = c as u32;
    (0x9 <= u && u <= 0xd) || u == 0x20 || u == 0x85 || u == 0xa0 || u == 0x1680 || (0x2000 <= u
        && u <= 0x200a) || u == 0x2028 || u == 0x2029 || u == 0x202f || u == 0x205f || u == 0x3000
}

/// The text with every trailing white-space character removed.
pub open spec fn trim_end(s: Seq<char>) -> Seq<char>
    decreases s.len(),
{
    if s.len() > 0 && is_white_space(s.last()) {
        trim_end(s.drop_last())
    } else {
        s
    }
}

pub open spec fn is_digit(c: char) -> bool {
    '0' as u32 <= c as u32 && c as u32 <= '9' as u32
}

pub open spec fn digit_value(c: char) -> int {
    c as u32 - '0' as u32
}

pub open spec fn all_digits(s: Seq<char>) -> bool {
    forall|i: int| 0 <= i < s.len() ==> is_digit(#[trigger] s[i])
}

/// The value of a string of decimal digits, most significant first.
pub open spec fn digits_value(s: Seq<char>) -> int
    decreases s.len(),
{
    if s.len() == 0 {
        0
    } else {
        digits_value(s.drop_last()) * 10 + digit_value(s.last())
    }
}

pub open spec fn has_sign(s: Seq<char>) -> bool {
    s.len() > 0 && (s[0] == '+' || s[0] == '-')
}

/// The digits of an integer text, after its optional sign.
pub open spec fn magnitude_part(s: Seq<char>) -> Seq<char> {
    if has_sign(s) {
        s.drop_first()
    } else {
        s
    }
}

/// An optional `+` or `-` followed by at least one decimal digit.
pub open spec fn is_int_text(s: Seq<char>) -> bool {
    magnitude_part(s).len() > 0 && all_digits(magnitude_part(s))
}

pub open spec fn int_text_value(s: Seq<char>) -> int {
    if s.len() > 0 && s[0] == '-' {
        -digits_value(magnitude_part(s))
    } else {
        digits_value(magnitude_part(s))
    }
}

/// Integer text whose value fits in an `i64`.
pub open spec fn is_i64_text(s: Seq<char>) -> bool {
    is_int_text(s) && i64::MIN <= int_text_value(s) <= i64::MAX
}

fn is_white_space_char(c: char) -> (r: bool)
    ensures
        r == is_white_space(c),
{
    let u = c as u32;
    (0x9 <= u && u <= 0xd) || u == 0x20 || u == 0x85 || u == 0xa0 || u == 0x1680 || (0x2000 <= u
        && u <= 0x200a) || u == 0x2028 || u == 0x2029 || u == 0x202f || u == 0x205f || u == 0x3000
}

/// The number of characters left once trailing white space is removed.
pub fn trimmed_len(s: &str) -> (n: usize)
    ensures
        n <= s@.len(),
        trim_end(s@) == s@.subrange(0, n as int),
{
    let mut n = s.unicode_len();
    proof {
        assert(s@.subrange(0, n as int) =~= s@);
    }
    while n > 0 && is_white_space_char(s.get_char(n - 1))
        invariant
            n <= s@.len(),
            trim_end(s@) == trim_end(s@.subrange(0, n as int)),
        decreases n,
    {
        proof {
            assert(s@.subrange(0, n as int).drop_last() =~= s@.subrange(0, n - 1));
        }
        n = n - 1;
    }
    n
}

/// Parses integer text (an optional sign, then decimal digits) into an `i64`.
pub fn parse_i64(s: &str) -> (r: Option<i64>)
    ensures
        r is Some <==> is_i64_text(s@),
        r is Some ==> r->0 == int_text_value(s@),
{
    let len = s.unicode_len();
    let mut start: usize = 0;
    let mut negative = false;
    if len > 0 {
        let c = s.get_char(0);
        if c == '+' || c == '-' {
            start = 1;
            negative = c == '-';
        }
    }
    let ghost m = magnitude_part(s@);
    proof {
        assert(m =~= s@.subrange(start as int, len as int));
    }
    if start == len {
        return None;
    }
    let limit: u128 = 0x8000_0000_0000_0000;
    let mut acc: u128 = 0;
    let mut too_big = false;
    let mut i: usize = start;
    while i < len
        invariant
            start <= i <= len,
            len == s@.len(),
            m == s@.subrange(start as int, len as int),
            m == magnitude_part(s@),
            negative <==> (s@.len() > 0 && s@[0] == '-'),
            all_digits(s@.subrange(start as int, i as int)),
            too_big ==> digits_value(s@.subrange(start as int, i as int)) > limit,
            !too_big ==> acc == digits_value(s@.subrange(start as int, i as int)),
            !too_big ==> acc <= limit,
            limit == 0x8000_0000_0000_0000u128,
        decreases len - i,
    {
        let c = s.get_char(i);
        let ghost prev = s@.subrange(start as int, i as int);
        let ghost next = s@.subrange(start as int, i + 1);
        proof {
            assert(next.drop_last() =~= prev);
            assert(next.last() == c);
        }
        if !('0' <= c && c <= '9') {
            proof {
                assert(!is_digit(c));
                assert(m[i - start] == s@[i as int]);
                assert(!all_digits(m));
            }
            return None;
        }
        let d = (c as u32 - '0' as u32) as u128;
        if !too_big {
            acc = acc * 10 + d;
            if acc > limit {
                too_big = true;
            }
        } else {
            proof {
                let v = digits_value(prev);
                assert(v * 10 + digit_value(c) > limit) by (nonlinear_arith)
                    requires
                        v > limit,
                        digit_value(c) >= 0,
                        limit > 0,
                ;
            }
        }
        proof {
            assert forall|j: int| 0 <= j < next.len() implies is_digit(#[trigger] next[j]) by {
                if j < prev.len() {
                    assert(next[j] == prev[j]);
                }
            }
        }
        i = i + 1;
    }
    proof {
        assert(s@.subrange(start as int, i as int) == m);
    }
    if too_big {
        return None;
    }
    if negative {
        if acc == limit {
            Some(i64::MIN)
        } else {
            Some(-(acc as i64))
        }
    } else if acc > 0x7fff_ffff_ffff_ffff {
        None
    } else {
        Some(acc as i64)
    }
}

/// The decimal digit character for `d` (`0 <= d < 10`).
pub open spec fn digit_char(d: int) -> char {
    ((48 + d) as u8) as char
}

/// The decimal text of a natural number, without leading zeros.
pub open spec fn nat_text(n: nat) -> Seq<char>
    decreases n,
{
    if n < 10 {
        seq![digit_char(n as int)]
    } else {
        nat_text(n / 10) + seq![digit_char((n % 10) as int)]
    }
}

/// The decimal text of an integer, with a `-` before a negative one.
pub open spec fn int_text(n: int) -> Seq<char> {
    if n < 0 {
        seq!['-'] + nat_text((-n) as nat)
    } else {
        nat_text(n as nat)
    }
}

pub proof fn lemma_digit_char(d: int)
    requires
        0 <= d < 10,
    ensures
        is_digit(digit_char(d)),
        digit_value(digit_char(d)) == d,
{
    if d == 0 {
    } else if d == 1 {
    } else if d == 2 {
    } else if d == 3 {
    } else if d == 4 {
    } else if d == 5 {
    } else if d == 6 {
    } else if d == 7 {
    } else if d == 8 {
    } else {
        assert(d == 9);
    }
}

pub proof fn lemma_nat_text_digits(n: nat)
    ensures
        nat_text(n).len() > 0,
        all_digits(nat_text(n)),
        digits_value(nat_text(n)) == n,
    decreases n,
{
    let t = nat_text(n);
    lemma_digit_char((n % 10) as int);
    if n >= 10 {
        lemma_nat_text_digits(n / 10);
        assert(t.drop_last() =~= nat_text(n / 10));
        assert(t.last() == digit_char((n % 10) as int));
        assert((n / 10) * 10 + n % 10 == n) by (nonlinear_arith);
        assert(digits_value(t) == digits_value(t.drop_last()) * 10 + digit_value(t.last()));
        assert forall|i: int| 0 <= i < t.len() implies is_digit(#[trigger] t[i]) by {
            if i < t.len() - 1 {
                assert(t[i] == nat_text(n / 10)[i]);
            }
        }
    } else {
        assert(t.drop_last() =~= Seq::<char>::empty());
        assert(digits_value(t) == digits_value(t.drop_last()) * 10 + digit_value(t.last()));
    }
}

/// The integer text of every `i64` reads back as that value.
pub proof fn lemma_int_text_round_trip(n: i64)
    ensures
        is_i64_text(int_text(n as int)),
        int_text_value(int_text(n as int)) == n,
{
    let t = int_text(n as int);
    if n < 0 {
        let m = (-n) as nat;
        lemma_nat_text_digits(m);
        assert(magnitude_part(t) =~= nat_text(m));
    } else {
        lemma_nat_text_digits(n as nat);
        assert(is_digit(t[0]));
        assert(magnitude_part(t) == t);
    }
}

/// Text followed by trailing white space trims back to itself when it ends in a digit.
pub proof fn lemma_trim_end_digit_newline(t: Seq<char>)
    requires
        t.len() > 0,
        is_digit(t.last()),
    ensures
        trim_end(t + seq!['\n']) == t,
{
    let s = t + seq!['\n'];
    assert(s.drop_last() =~= t);
    assert(!is_white_space(t.last()));
    assert(trim_end(t) == t);
    assert(is_white_space(s.last()));
}

/// A one-character string holding the digit `d`.
pub fn digit_str(d: u64) -> (r: &'static str)
    requires
        d < 10,
    ensures
        r@ == seq![digit_char(d as int)],
{
    proof {
        reveal_strlit("0");
        reveal_strlit("1");
        reveal_strlit("2");
        reveal_strlit("3");
        reveal_strlit("4");
        reveal_strlit("5");
        reveal_strlit("6");
        reveal_strlit("7");
        reveal_strlit("8");
        reveal_strlit("9");
    }
    let r = if d == 0 {
        "0"
    } else if d == 1 {
        "1"
    } else if d == 2 {
        "2"
    } else if d == 3 {
        "3"
    } else if d == 4 {
        "4"
    } else if d == 5 {
        "5"
    } else if d == 6 {
        "6"
    } else if d == 7 {
        "7"
    } else if d == 8 {
        "8"
    } else {
        "9"
    };
    proof {
        assert(r@ =~= seq![digit_char(d as int)]);
    }
    r
}

/// The decimal text of `n`.
pub fn nat_to_text(n: u64) -> (r: String)
    ensures
        r@ == nat_text(n as nat),
{
    let mut rest = n;
    let mut tail = String::new();
    while rest >= 10
        invariant
            nat_text(n as nat) == nat_text(rest as nat) + tail@,
        decreases rest,
    {
        let digit = String::from_str(digit_str(rest % 10));
        let ghost old_tail = tail@;
        tail = digit.concat(tail.as_str());
        proof {
            assert(nat_text(rest as nat) == nat_text((rest / 10) as nat) + seq![digit_char(
                (rest % 10) as int,
            )]);
            assert(nat_text(rest as nat) + old_tail =~= nat_text((rest / 10) as nat) + tail@);
        }
        rest = rest / 10;
    }
    let r = String::from_str(digit_str(rest)).concat(tail.as_str());
    proof {
        assert(r@ =~= nat_text(n as nat));
    }
    r
}

} // verus!
