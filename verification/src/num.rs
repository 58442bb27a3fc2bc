//! Decimal numerals: verified parsing of the command-line arguments and
//! verified formatting of the result values.
//!
//! Parsing follows the usual integer grammar: an optional sign (`+` for the
//! unsigned form, `+` or `-` for the signed one) followed by one or more
//! decimal digits, with the value required to fit the target type.

use vstd::prelude::*;
use vstd::string::*;

verus! {

/// `c` is a decimal digit.
pub open spec fn is_digit(c: char) -> bool {
    48 <= c as int <= 57
}

/// The numeric value of the digit `c`.
pub open spec fn digit_val(c: char) -> nat {
    (c as int - 48) as nat
}

/// Every character of `s` is a decimal digit.
pub open spec fn all_digits(s: Seq<char>) -> bool {
    forall|i: int| 0 <= i < s.len() ==> is_digit(s[i])
}

/// The value of a digit string read in base ten.
pub open spec fn dec_val(s: Seq<char>) -> nat
    decreases s.len(),
{
    if s.len() == 0 {
        0
    } else {
        dec_val(s.drop_last()) * 10 + digit_val(s.last())
    }
}

proof fn lemma_dec_val_snoc(s: Seq<char>, c: char)
    ensures
        dec_val(s.push(c)) == dec_val(s) * 10 + digit_val(c),
{
    assert(s.push(c).drop_last() =~= s);
    assert(s.push(c).last() == c);
}

/// Base-ten value never shrinks as a digit string grows on the right.
proof fn lemma_dec_val_prefix_le(s: Seq<char>, i: int, j: int)
    requires
        0 <= i <= j <= s.len(),
    ensures
        dec_val(s.subrange(0, i)) <= dec_val(s.subrange(0, j)),
    decreases j - i,
{
    if i < j {
        lemma_dec_val_prefix_le(s, i, j - 1);
        assert(s.subrange(0, j).drop_last() =~= s.subrange(0, j - 1));
        assert(dec_val(s.subrange(0, j - 1)) * 10 >= dec_val(s.subrange(0, j - 1)));
    }
}

/// The digits of `s` after its sign, if any: a leading `+`, and for the
/// signed grammar also a leading `-`, is stripped.
pub open spec fn unsigned_body(s: Seq<char>) -> Seq<char> {
    if s.len() > 0 && s[0] == '+' {
        s.subrange(1, s.len() as int)
    } else {
        s
    }
}

/// `s` is a well-formed unsigned 32-bit numeral: an optional `+`, then one
/// or more digits, with a value at most `u32::MAX`.
pub open spec fn is_u32_numeral(s: Seq<char>) -> bool {
    let d = unsigned_body(s);
    d.len() > 0 && all_digits(d) && dec_val(d) <= u32::MAX
}

/// The value of a well-formed unsigned 32-bit numeral.
pub open spec fn u32_numeral_val(s: Seq<char>) -> nat {
    dec_val(unsigned_body(s))
}

/// Parses the digits of `b` starting at index `from`, accumulating a value
/// that is cut off once it can no longer name a number below `bound`.
fn parse_digits(s: &str, from: usize, bound: u64) -> (r: Option<u64>)
    requires
        from <= s@.len(),
        0 < bound <= 0x1_0000_0000,
    ensures
        ({
            let d = s@.subrange(from as int, s@.len() as int);
            match r {
                Some(v) => d.len() > 0 && all_digits(d) && dec_val(d) == v && v <= bound,
                None => !(d.len() > 0 && all_digits(d) && dec_val(d) <= bound),
            }
        }),
{
    let ghost d = s@.subrange(from as int, s@.len() as int);
    let n = s.unicode_len();
    if from >= n {
        return None;
    }
    let mut acc: u64 = 0;
    let mut i: usize = from;
    while i < n
        invariant
            from <= i <= n,
            n == s@.len(),
            0 < bound <= 0x1_0000_0000,
            d == s@.subrange(from as int, n as int),
            acc == dec_val(d.subrange(0, i - from)),
            acc <= bound,
            all_digits(d.subrange(0, i - from)),
        decreases n - i,
    {
        let c = s.get_char(i);
        let cv = c as u32;
        if cv < 48 || cv > 57 {
            assert(d[i - from] == s@[i as int]);
            assert(!all_digits(d));
            return None;
        }
        let dv = (cv - 48) as u64;
        proof {
            lemma_dec_val_snoc(d.subrange(0, i - from), c);
            assert(d.subrange(0, i - from).push(c) =~= d.subrange(0, i + 1 - from));
        }
        let next = acc * 10 + dv;
        if next > bound {
            proof {
                if all_digits(d) && dec_val(d) <= bound {
                    lemma_dec_val_prefix_le(d, i + 1 - from, d.len() as int);
                    assert(d.subrange(0, d.len() as int) =~= d);
                }
            }
            return None;
        }
        acc = next;
        i = i + 1;
    }
    proof {
        assert(d.subrange(0, i - from) =~= d);
    }
    Some(acc)
}

/// Parses an unsigned 32-bit numeral; `None` exactly on malformed or
/// out-of-range input.
pub fn parse_u32(s: &str) -> (r: Option<u32>)
    ensures
        r is Some <==> is_u32_numeral(s@),
        r is Some ==> r.unwrap() as nat == u32_numeral_val(s@),
{
    let n = s.unicode_len();
    let start: usize = if n > 0 && s.get_char(0) == '+' {
        1
    } else {
        0
    };
    proof {
        assert(unsigned_body(s@) =~= s@.subrange(start as int, s@.len() as int));
    }
    match parse_digits(s, start, 0xFFFF_FFFF) {
        Some(v) => Some(v as u32),
        None => None,
    }
}

/// `s` is a well-formed signed 32-bit numeral: an optional `+` or `-`, then
/// one or more digits, with a value in the signed 32-bit range.
pub open spec fn is_i32_numeral(s: Seq<char>) -> bool {
    let d = signed_body(s);
    d.len() > 0 && all_digits(d) && (if is_negated(s) {
        dec_val(d) <= 0x8000_0000
    } else {
        dec_val(d) <= i32::MAX
    })
}

/// The digits of a signed numeral, after any sign.
pub open spec fn signed_body(s: Seq<char>) -> Seq<char> {
    if s.len() > 0 && (s[0] == '+' || s[0] == '-') {
        s.subrange(1, s.len() as int)
    } else {
        s
    }
}

/// The numeral carries a leading minus sign.
pub open spec fn is_negated(s: Seq<char>) -> bool {
    s.len() > 0 && s[0] == '-'
}

/// The value of a well-formed signed 32-bit numeral.
pub open spec fn i32_numeral_val(s: Seq<char>) -> int {
    if is_negated(s) {
        -(dec_val(signed_body(s)) as int)
    } else {
        dec_val(signed_body(s)) as int
    }
}

/// Parses a signed 32-bit numeral; `None` exactly on malformed or
/// out-of-range input.
pub fn parse_i32(s: &str) -> (r: Option<i32>)
    ensures
        r is Some <==> is_i32_numeral(s@),
        r is Some ==> r.unwrap() as int == i32_numeral_val(s@),
{
    let n = s.unicode_len();
    let mut neg = false;
    let mut start: usize = 0;
    if n > 0 {
        let c0 = s.get_char(0);
        if c0 == '-' {
            neg = true;
            start = 1;
        } else if c0 == '+' {
            start = 1;
        }
    }
    proof {
        assert(signed_body(s@) =~= s@.subrange(start as int, s@.len() as int));
    }
    let bound: u64 = if neg {
        0x8000_0000
    } else {
        0x7FFF_FFFF
    };
    match parse_digits(s, start, bound) {
        Some(v) => {
            if neg {
                Some((-(v as i64)) as i32)
            } else {
                Some(v as i32)
            }
        },
        None => None,
    }
}

/// Character-for-character equality of two string slices.
pub fn str_eq(a: &str, b: &str) -> (r: bool)
    ensures
        r <==> a@ == b@,
{
    let na = a.unicode_len();
    let nb = b.unicode_len();
    if na != nb {
        return false;
    }
    let mut i: usize = 0;
    while i < na
        invariant
            na == a@.len(),
            nb == b@.len(),
            na == nb,
            i <= na,
            forall|j: int| 0 <= j < i ==> a@[j] == b@[j],
        decreases na - i,
    {
        if a.get_char(i) != b.get_char(i) {
            return false;
        }
        i = i + 1;
    }
    proof {
        assert(a@ =~= b@);
    }
    true
}

/// Relies on std's `String::push`: appends exactly the one character.
#[verifier::external_body]
pub fn push_char(out: &mut String, c: char)
    ensures
        final(out)@ == old(out)@ + seq![c],
{
    out.push(c)
}

/// The digit character for a value below ten.
pub open spec fn digit_char(d: nat) -> char {
    ((d + 48) as u8) as char
}

/// The base-ten digit string of `n`, most significant digit first, with no
/// sign and no leading zeros.
pub open spec fn dec_seq(n: nat) -> Seq<char>
    decreases n,
{
    if n < 10 {
        seq![digit_char(n)]
    } else {
        dec_seq(n / 10).push(digit_char(n % 10))
    }
}

/// Appends the base-ten digits of `n`.
pub fn push_u64_dec(out: &mut String, n: u64)
    ensures
        final(out)@ == old(out)@ + dec_seq(n as nat),
    decreases n,
{
    if n >= 10 {
        push_u64_dec(out, n / 10);
    }
    let d = ((n % 10) as u8 + 48) as char;
    push_char(out, d);
    proof {
        if n < 10 {
            assert(old(out)@ + seq![d] =~= old(out)@ + dec_seq(n as nat));
        } else {
            assert((old(out)@ + dec_seq((n / 10) as nat)) + seq![d] =~= old(out)@ + dec_seq(
                n as nat,
            ));
        }
    }
}

/// The decimal rendering of an unsigned 64-bit value.
pub fn u64_to_string(n: u64) -> (r: String)
    ensures
        r@ == dec_seq(n as nat),
{
    let mut out = String::new();
    push_u64_dec(&mut out, n);
    proof {
        assert(Seq::<char>::empty() + dec_seq(n as nat) =~= dec_seq(n as nat));
    }
    out
}

/// The decimal rendering of a signed value: a minus sign for a negative
/// value, then the digits of its magnitude.
pub open spec fn signed_dec_seq(v: int) -> Seq<char> {
    if v < 0 {
        seq!['-'] + dec_seq((-v) as nat)
    } else {
        dec_seq(v as nat)
    }
}

/// The decimal rendering of a signed 32-bit value.
pub fn i32_to_string(v: i32) -> (r: String)
    ensures
        r@ == signed_dec_seq(v as int),
{
    let mut out = String::new();
    push_i32_dec(&mut out, v);
    proof {
        assert(Seq::<char>::empty() + signed_dec_seq(v as int) =~= signed_dec_seq(v as int));
    }
    out
}

/// Appends the decimal rendering of a signed 32-bit value.
pub fn push_i32_dec(out: &mut String, v: i32)
    ensures
        final(out)@ == old(out)@ + signed_dec_seq(v as int),
{
    if v < 0 {
        push_char(out, '-');
        let mag = (-(v as i64)) as u64;
        push_u64_dec(out, mag);
        proof {
            assert((old(out)@ + seq!['-']) + dec_seq(mag as nat) =~= old(out)@ + signed_dec_seq(
                v as int,
            ));
        }
    } else {
        push_u64_dec(out, v as u64);
    }
}

} // verus!
