//! The guest computational library: the pure functions the plugin exports.
//!
//! `add` and `fib` deliberately wrap on overflow (modular arithmetic, no
//! signaled error): that is the exported contract, not an oversight.

use crate::num::{dec_seq, is_u32_numeral, parse_u32, push_char, push_u64_dec, u32_numeral_val};
use vstd::arithmetic::div_mod::{
    lemma_div_is_ordered, lemma_div_multiples_vanish_fancy, lemma_mod_add_multiples_vanish,
    lemma_small_mod,
};
use vstd::prelude::*;
use vstd::string::*;

verus! {

/// The sum `a + b` reduced modulo 2^32 and reinterpreted as a signed
/// 32-bit value.
pub open spec fn wrap_add_i32(a: int, b: int) -> int {
    let m = (a + b) % 0x1_0000_0000;
    if m >= 0x8000_0000 {
        m - 0x1_0000_0000
    } else {
        m
    }
}

/// The wrapped sum agrees with the exact sum whenever that sum fits, and
/// otherwise differs from it by exactly 2^32.
pub proof fn lemma_wrap_add_i32_cases(a: int, b: int)
    requires
        i32::MIN <= a <= i32::MAX,
        i32::MIN <= b <= i32::MAX,
    ensures
        i32::MIN <= a + b <= i32::MAX ==> wrap_add_i32(a, b) == a + b,
        a + b > i32::MAX ==> wrap_add_i32(a, b) == a + b - 0x1_0000_0000,
        a + b < i32::MIN ==> wrap_add_i32(a, b) == a + b + 0x1_0000_0000,
{
    let s = a + b;
    let m = 0x1_0000_0000int;
    if s >= 0 {
        lemma_small_mod(s as nat, m as nat);
    } else {
        lemma_mod_add_multiples_vanish(s, m);
        lemma_small_mod((s + m) as nat, m as nat);
    }
}

/// Wraparound 32-bit signed addition: the exported `add`.  Never faults;
/// on overflow the result wraps modulo 2^32.
pub fn add(a: i32, b: i32) -> (r: i32)
    ensures
        r as int == wrap_add_i32(a as int, b as int),
{
    proof {
        lemma_wrap_add_i32_cases(a as int, b as int);
    }
    a.wrapping_add(b)
}

/// The Fibonacci sequence reduced modulo 2^64: `fib64(0) == 0`,
/// `fib64(1) == 1`, and every later term is the sum of the two before it,
/// taken modulo 2^64.
pub open spec fn fib64(n: nat) -> nat
    decreases n,
{
    if n == 0 {
        0
    } else if n == 1 {
        1
    } else {
        (fib64((n - 1) as nat) + fib64((n - 2) as nat)) % 0x1_0000_0000_0000_0000
    }
}

/// Every value of the modular Fibonacci sequence fits in 64 bits.
pub proof fn lemma_fib64_bounded(n: nat)
    ensures
        fib64(n) <= u64::MAX,
    decreases n,
{
    if n >= 2 {
        lemma_fib64_bounded((n - 1) as nat);
        lemma_fib64_bounded((n - 2) as nat);
    }
}

/// The recurrence itself, stated once in the open: for every `n >= 2`,
/// `fib64(n)` is the sum of its two predecessors modulo 2^64.
pub proof fn lemma_fib64_recurrence(n: nat)
    requires
        n >= 2,
    ensures
        fib64(n) == (fib64((n - 1) as nat) + fib64((n - 2) as nat)) % 0x1_0000_0000_0000_0000,
{
}

proof fn lemma_wrap_add_u64(a: u64, b: u64)
    ensures
        a.wrapping_add(b) == ((a + b) % 0x1_0000_0000_0000_0000) as u64,
{
    let m = 0x1_0000_0000_0000_0000int;
    if a + b > u64::MAX {
        lemma_mod_add_multiples_vanish(a + b - m, m);
        lemma_small_mod((a + b - m) as nat, m as nat);
    } else {
        lemma_small_mod((a + b) as nat, m as nat);
    }
}

/// The n-th Fibonacci number, 0-indexed, computed iteratively; once the
/// true value exceeds the unsigned 64-bit range the result wraps modulo
/// 2^64.  The exported `fib`.
pub fn fib(n: u32) -> (r: u64)
    ensures
        r as nat == fib64(n as nat),
{
    if n == 0 {
        return 0;
    }
    let mut prev: u64 = 0;
    let mut cur: u64 = 1;
    let mut i: u32 = 1;
    while i < n
        invariant
            1 <= i <= n,
            prev as nat == fib64((i - 1) as nat),
            cur as nat == fib64(i as nat),
        decreases n - i,
    {
        proof {
            lemma_wrap_add_u64(prev, cur);
            lemma_fib64_bounded((i + 1) as nat);
        }
        let next = prev.wrapping_add(cur);
        prev = cur;
        cur = next;
        i = i + 1;
    }
    cur
}

/// The ten-level shading ramp, from sparse to dense glyph.
pub open spec fn palette_char(i: int) -> char {
    if i == 0 {
        ' '
    } else if i == 1 {
        '.'
    } else if i == 2 {
        ':'
    } else if i == 3 {
        '-'
    } else if i == 4 {
        '='
    } else if i == 5 {
        '+'
    } else if i == 6 {
        '*'
    } else if i == 7 {
        '#'
    } else if i == 8 {
        '%'
    } else {
        '@'
    }
}

/// The ramp index of a cell: `iter * 9 / max_iter`, saturating to the
/// darkest glyph when the point never escaped.
pub open spec fn shade_index(iter: nat, max_iter: nat) -> nat {
    if iter >= max_iter {
        9
    } else {
        iter * 9 / max_iter
    }
}

/// The ramp index never leaves the ten-glyph palette.
pub proof fn lemma_shade_index_bounded(iter: nat, max_iter: nat)
    ensures
        shade_index(iter, max_iter) <= 9,
{
    if iter < max_iter {
        lemma_div_multiples_vanish_fancy(9, 0, max_iter as int);
        lemma_div_is_ordered(iter as int * 9, max_iter as int * 9, max_iter as int);
        assert(max_iter as int * 9 == 9 * (max_iter as int)) by (nonlinear_arith);
        assert(iter as int * 9 <= max_iter as int * 9) by (nonlinear_arith)
            requires
                iter < max_iter,
        ;
    }
}

/// The shading glyph of one cell.
pub fn shade(iter: u32, max_iter: u32) -> (c: char)
    ensures
        c == palette_char(shade_index(iter as nat, max_iter as nat) as int),
{
    proof {
        lemma_shade_index_bounded(iter as nat, max_iter as nat);
    }
    let ix: u64 = if iter >= max_iter {
        9
    } else {
        (iter as u64) * 9 / (max_iter as u64)
    };
    if ix == 0 {
        ' '
    } else if ix == 1 {
        '.'
    } else if ix == 2 {
        ':'
    } else if ix == 3 {
        '-'
    } else if ix == 4 {
        '='
    } else if ix == 5 {
        '+'
    } else if ix == 6 {
        '*'
    } else if ix == 7 {
        '#'
    } else if ix == 8 {
        '%'
    } else {
        '@'
    }
}

/// One rendered row: the shading glyph of each cell's escape count, in
/// cell order.
pub fn render_row(counts: &Vec<u32>, max_iter: u32) -> (line: String)
    ensures
        line@.len() == counts@.len(),
        forall|j: int|
            0 <= j < counts@.len() ==> line@[j] == palette_char(
                shade_index(counts@[j] as nat, max_iter as nat) as int,
            ),
{
    let mut line = String::new();
    let mut j: usize = 0;
    while j < counts.len()
        invariant
            j <= counts@.len(),
            line@.len() == j,
            forall|k: int|
                0 <= k < j ==> line@[k] == palette_char(
                    shade_index(counts@[k] as nat, max_iter as nat) as int,
                ),
        decreases counts@.len() - j,
    {
        let c = shade(counts[j], max_iter);
        push_char(&mut line, c);
        j = j + 1;
    }
    line
}

/// The rendered rows of a whole escape-count grid, row-major.  Every
/// character of every line is one of the ten ramp glyphs, and each line
/// has exactly as many characters as its row has cells.
pub fn render_rows(counts: &Vec<Vec<u32>>, max_iter: u32) -> (lines: Vec<String>)
    ensures
        lines@.len() == counts@.len(),
        forall|i: int| 0 <= i < counts@.len() ==> lines@[i]@.len() == counts@[i]@.len(),
        forall|i: int, j: int|
            0 <= i < counts@.len() && 0 <= j < counts@[i]@.len() ==> lines@[i]@[j] == palette_char(
                shade_index(counts@[i]@[j] as nat, max_iter as nat) as int,
            ),
{
    let mut lines: Vec<String> = Vec::new();
    let mut i: usize = 0;
    while i < counts.len()
        invariant
            i <= counts@.len(),
            lines@.len() == i,
            forall|k: int| 0 <= k < i ==> lines@[k]@.len() == counts@[k]@.len(),
            forall|k: int, j: int|
                0 <= k < i && 0 <= j < counts@[k]@.len() ==> lines@[k]@[j] == palette_char(
                    shade_index(counts@[k]@[j] as nat, max_iter as nat) as int,
                ),
        decreases counts@.len() - i,
    {
        let line = render_row(&counts[i], max_iter);
        lines.push(line);
        i = i + 1;
    }
    lines
}

/// A rendering parameter read from a named external string variable: the
/// variable's value when it is set and is an unsigned 32-bit numeral, and
/// the documented default otherwise.
pub fn setting_u32(raw: Option<&String>, default: u32) -> (r: u32)
    ensures
        match raw {
            Option::None => r == default,
            Option::Some(s) => if is_u32_numeral(s@) {
                r as nat == u32_numeral_val(s@)
            } else {
                r == default
            },
        },
{
    match raw {
        Option::None => default,
        Option::Some(s) => match parse_u32(s.as_str()) {
            Option::Some(v) => v,
            Option::None => default,
        },
    }
}

/// The banner line the rendering export prints first.
pub open spec fn banner_spec(width: nat, height: nat, iters: nat) -> Seq<char> {
    "WASM plugin: Mandelbrot demo ("@ + dec_seq(width) + "x"@ + dec_seq(height) + ", iters="@
        + dec_seq(iters) + ")"@
}

/// Formats the rendering banner.
pub fn banner_line(width: u32, height: u32, iters: u32) -> (r: String)
    ensures
        r@ == banner_spec(width as nat, height as nat, iters as nat),
{
    let mut out = String::from_str("WASM plugin: Mandelbrot demo (");
    push_u64_dec(&mut out, width as u64);
    out.append("x");
    push_u64_dec(&mut out, height as u64);
    out.append(", iters=");
    push_u64_dec(&mut out, iters as u64);
    out.append(")");
    proof {
        assert(out@ =~= banner_spec(width as nat, height as nat, iters as nat));
    }
    out
}

/// The optional trailing note, printed verbatim after the rendering when
/// its variable is set.
pub open spec fn note_spec(msg: Seq<char>) -> Seq<char> {
    "Note: "@ + msg
}

/// Formats the trailing note line.
pub fn note_line(msg: &str) -> (r: String)
    ensures
        r@ == note_spec(msg@),
{
    let mut out = String::from_str("Note: ");
    out.append(msg);
    proof {
        assert(out@ =~= note_spec(msg@));
    }
    out
}

} // verus!
