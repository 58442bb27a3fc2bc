//! The mode dispatcher: the first command-line token selects a mode, the
//! residual tokens are validated and parsed into the types the chosen
//! exports require, and the numeric results are formatted for display.

use crate::num::{
    dec_seq, i32_numeral_val, is_i32_numeral, is_u32_numeral, parse_i32, parse_u32, push_i32_dec,
    push_u64_dec, signed_dec_seq, str_eq, u32_numeral_val,
};
use vstd::prelude::*;
use vstd::string::*;

verus! {

/// One invocation the chosen mode asks for.
#[derive(Clone, Copy, PartialEq, Eq, Structural, Debug)]
pub enum Call {
    Render,
    Add(i32, i32),
    Fib(u32),
}

/// The mode a malformed argument belongs to.
#[derive(Clone, Copy, PartialEq, Eq, Structural, Debug)]
pub enum ArgMode {
    AddMode,
    FibMode,
}

/// A command-line failure, reported before any invocation is attempted.
#[derive(Debug)]
pub enum CliError {
    /// The mode token matches no known mode.
    UnknownMode(String),
    /// A required argument is missing; `position` is the 1-based place of
    /// the first missing parameter.
    UsageError { mode: ArgMode, position: u32 },
    /// An argument does not parse as the required integer type; `position`
    /// is its 1-based place.
    ArgumentParseError { mode: ArgMode, position: u32 },
}

/// The fixed plan of the default mode: render, then `add(20, 22)`, then
/// `fib(10)`.
pub open spec fn default_plan() -> Seq<Call> {
    seq![Call::Render, Call::Add(20, 22), Call::Fib(10)]
}

/// The token names the run-everything mode.
pub open spec fn is_all_mode(m: Seq<char>) -> bool {
    m == "all"@ || m == "run"@
}

/// The token names some known mode.
pub open spec fn is_known_mode(m: Seq<char>) -> bool {
    m == "mandelbrot"@ || m == "add"@ || m == "fib"@ || is_all_mode(m)
}

/// The five mode tokens are pairwise distinct strings.
proof fn lemma_mode_literals_distinct()
    ensures
        "all"@ != "run"@,
        "all"@ != "mandelbrot"@,
        "all"@ != "add"@,
        "all"@ != "fib"@,
        "run"@ != "mandelbrot"@,
        "run"@ != "add"@,
        "run"@ != "fib"@,
        "mandelbrot"@ != "add"@,
        "mandelbrot"@ != "fib"@,
        "add"@ != "fib"@,
{
    reveal_strlit("all");
    reveal_strlit("run");
    reveal_strlit("mandelbrot");
    reveal_strlit("add");
    reveal_strlit("fib");
    assert("all"@[0] == 'a' && "run"@[0] == 'r' && "mandelbrot"@[0] == 'm' && "add"@[0] == 'a'
        && "fib"@[0] == 'f');
    assert("all"@[1] == 'l' && "add"@[1] == 'd');
    assert("all"@.len() == 3 && "mandelbrot"@.len() == 10);
}

/// Parses the mode token and residual arguments into the calls to make.
///
/// `tokens` are the process arguments after the program name.  An absent
/// mode token defaults to the run-everything plan.  `add` needs two more
/// tokens, each a signed 32-bit numeral; `fib` one more, an unsigned
/// 32-bit numeral; a missing token is a usage error carrying the place of
/// the first missing parameter, an unparseable one an argument-parse error
/// carrying its place, and surplus tokens are ignored.  An unrecognized
/// mode token fails at once, naming the token.
pub fn plan(tokens: &Vec<String>) -> (r: Result<Vec<Call>, CliError>)
    ensures
        tokens@.len() == 0 ==> (r matches Ok(p) && p@ == default_plan()),
        tokens@.len() > 0 && is_all_mode(tokens@[0]@) ==> (r matches Ok(p) && p@
            == default_plan()),
        tokens@.len() > 0 && tokens@[0]@ == "mandelbrot"@ ==> (r matches Ok(p) && p@ == seq![
            Call::Render,
        ]),
        tokens@.len() > 0 && tokens@[0]@ == "add"@ ==> (match r {
            Ok(p) => tokens@.len() >= 3 && is_i32_numeral(tokens@[1]@) && is_i32_numeral(
                tokens@[2]@,
            ) && p@ == seq![
                Call::Add(
                    i32_numeral_val(tokens@[1]@) as i32,
                    i32_numeral_val(tokens@[2]@) as i32,
                ),
            ],
            Err(e) => (e matches CliError::UsageError { mode: ArgMode::AddMode, position }
                && tokens@.len() < 3 && position == tokens@.len()) || (e
                matches CliError::ArgumentParseError { mode: ArgMode::AddMode, position }
                && tokens@.len() >= 3 && (position == 1 && !is_i32_numeral(tokens@[1]@) || position
                == 2 && is_i32_numeral(tokens@[1]@) && !is_i32_numeral(tokens@[2]@))),
        }),
        tokens@.len() > 0 && tokens@[0]@ == "fib"@ ==> (match r {
            Ok(p) => tokens@.len() >= 2 && is_u32_numeral(tokens@[1]@) && p@ == seq![
                Call::Fib(u32_numeral_val(tokens@[1]@) as u32),
            ],
            Err(e) => (e matches CliError::UsageError { mode: ArgMode::FibMode, position }
                && tokens@.len() == 1 && position == 1) || (e
                matches CliError::ArgumentParseError { mode: ArgMode::FibMode, position }
                && tokens@.len() >= 2 && position == 1 && !is_u32_numeral(tokens@[1]@)),
        }),
        tokens@.len() > 0 && !is_known_mode(tokens@[0]@) ==> (r matches Err(e) && (e matches
            CliError::UnknownMode(m) && m@ == tokens@[0]@)),
{
    if tokens.len() == 0 {
        let p = vec![Call::Render, Call::Add(20, 22), Call::Fib(10)];
        proof {
            assert(p@ =~= default_plan());
        }
        return Ok(p);
    }
    let mode = &tokens[0];
    proof {
        lemma_mode_literals_distinct();
    }
    if str_eq(mode.as_str(), "all") || str_eq(mode.as_str(), "run") {
        let p = vec![Call::Render, Call::Add(20, 22), Call::Fib(10)];
        proof {
            assert(p@ =~= default_plan());
        }
        return Ok(p);
    }
    if str_eq(mode.as_str(), "mandelbrot") {
        let p = vec![Call::Render];
        proof {
            assert(p@ =~= seq![Call::Render]);
        }
        return Ok(p);
    }
    if str_eq(mode.as_str(), "add") {
        if tokens.len() < 2 {
            return Err(CliError::UsageError { mode: ArgMode::AddMode, position: 1 });
        }
        if tokens.len() < 3 {
            return Err(CliError::UsageError { mode: ArgMode::AddMode, position: 2 });
        }
        let a = match parse_i32(tokens[1].as_str()) {
            Some(v) => v,
            None => {
                return Err(
                    CliError::ArgumentParseError { mode: ArgMode::AddMode, position: 1 },
                );
            },
        };
        let b = match parse_i32(tokens[2].as_str()) {
            Some(v) => v,
            None => {
                return Err(
                    CliError::ArgumentParseError { mode: ArgMode::AddMode, position: 2 },
                );
            },
        };
        let p = vec![Call::Add(a, b)];
        proof {
            assert(p@ =~= seq![Call::Add(a, b)]);
        }
        return Ok(p);
    }
    if str_eq(mode.as_str(), "fib") {
        if tokens.len() < 2 {
            return Err(CliError::UsageError { mode: ArgMode::FibMode, position: 1 });
        }
        let n = match parse_u32(tokens[1].as_str()) {
            Some(v) => v,
            None => {
                return Err(
                    CliError::ArgumentParseError { mode: ArgMode::FibMode, position: 1 },
                );
            },
        };
        let p = vec![Call::Fib(n)];
        proof {
            assert(p@ =~= seq![Call::Fib(n)]);
        }
        return Ok(p);
    }
    Err(CliError::UnknownMode(mode.clone()))
}

/// The result line of an `add` invocation.
pub open spec fn add_line_spec(a: int, b: int, sum: int) -> Seq<char> {
    "add("@ + signed_dec_seq(a) + ", "@ + signed_dec_seq(b) + ") -> "@ + signed_dec_seq(sum)
}

/// Formats `add(a, b) -> sum`.
pub fn add_line(a: i32, b: i32, sum: i32) -> (r: String)
    ensures
        r@ == add_line_spec(a as int, b as int, sum as int),
{
    let mut out = String::from_str("add(");
    push_i32_dec(&mut out, a);
    out.append(", ");
    push_i32_dec(&mut out, b);
    out.append(") -> ");
    push_i32_dec(&mut out, sum);
    proof {
        assert(out@ =~= add_line_spec(a as int, b as int, sum as int));
    }
    out
}

/// The result line of a `fib` invocation.
pub open spec fn fib_line_spec(n: nat, v: nat) -> Seq<char> {
    "fib("@ + dec_seq(n) + ") -> "@ + dec_seq(v)
}

/// Formats `fib(n) -> v`.
pub fn fib_line(n: u32, v: u64) -> (r: String)
    ensures
        r@ == fib_line_spec(n as nat, v as nat),
{
    let mut out = String::from_str("fib(");
    push_u64_dec(&mut out, n as u64);
    out.append(") -> ");
    push_u64_dec(&mut out, v);
    proof {
        assert(out@ =~= fib_line_spec(n as nat, v as nat));
    }
    out
}

/// The name of the parameter an error points at.
pub open spec fn param_name_spec(mode: ArgMode, position: u32) -> Seq<char> {
    match mode {
        ArgMode::AddMode => if position == 1 {
            "<a>"@
        } else {
            "<b>"@
        },
        ArgMode::FibMode => "<n>"@,
    }
}

/// The usage line of the mode.
pub open spec fn usage_spec(mode: ArgMode) -> Seq<char> {
    match mode {
        ArgMode::AddMode => "usage: plug add <a> <b>"@,
        ArgMode::FibMode => "usage: plug fib <n>"@,
    }
}

/// The diagnostic text of a command-line failure.
pub open spec fn message_spec(e: CliError) -> Seq<char> {
    match e {
        CliError::UnknownMode(m) => "unknown mode '"@ + m@
            + "'. Use one of: mandelbrot | add <a> <b> | fib <n> | all"@,
        CliError::UsageError { mode, position } => usage_spec(mode) + ": missing "@
            + param_name_spec(mode, position),
        CliError::ArgumentParseError { mode, position } => "invalid integer for "@
            + param_name_spec(mode, position),
    }
}

fn param_name(mode: ArgMode, position: u32) -> (r: &'static str)
    ensures
        r@ == param_name_spec(mode, position),
{
    match mode {
        ArgMode::AddMode => if position == 1 {
            "<a>"
        } else {
            "<b>"
        },
        ArgMode::FibMode => "<n>",
    }
}

impl CliError {
    /// The diagnostic this failure prints on the error stream.
    pub fn message(&self) -> (r: String)
        ensures
            r@ == message_spec(*self),
    {
        match self {
            CliError::UnknownMode(m) => {
                let mut out = String::from_str("unknown mode '");
                out.append(m.as_str());
                out.append("'. Use one of: mandelbrot | add <a> <b> | fib <n> | all");
                proof {
                    assert(out@ =~= message_spec(*self));
                }
                out
            },
            CliError::UsageError { mode, position } => {
                let mut out = match mode {
                    ArgMode::AddMode => String::from_str("usage: plug add <a> <b>"),
                    ArgMode::FibMode => String::from_str("usage: plug fib <n>"),
                };
                out.append(": missing ");
                out.append(param_name(*mode, *position));
                proof {
                    assert(out@ =~= message_spec(*self));
                }
                out
            },
            CliError::ArgumentParseError { mode, position } => {
                let mut out = String::from_str("invalid integer for ");
                out.append(param_name(*mode, *position));
                proof {
                    assert(out@ =~= message_spec(*self));
                }
                out
            },
        }
    }
}

} // verus!
