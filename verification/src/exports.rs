//! The export resolver and typed invoker, over an explicit export table.
//!
//! An instance exposes a name-to-signature mapping.  Resolution asks for an
//! export by name together with the exact parameter and return types the
//! caller expects; it fails with `ExportNotFound` when no export carries the
//! name, and with `SignatureMismatch` when the export exists but its
//! declared types differ in arity or in any position — nothing is ever
//! coerced.

use crate::dispatch::{add_line, add_line_spec, fib_line, fib_line_spec, Call};
use crate::guest;
use crate::num::str_eq;
use vstd::prelude::*;

verus! {

/// A semantic value type an export can take or return.
#[derive(Clone, Copy, PartialEq, Eq, Structural, Debug)]
pub enum Ty {
    I32,
    U32,
    U64,
}

/// The return shape of an export: a value of some type, or nothing.
#[derive(Clone, Copy, PartialEq, Eq, Structural, Debug)]
pub enum RetTy {
    Unit,
    Val(Ty),
}

/// Which guest operation an export table entry is bound to.
#[derive(Clone, Copy, PartialEq, Eq, Structural, Debug)]
pub enum ExportCode {
    AddOp,
    FibOp,
    RenderOp,
}

/// One entry of an instance's export table.
pub struct Export {
    pub name: String,
    pub params: Vec<Ty>,
    pub ret: RetTy,
    pub code: ExportCode,
}

/// A module instance's read-only name-to-export mapping.
pub struct ExportTable {
    pub exports: Vec<Export>,
}

/// A resolved handle, bound to one export and to the exact signature the
/// resolution asked for.
#[derive(Debug)]
pub struct TypedHandle {
    pub code: ExportCode,
    pub params: Vec<Ty>,
    pub ret: RetTy,
}

/// Resolution failures: the requested export is absent, or present with a
/// different signature.
#[derive(Clone, Copy, PartialEq, Eq, Structural, Debug)]
pub enum ResolveError {
    ExportNotFound,
    SignatureMismatch,
}

/// A runtime value crossing the host/guest boundary.
#[derive(Clone, Copy, PartialEq, Eq, Structural, Debug)]
pub enum Value {
    I32(i32),
    U32(u32),
    U64(u64),
}

/// The type of a runtime value.
pub open spec fn ty_of(v: Value) -> Ty {
    match v {
        Value::I32(_) => Ty::I32,
        Value::U32(_) => Ty::U32,
        Value::U64(_) => Ty::U64,
    }
}

/// The instance has an export of the given name.
pub open spec fn has_export(inst: ExportTable, name: Seq<char>) -> bool {
    exists|i: int| 0 <= i < inst.exports@.len() && inst.exports@[i].name@ == name
}

/// The export's declared signature equals the requested one exactly.
pub open spec fn sig_matches(e: Export, params: Seq<Ty>, ret: RetTy) -> bool {
    e.params@ == params && e.ret == ret
}

/// The instance carries an export of the given name whose signature equals
/// the requested one.
pub open spec fn has_matching_export(
    inst: ExportTable,
    name: Seq<char>,
    params: Seq<Ty>,
    ret: RetTy,
) -> bool {
    exists|i: int|
        0 <= i < inst.exports@.len() && inst.exports@[i].name@ == name && sig_matches(
            inst.exports@[i],
            params,
            ret,
        )
}

/// The handle is bound to the named export's operation.
pub open spec fn handle_binds(inst: ExportTable, name: Seq<char>, h: TypedHandle) -> bool {
    exists|i: int|
        0 <= i < inst.exports@.len() && inst.exports@[i].name@ == name && h.code
            == inst.exports@[i].code
}

/// Export names are pairwise distinct: each name resolves to at most one
/// export.
pub open spec fn wf_instance(inst: ExportTable) -> bool {
    forall|i: int, j: int|
        0 <= i < j < inst.exports@.len() ==> inst.exports@[i].name@ != inst.exports@[j].name@
}

fn ty_vec_eq(a: &Vec<Ty>, b: &Vec<Ty>) -> (r: bool)
    ensures
        r <==> a@ == b@,
{
    if a.len() != b.len() {
        return false;
    }
    let mut i: usize = 0;
    while i < a.len()
        invariant
            a@.len() == b@.len(),
            i <= a@.len(),
            forall|j: int| 0 <= j < i ==> a@[j] == b@[j],
        decreases a@.len() - i,
    {
        if a[i] != b[i] {
            return false;
        }
        i = i + 1;
    }
    proof {
        assert(a@ =~= b@);
    }
    true
}

/// Resolves an export by name against the exact expected signature.
///
/// Succeeds if and only if the instance carries an export of that name
/// whose parameter types and return type equal the requested ones; a named
/// export with any other arity or types is a `SignatureMismatch`, never a
/// coercion.
pub fn resolve(inst: &ExportTable, name: &str, params: &Vec<Ty>, ret: RetTy) -> (r: Result<
    TypedHandle,
    ResolveError,
>)
    requires
        wf_instance(*inst),
    ensures
        r is Ok <==> has_matching_export(*inst, name@, params@, ret),
        r is Ok ==> handle_binds(*inst, name@, r.unwrap()) && r.unwrap().params@ == params@
            && r.unwrap().ret == ret,
        r == Err::<TypedHandle, ResolveError>(ResolveError::ExportNotFound) <==> !has_export(
            *inst,
            name@,
        ),
        r == Err::<TypedHandle, ResolveError>(ResolveError::SignatureMismatch) <==> (has_export(
            *inst,
            name@,
        ) && !has_matching_export(*inst, name@, params@, ret)),
{
    let n = inst.exports.len();
    let mut i: usize = 0;
    while i < n
        invariant
            n == inst.exports@.len(),
            i <= n,
            wf_instance(*inst),
            forall|j: int| 0 <= j < i ==> inst.exports@[j].name@ != name@,
        decreases n - i,
    {
        let e = &inst.exports[i];
        if str_eq(e.name.as_str(), name) {
            if ty_vec_eq(&e.params, params) && e.ret == ret {
                let mut ps: Vec<Ty> = Vec::new();
                let mut k: usize = 0;
                while k < params.len()
                    invariant
                        k <= params@.len(),
                        ps@ =~= params@.subrange(0, k as int),
                    decreases params@.len() - k,
                {
                    ps.push(params[k]);
                    proof {
                        assert(ps@ =~= params@.subrange(0, k + 1));
                    }
                    k = k + 1;
                }
                proof {
                    assert(ps@ =~= params@);
                }
                return Ok(TypedHandle { code: e.code, params: ps, ret });
            } else {
                proof {
                    assert(forall|j: int|
                        0 <= j < inst.exports@.len() && j != i ==> inst.exports@[j].name@
                            != name@);
                }
                return Err(ResolveError::SignatureMismatch);
            }
        }
        i = i + 1;
    }
    Err(ResolveError::ExportNotFound)
}

/// The export table of the bundled guest module: `add`, `fib` and `run`,
/// each with its fixed signature.
pub fn guest_instance() -> (inst: ExportTable)
    ensures
        wf_instance(inst),
        inst.exports@.len() == 3,
        inst.exports@[0].name@ == "add"@ && inst.exports@[0].params@ == seq![Ty::I32, Ty::I32]
            && inst.exports@[0].ret == RetTy::Val(Ty::I32) && inst.exports@[0].code
            == ExportCode::AddOp,
        inst.exports@[1].name@ == "fib"@ && inst.exports@[1].params@ == seq![Ty::U32]
            && inst.exports@[1].ret == RetTy::Val(Ty::U64) && inst.exports@[1].code
            == ExportCode::FibOp,
        inst.exports@[2].name@ == "run"@ && inst.exports@[2].params@ == Seq::<Ty>::empty()
            && inst.exports@[2].ret == RetTy::Unit && inst.exports@[2].code
            == ExportCode::RenderOp,
{
    proof {
        reveal_strlit("add");
        reveal_strlit("fib");
        reveal_strlit("run");
    }
    let mut add_params: Vec<Ty> = Vec::new();
    add_params.push(Ty::I32);
    add_params.push(Ty::I32);
    let mut fib_params: Vec<Ty> = Vec::new();
    fib_params.push(Ty::U32);
    let run_params: Vec<Ty> = Vec::new();
    let mut exports: Vec<Export> = Vec::new();
    exports.push(
        Export {
            name: String::from_str("add"),
            params: add_params,
            ret: RetTy::Val(Ty::I32),
            code: ExportCode::AddOp,
        },
    );
    exports.push(
        Export {
            name: String::from_str("fib"),
            params: fib_params,
            ret: RetTy::Val(Ty::U64),
            code: ExportCode::FibOp,
        },
    );
    exports.push(
        Export {
            name: String::from_str("run"),
            params: run_params,
            ret: RetTy::Unit,
            code: ExportCode::RenderOp,
        },
    );
    proof {
        assert(seq![Ty::I32, Ty::I32] =~= exports@[0].params@);
        assert(seq![Ty::U32] =~= exports@[1].params@);
        assert(Seq::<Ty>::empty() =~= exports@[2].params@);
        assert("add"@ != "fib"@) by {
            assert("add"@[0] == 'a' && "fib"@[0] == 'f');
        }
        assert("add"@ != "run"@) by {
            assert("add"@[0] == 'a' && "run"@[0] == 'r');
        }
        assert("fib"@ != "run"@) by {
            assert("fib"@[0] == 'f' && "run"@[0] == 'r');
        }
    }
    ExportTable { exports }
}

/// The handle's signature is the one its operation declares.
pub open spec fn wf_handle(h: TypedHandle) -> bool {
    match h.code {
        ExportCode::AddOp => h.params@ == seq![Ty::I32, Ty::I32] && h.ret == RetTy::Val(Ty::I32),
        ExportCode::FibOp => h.params@ == seq![Ty::U32] && h.ret == RetTy::Val(Ty::U64),
        ExportCode::RenderOp => h.params@ == Seq::<Ty>::empty() && h.ret == RetTy::Unit,
    }
}

/// The argument list fits the parameter list type for type.
pub open spec fn args_match(params: Seq<Ty>, args: Seq<Value>) -> bool {
    args.len() == params.len() && (forall|i: int|
        0 <= i < args.len() ==> ty_of(args[i]) == params[i])
}

/// What a pure invocation of the operation returns: the wrapped sum for
/// `add`, the modular Fibonacci value for `fib`, and no value for the
/// rendering export, whose behavior is an effect on the host's output
/// streams rather than a result.
pub open spec fn pure_result(code: ExportCode, args: Seq<Value>) -> Option<Value> {
    match code {
        ExportCode::AddOp => Some(
            Value::I32(
                guest::wrap_add_i32(
                    args[0]->I32_0 as int,
                    args[1]->I32_0 as int,
                ) as i32,
            ),
        ),
        ExportCode::FibOp => Some(Value::U64(guest::fib64(args[0]->U32_0 as nat) as u64)),
        ExportCode::RenderOp => None,
    }
}

/// Invokes a resolved handle on arguments matching its signature.  The two
/// value-returning guest operations are computed here and never fault; the
/// rendering export returns `None`, its effect being performed by the
/// embedder against the host's streams.
pub fn invoke_pure(h: &TypedHandle, args: &Vec<Value>) -> (r: Option<Value>)
    requires
        wf_handle(*h),
        args_match(h.params@, args@),
    ensures
        r == pure_result(h.code, args@),
{
    match h.code {
        ExportCode::AddOp => {
            let a = match args[0] {
                Value::I32(x) => x,
                _ => 0,
            };
            let b = match args[1] {
                Value::I32(x) => x,
                _ => 0,
            };
            Some(Value::I32(guest::add(a, b)))
        },
        ExportCode::FibOp => {
            let n = match args[0] {
                Value::U32(x) => x,
                _ => 0,
            };
            proof {
                guest::lemma_fib64_bounded(n as nat);
            }
            Some(Value::U64(guest::fib(n)))
        },
        ExportCode::RenderOp => None,
    }
}

/// The export names of the bundled guest table are pairwise distinct.
pub proof fn lemma_guest_export_names_distinct()
    ensures
        "add"@ != "fib"@,
        "add"@ != "run"@,
        "fib"@ != "run"@,
{
    reveal_strlit("add");
    reveal_strlit("fib");
    reveal_strlit("run");
    assert("add"@[0] == 'a' && "fib"@[0] == 'f' && "run"@[0] == 'r');
}

/// The result lines one call contributes when invoked against the bundled
/// guest: none for rendering, and exactly the verified rendering of the
/// guest's value otherwise.
pub open spec fn pure_line_of(c: Call) -> Seq<Seq<char>> {
    match c {
        Call::Render => Seq::<Seq<char>>::empty(),
        Call::Add(a, b) => seq![
            add_line_spec(a as int, b as int, guest::wrap_add_i32(a as int, b as int)),
        ],
        Call::Fib(n) => seq![fib_line_spec(n as nat, guest::fib64(n as nat))],
    }
}

/// The result lines of a whole plan invoked against the bundled guest, in
/// plan order.
pub open spec fn pure_lines(calls: Seq<Call>) -> Seq<Seq<char>>
    decreases calls.len(),
{
    if calls.len() == 0 {
        Seq::<Seq<char>>::empty()
    } else {
        pure_line_of(calls[0]) + pure_lines(calls.drop_first())
    }
}

proof fn lemma_pure_lines_snoc(calls: Seq<Call>, c: Call)
    ensures
        pure_lines(calls.push(c)) =~= pure_lines(calls) + pure_line_of(c),
    decreases calls.len(),
{
    let cp = calls.push(c);
    if calls.len() == 0 {
        assert(cp[0] == c);
        assert(cp.drop_first() =~= Seq::<Call>::empty());
        assert(pure_lines(Seq::<Call>::empty()) =~= Seq::<Seq<char>>::empty());
        assert(pure_lines(cp) =~= pure_line_of(c) + pure_lines(cp.drop_first()));
        assert(pure_line_of(c) + Seq::<Seq<char>>::empty() =~= pure_line_of(c));
        assert(pure_lines(calls) =~= Seq::<Seq<char>>::empty());
        assert(Seq::<Seq<char>>::empty() + pure_line_of(c) =~= pure_line_of(c));
    } else {
        assert(cp[0] == calls[0]);
        assert(cp.drop_first() =~= calls.drop_first().push(c));
        lemma_pure_lines_snoc(calls.drop_first(), c);
        assert(pure_line_of(calls[0]) + (pure_lines(calls.drop_first()) + pure_line_of(c)) =~= (
        pure_line_of(calls[0]) + pure_lines(calls.drop_first())) + pure_line_of(c));
    }
}

/// Runs a plan of calls against the bundled guest's export table, wholly
/// inside the verified library: each value export is resolved by exact
/// signature and invoked, and its result line is pinned to the guest's
/// function of the arguments — `add(a, b) -> `  the wrapped sum, and
/// `fib(n) -> ` the modular Fibonacci value.  Rendering calls contribute
/// no line here: their effect belongs to the host's streams.
pub fn run_calls_pure(calls: &Vec<Call>) -> (lines: Vec<String>)
    ensures
        lines.deep_view() == pure_lines(calls@),
{
    let table = guest_instance();
    proof {
        lemma_guest_export_names_distinct();
    }
    let mut lines: Vec<String> = Vec::new();
    let mut i: usize = 0;
    while i < calls.len()
        invariant
            i <= calls@.len(),
            wf_instance(table),
            table.exports@.len() == 3,
            table.exports@[0].name@ == "add"@ && table.exports@[0].params@ == seq![
                Ty::I32,
                Ty::I32,
            ] && table.exports@[0].ret == RetTy::Val(Ty::I32) && table.exports@[0].code
                == ExportCode::AddOp,
            table.exports@[1].name@ == "fib"@ && table.exports@[1].params@ == seq![Ty::U32]
                && table.exports@[1].ret == RetTy::Val(Ty::U64) && table.exports@[1].code
                == ExportCode::FibOp,
            "add"@ != "fib"@ && "add"@ != "run"@ && "fib"@ != "run"@,
            lines.deep_view() =~= pure_lines(calls@.subrange(0, i as int)),
        decreases calls@.len() - i,
    {
        let ghost prefix = calls@.subrange(0, i as int);
        let ghost lines_before = lines.deep_view();
        let c = calls[i];
        match c {
            Call::Render => {},
            Call::Add(a, b) => {
                let mut want: Vec<Ty> = Vec::new();
                want.push(Ty::I32);
                want.push(Ty::I32);
                proof {
                    assert(want@ =~= seq![Ty::I32, Ty::I32]);
                    assert(sig_matches(table.exports@[0], want@, RetTy::Val(Ty::I32)));
                    assert(has_matching_export(table, "add"@, want@, RetTy::Val(Ty::I32)));
                }
                let h = match resolve(&table, "add", &want, RetTy::Val(Ty::I32)) {
                    Ok(h) => h,
                    Err(_) => {
                        proof {
                            assert(false);
                        }
                        return lines;
                    },
                };
                proof {
                    let k = choose|k: int|
                        0 <= k < table.exports@.len() && table.exports@[k].name@ == "add"@
                            && h.code == table.exports@[k].code;
                    assert(k == 0);
                    assert(wf_handle(h));
                }
                let args = vec![Value::I32(a), Value::I32(b)];
                proof {
                    assert(args@ =~= seq![Value::I32(a), Value::I32(b)]);
                    assert(args_match(h.params@, args@));
                }
                let sum = match invoke_pure(&h, &args) {
                    Some(Value::I32(s)) => s,
                    _ => {
                        proof {
                            assert(false);
                        }
                        return lines;
                    },
                };
                let line = add_line(a, b, sum);
                lines.push(line);
                proof {
                    assert(lines.deep_view() =~= lines_before + seq![line@]);
                    assert(seq![line@] =~= pure_line_of(c));
                }
            },
            Call::Fib(n) => {
                let mut want: Vec<Ty> = Vec::new();
                want.push(Ty::U32);
                proof {
                    assert(want@ =~= seq![Ty::U32]);
                    assert(sig_matches(table.exports@[1], want@, RetTy::Val(Ty::U64)));
                    assert(has_matching_export(table, "fib"@, want@, RetTy::Val(Ty::U64)));
                }
                let h = match resolve(&table, "fib", &want, RetTy::Val(Ty::U64)) {
                    Ok(h) => h,
                    Err(_) => {
                        proof {
                            assert(false);
                        }
                        return lines;
                    },
                };
                proof {
                    let k = choose|k: int|
                        0 <= k < table.exports@.len() && table.exports@[k].name@ == "fib"@
                            && h.code == table.exports@[k].code;
                    assert(k == 1);
                    assert(wf_handle(h));
                }
                let args = vec![Value::U32(n)];
                proof {
                    assert(args@ =~= seq![Value::U32(n)]);
                    assert(args_match(h.params@, args@));
                }
                let v = match invoke_pure(&h, &args) {
                    Some(Value::U64(v)) => v,
                    _ => {
                        proof {
                            assert(false);
                        }
                        return lines;
                    },
                };
                let line = fib_line(n, v);
                lines.push(line);
                proof {
                    assert(lines.deep_view() =~= lines_before + seq![line@]);
                    assert(seq![line@] =~= pure_line_of(c));
                }
            },
        }
        proof {
            lemma_pure_lines_snoc(prefix, calls@[i as int]);
            assert(calls@.subrange(0, i + 1) =~= prefix.push(calls@[i as int]));
            match c {
                Call::Render => {
                    assert(lines.deep_view() =~= lines_before + pure_line_of(c));
                },
                _ => {},
            }
        }
        i = i + 1;
    }
    proof {
        assert(calls@.subrange(0, calls@.len() as int) =~= calls@);
    }
    lines
}

} // verus!
