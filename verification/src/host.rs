//! The host-side driver: runs a plan of calls against a real sandboxed
//! module through `wasmtime`, resolving each export lazily, invoking it
//! through a statically typed handle, and formatting the numeric results.
//!
//! What a loaded module exports, and what its exports return, depends on
//! the module bytes the embedder loaded; no contract here pins those.  The
//! driver's contracts state the failure taxonomy — which export a failure
//! belongs to and at which stage it arose — and that every result line is
//! the verified rendering of whatever value the guest returned.
//!
//! A `wasmtime` instance, and every handle drawn from it, may only ever be
//! used with the store it was created in; mixing two runs' objects panics
//! inside the runtime.  The library therefore never takes an instance and
//! a store apart: both live inside [`PluginSession`], whose only
//! constructor instantiates the module in the session's own fresh store,
//! and every trusted call works on that one session.

use crate::dispatch::{add_line, add_line_spec, fib_line, fib_line_spec, Call};
use vstd::prelude::*;
use vstd::string::*;

verus! {

#[verifier::external_type_specification]
#[verifier::external_body]
pub struct ExWtEngine(wasmtime::Engine);

#[verifier::external_type_specification]
#[verifier::external_body]
pub struct ExWtModule(wasmtime::Module);

#[verifier::external_type_specification]
#[verifier::external_body]
pub struct ExWtInstance(wasmtime::Instance);

#[verifier::external_type_specification]
#[verifier::external_body]
#[verifier::reject_recursive_types(T)]
pub struct ExWtStore<T: 'static>(wasmtime::Store<T>);

#[verifier::external_type_specification]
#[verifier::external_body]
pub struct ExWtError(wasmtime::Error);

#[verifier::external_type_specification]
#[verifier::external_body]
pub struct ExWasiCtx(wasi_common::WasiCtx);

/// A loaded plugin, ready to be called: the instance together with the
/// one execution context it was instantiated in.  The fields are private
/// and the only constructor is [`open_session`], so an instance can never
/// meet a store other than its own.
pub struct PluginSession {
    store: wasmtime::Store<wasi_common::WasiCtx>,
    instance: wasmtime::Instance,
}

/// Why one invocation against the session's module failed: the named
/// export is absent, its wasm type is not the expected one, or the guest
/// faulted while it ran.
enum CallFailure {
    Missing,
    Incompatible(wasmtime::Error),
    Faulted(wasmtime::Error),
}

/// Relies on `wasmtime::Linker::new`, `wasi_common::sync::add_to_linker`,
/// `wasmtime::Store::new` and `Linker::instantiate`: binds the compiled
/// module into a fresh execution context carrying the given
/// host-environment policy.  The linker is built here, from the same
/// engine, and holds only the WASI host functions — never an item owned
/// by some other store — so every remaining instantiation failure (an
/// absent or mismatched import, a foreign engine) is an `Err`.  Every
/// later call of the returned session runs the instance against that same
/// store.
#[verifier::external_body]
pub fn open_session(
    engine: &wasmtime::Engine,
    module: &wasmtime::Module,
    wasi: wasi_common::WasiCtx,
) -> (r: Result<PluginSession, wasmtime::Error>) {
    let mut linker = wasmtime::Linker::new(engine);
    wasi_common::sync::add_to_linker(&mut linker, |s| s)?;
    let mut store = wasmtime::Store::new(engine, wasi);
    let instance = linker.instantiate(&mut store, module)?;
    Ok(PluginSession { store, instance })
}

/// Relies on `wasmtime::Instance::get_export`, `Extern::into_func`,
/// `Func::typed` and `TypedFunc::call`, all against the session's own
/// store: resolves the module's `add` export at wasm type
/// `(i32, i32) -> i32` — exact, no coercion — and calls it.
#[verifier::external_body]
fn session_call_add(sess: &mut PluginSession, a: i32, b: i32) -> (r: Result<i32, CallFailure>) {
    let f = match sess.instance.get_export(&mut sess.store, "add").and_then(|e| e.into_func()) {
        Some(f) => f,
        None => return Err(CallFailure::Missing),
    };
    let tf = match f.typed::<(i32, i32), i32>(&sess.store) {
        Ok(tf) => tf,
        Err(e) => return Err(CallFailure::Incompatible(e)),
    };
    tf.call(&mut sess.store, (a, b)).map_err(CallFailure::Faulted)
}

/// Relies on the same four `wasmtime` functions as `session_call_add`:
/// resolves the module's `fib` export at wasm type `(i32) -> i64`, the
/// wasm shape of `(u32) -> u64`, and calls it.
#[verifier::external_body]
fn session_call_fib(sess: &mut PluginSession, n: u32) -> (r: Result<u64, CallFailure>) {
    let f = match sess.instance.get_export(&mut sess.store, "fib").and_then(|e| e.into_func()) {
        Some(f) => f,
        None => return Err(CallFailure::Missing),
    };
    let tf = match f.typed::<(u32,), u64>(&sess.store) {
        Ok(tf) => tf,
        Err(e) => return Err(CallFailure::Incompatible(e)),
    };
    tf.call(&mut sess.store, (n,)).map_err(CallFailure::Faulted)
}

/// Relies on the same four `wasmtime` functions as `session_call_add`:
/// resolves the module's `run` export at a wasm type with no parameters
/// and no results, and calls it; whatever the guest writes goes to the
/// session store's bound output streams.
#[verifier::external_body]
fn session_call_run(sess: &mut PluginSession) -> (r: Result<(), CallFailure>) {
    let f = match sess.instance.get_export(&mut sess.store, "run").and_then(|e| e.into_func()) {
        Some(f) => f,
        None => return Err(CallFailure::Missing),
    };
    let tf = match f.typed::<(), ()>(&sess.store) {
        Ok(tf) => tf,
        Err(e) => return Err(CallFailure::Incompatible(e)),
    };
    tf.call(&mut sess.store, ()).map_err(CallFailure::Faulted)
}

/// A failure of one invocation against the loaded module, tagged with the
/// export it belongs to and the stage it arose at.
#[derive(Debug)]
pub enum HostError {
    /// No export of that name exists in the instance.
    ExportNotFound { name: String },
    /// The export exists but its declared type differs from the expected
    /// one in arity or in some position.
    SignatureMismatch { name: String, cause: wasmtime::Error },
    /// The guest faulted while the export ran.
    Trap { name: String, cause: wasmtime::Error },
}

/// The export a failure belongs to.
pub open spec fn host_error_export(e: HostError) -> Seq<char> {
    match e {
        HostError::ExportNotFound { name } => name@,
        HostError::SignatureMismatch { name, .. } => name@,
        HostError::Trap { name, .. } => name@,
    }
}

impl HostError {
    /// The diagnostic this failure prints on the error stream; the
    /// embedder may append the underlying cause.
    pub fn message(&self) -> (r: String)
        ensures
            r@ == host_error_message_spec(*self),
    {
        match self {
            HostError::ExportNotFound { name } => {
                let mut out = String::from_str("export not found: ");
                out.append(name.as_str());
                proof {
                    assert(out@ =~= host_error_message_spec(*self));
                }
                out
            },
            HostError::SignatureMismatch { name, .. } => {
                let mut out = String::from_str("export has an incompatible signature: ");
                out.append(name.as_str());
                proof {
                    assert(out@ =~= host_error_message_spec(*self));
                }
                out
            },
            HostError::Trap { name, .. } => {
                let mut out = String::from_str("guest trapped in: ");
                out.append(name.as_str());
                proof {
                    assert(out@ =~= host_error_message_spec(*self));
                }
                out
            },
        }
    }
}

/// The diagnostic text of a host failure.
pub open spec fn host_error_message_spec(e: HostError) -> Seq<char> {
    match e {
        HostError::ExportNotFound { name } => "export not found: "@ + name@,
        HostError::SignatureMismatch { name, .. } => "export has an incompatible signature: "@
            + name@,
        HostError::Trap { name, .. } => "guest trapped in: "@ + name@,
    }
}

/// Resolves and invokes the session module's `add` export on `(a, b)`.
/// On failure the error names `add` and the stage: absent export, wrong
/// signature, or a fault while running.
pub fn wasm_add(sess: &mut PluginSession, a: i32, b: i32) -> (r: Result<i32, HostError>)
    ensures
        r matches Err(e) ==> host_error_export(e) == "add"@,
{
    match session_call_add(sess, a, b) {
        Ok(v) => Ok(v),
        Err(CallFailure::Missing) => Err(
            HostError::ExportNotFound { name: String::from_str("add") },
        ),
        Err(CallFailure::Incompatible(cause)) => Err(
            HostError::SignatureMismatch { name: String::from_str("add"), cause },
        ),
        Err(CallFailure::Faulted(cause)) => Err(
            HostError::Trap { name: String::from_str("add"), cause },
        ),
    }
}

/// Resolves and invokes the session module's `fib` export on `n`; the
/// failure taxonomy is as for `wasm_add`.
pub fn wasm_fib(sess: &mut PluginSession, n: u32) -> (r: Result<u64, HostError>)
    ensures
        r matches Err(e) ==> host_error_export(e) == "fib"@,
{
    match session_call_fib(sess, n) {
        Ok(v) => Ok(v),
        Err(CallFailure::Missing) => Err(
            HostError::ExportNotFound { name: String::from_str("fib") },
        ),
        Err(CallFailure::Incompatible(cause)) => Err(
            HostError::SignatureMismatch { name: String::from_str("fib"), cause },
        ),
        Err(CallFailure::Faulted(cause)) => Err(
            HostError::Trap { name: String::from_str("fib"), cause },
        ),
    }
}

/// Resolves and invokes the session module's `run` export, whose output
/// goes to the session store's bound streams; the failure taxonomy is as
/// for `wasm_add`.
pub fn wasm_render(sess: &mut PluginSession) -> (r: Result<(), HostError>)
    ensures
        r matches Err(e) ==> host_error_export(e) == "run"@,
{
    match session_call_run(sess) {
        Ok(_) => Ok(()),
        Err(CallFailure::Missing) => Err(
            HostError::ExportNotFound { name: String::from_str("run") },
        ),
        Err(CallFailure::Incompatible(cause)) => Err(
            HostError::SignatureMismatch { name: String::from_str("run"), cause },
        ),
        Err(CallFailure::Faulted(cause)) => Err(
            HostError::Trap { name: String::from_str("run"), cause },
        ),
    }
}

/// What one call adds to the result lines: nothing for the rendering call,
/// whose output goes to the host's streams, and one verified result line
/// for each value call — `add(a, b) -> s` for the value `s` the guest
/// returned, `fib(n) -> v` likewise.
pub open spec fn call_contribution(c: Call, extra: Seq<String>) -> bool {
    match c {
        Call::Render => extra.len() == 0,
        Call::Add(a, b) => extra.len() == 1 && (exists|s: int|
            i32::MIN <= s <= i32::MAX && extra[0]@ == add_line_spec(a as int, b as int, s)),
        Call::Fib(n) => extra.len() == 1 && (exists|v: nat|
            v <= u64::MAX && extra[0]@ == fib_line_spec(n as nat, v)),
    }
}

/// The result lines follow the plan: one well-formed line per value call,
/// in plan order, and none for rendering calls.
pub open spec fn lines_match(calls: Seq<Call>, lines: Seq<String>) -> bool
    decreases calls.len(),
{
    if calls.len() == 0 {
        lines.len() == 0
    } else {
        match calls[0] {
            Call::Render => lines_match(calls.drop_first(), lines),
            Call::Add(a, b) => lines.len() > 0 && (exists|s: int|
                i32::MIN <= s <= i32::MAX && lines[0]@ == add_line_spec(a as int, b as int, s))
                && lines_match(calls.drop_first(), lines.drop_first()),
            Call::Fib(n) => lines.len() > 0 && (exists|v: nat|
                v <= u64::MAX && lines[0]@ == fib_line_spec(n as nat, v)) && lines_match(
                calls.drop_first(),
                lines.drop_first(),
            ),
        }
    }
}

proof fn lemma_lines_match_snoc(calls: Seq<Call>, lines: Seq<String>, c: Call, extra: Seq<String>)
    requires
        lines_match(calls, lines),
        call_contribution(c, extra),
    ensures
        lines_match(calls.push(c), lines + extra),
    decreases calls.len(),
{
    let cp = calls.push(c);
    if calls.len() == 0 {
        assert(lines.len() == 0);
        assert(cp[0] == c);
        assert(cp.drop_first() =~= Seq::<Call>::empty());
        assert(lines + extra =~= extra);
        match c {
            Call::Render => {
                assert(extra.len() == 0);
                assert(lines_match(cp.drop_first(), lines + extra));
            },
            Call::Add(a, b) => {
                let s = choose|s: int|
                    i32::MIN <= s <= i32::MAX && extra[0]@ == add_line_spec(a as int, b as int, s);
                assert((lines + extra)[0]@ == add_line_spec(a as int, b as int, s));
                assert((lines + extra).drop_first() =~= Seq::<String>::empty());
                assert(lines_match(cp.drop_first(), (lines + extra).drop_first()));
            },
            Call::Fib(n) => {
                let v = choose|v: nat| v <= u64::MAX && extra[0]@ == fib_line_spec(n as nat, v);
                assert((lines + extra)[0]@ == fib_line_spec(n as nat, v));
                assert((lines + extra).drop_first() =~= Seq::<String>::empty());
                assert(lines_match(cp.drop_first(), (lines + extra).drop_first()));
            },
        }
    } else {
        assert(cp[0] == calls[0]);
        assert(cp.drop_first() =~= calls.drop_first().push(c));
        match calls[0] {
            Call::Render => {
                lemma_lines_match_snoc(calls.drop_first(), lines, c, extra);
            },
            Call::Add(a, b) => {
                let s = choose|s: int|
                    i32::MIN <= s <= i32::MAX && lines[0]@ == add_line_spec(a as int, b as int, s);
                lemma_lines_match_snoc(calls.drop_first(), lines.drop_first(), c, extra);
                assert((lines + extra)[0] == lines[0]);
                assert((lines + extra)[0]@ == add_line_spec(a as int, b as int, s));
                assert((lines + extra).drop_first() =~= lines.drop_first() + extra);
            },
            Call::Fib(n) => {
                let v = choose|v: nat| v <= u64::MAX && lines[0]@ == fib_line_spec(n as nat, v);
                lemma_lines_match_snoc(calls.drop_first(), lines.drop_first(), c, extra);
                assert((lines + extra)[0] == lines[0]);
                assert((lines + extra)[0]@ == fib_line_spec(n as nat, v));
                assert((lines + extra).drop_first() =~= lines.drop_first() + extra);
            },
        }
    }
}

/// The export a call goes through: the rendering call invokes the
/// module's `run`, the value calls `add` and `fib`.
pub open spec fn call_export(c: Call) -> Seq<char> {
    match c {
        Call::Render => "run"@,
        Call::Add(_, _) => "add"@,
        Call::Fib(_) => "fib"@,
    }
}

/// Runs a plan of calls against the session's module, in order, resolving
/// each export lazily when its call comes up.  On success the returned
/// lines follow the plan; on the first failure the error names the export
/// of one of the plan's calls and the stage it failed at, and nothing
/// further is invoked.
pub fn run_calls(sess: &mut PluginSession, calls: &Vec<Call>) -> (r: Result<Vec<String>, HostError>)
    ensures
        r matches Ok(lines) ==> lines_match(calls@, lines@),
        r matches Err(e) ==> (exists|j: int|
            0 <= j < calls@.len() && host_error_export(e) == call_export(calls@[j])),
{
    let mut lines: Vec<String> = Vec::new();
    let mut i: usize = 0;
    while i < calls.len()
        invariant
            i <= calls@.len(),
            lines_match(calls@.subrange(0, i as int), lines@),
        decreases calls@.len() - i,
    {
        let ghost prefix = calls@.subrange(0, i as int);
        let ghost lines_before = lines@;
        let c = calls[i];
        match c {
            Call::Render => {
                match wasm_render(sess) {
                    Ok(_) => {},
                    Err(e) => {
                        proof {
                            assert(call_export(calls@[i as int]) == "run"@);
                        }
                        return Err(e);
                    },
                }
                proof {
                    lemma_lines_match_snoc(prefix, lines_before, c, Seq::<String>::empty());
                    assert(lines_before + Seq::<String>::empty() =~= lines@);
                }
            },
            Call::Add(a, b) => {
                let sum = match wasm_add(sess, a, b) {
                    Ok(v) => v,
                    Err(e) => {
                        proof {
                            assert(call_export(calls@[i as int]) == "add"@);
                        }
                        return Err(e);
                    },
                };
                let line = add_line(a, b, sum);
                proof {
                    assert(call_contribution(c, seq![line])) by {
                        assert(seq![line][0]@ == add_line_spec(
                            a as int,
                            b as int,
                            sum as int,
                        ));
                    }
                }
                lines.push(line);
                proof {
                    lemma_lines_match_snoc(prefix, lines_before, c, seq![line]);
                    assert(lines_before + seq![line] =~= lines@);
                }
            },
            Call::Fib(n) => {
                let v = match wasm_fib(sess, n) {
                    Ok(v) => v,
                    Err(e) => {
                        proof {
                            assert(call_export(calls@[i as int]) == "fib"@);
                        }
                        return Err(e);
                    },
                };
                let line = fib_line(n, v);
                proof {
                    assert(call_contribution(c, seq![line])) by {
                        assert(seq![line][0]@ == fib_line_spec(n as nat, v as nat));
                    }
                }
                lines.push(line);
                proof {
                    lemma_lines_match_snoc(prefix, lines_before, c, seq![line]);
                    assert(lines_before + seq![line] =~= lines@);
                }
            },
        }
        proof {
            assert(calls@.subrange(0, i + 1) =~= prefix.push(calls@[i as int]));
        }
        i = i + 1;
    }
    proof {
        assert(calls@.subrange(0, calls@.len() as int) =~= calls@);
    }
    Ok(lines)
}

} // verus!
