use plug::dispatch::{add_line, fib_line, plan, ArgMode, Call, CliError};
use plug::exports::{
    guest_instance, invoke_pure, resolve, run_calls_pure, ResolveError, RetTy, Ty, Value,
};
use plug::guest::{add, banner_line, fib, note_line, setting_u32, shade};
use plug::num::{i32_to_string, parse_i32, parse_u32, u64_to_string};

#[test]
fn add_small_values() {
    assert_eq!(add(20, 22), 42);
    assert_eq!(add(-5, 3), -2);
    assert_eq!(add(0, 0), 0);
}

#[test]
fn add_wraps_on_overflow() {
    assert_eq!(add(i32::MAX, 1), i32::MIN);
    assert_eq!(add(i32::MIN, -1), i32::MAX);
    assert_eq!(add(i32::MAX, i32::MAX), -2);
    assert_eq!(add(i32::MIN, i32::MIN), 0);
}

#[test]
fn fib_base_cases() {
    assert_eq!(fib(0), 0);
    assert_eq!(fib(1), 1);
}

#[test]
fn fib_small_values() {
    assert_eq!(fib(2), 1);
    assert_eq!(fib(10), 55);
    assert_eq!(fib(20), 6765);
    assert_eq!(fib(93), 12200160415121876738);
}

#[test]
fn fib_recurrence_holds_modulo_two_to_sixty_four() {
    for n in 2u32..200 {
        assert_eq!(fib(n), fib(n - 1).wrapping_add(fib(n - 2)));
    }
}

#[test]
fn fib_wraps_past_ninety_three() {
    assert_eq!(fib(94), fib(93).wrapping_add(fib(92)));
    assert_eq!(fib(94), 1293530146158671551);
}

#[test]
fn parse_i32_accepts_well_formed_numerals() {
    assert_eq!(parse_i32("42"), Some(42));
    assert_eq!(parse_i32("-42"), Some(-42));
    assert_eq!(parse_i32("+7"), Some(7));
    assert_eq!(parse_i32("0"), Some(0));
    assert_eq!(parse_i32("-0"), Some(0));
    assert_eq!(parse_i32("2147483647"), Some(i32::MAX));
    assert_eq!(parse_i32("-2147483648"), Some(i32::MIN));
}

#[test]
fn parse_i32_rejects_malformed_or_out_of_range() {
    assert_eq!(parse_i32(""), None);
    assert_eq!(parse_i32("-"), None);
    assert_eq!(parse_i32("+"), None);
    assert_eq!(parse_i32("abc"), None);
    assert_eq!(parse_i32("1x"), None);
    assert_eq!(parse_i32("2147483648"), None);
    assert_eq!(parse_i32("-2147483649"), None);
    assert_eq!(parse_i32("--1"), None);
}

#[test]
fn parse_u32_accepts_well_formed_numerals() {
    assert_eq!(parse_u32("0"), Some(0));
    assert_eq!(parse_u32("+5"), Some(5));
    assert_eq!(parse_u32("4294967295"), Some(u32::MAX));
}

#[test]
fn parse_u32_rejects_malformed_or_out_of_range() {
    assert_eq!(parse_u32(""), None);
    assert_eq!(parse_u32("+"), None);
    assert_eq!(parse_u32("-1"), None);
    assert_eq!(parse_u32("4294967296"), None);
    assert_eq!(parse_u32("12 "), None);
}

#[test]
fn decimal_rendering() {
    assert_eq!(u64_to_string(0), "0");
    assert_eq!(u64_to_string(55), "55");
    assert_eq!(u64_to_string(u64::MAX), "18446744073709551615");
    assert_eq!(i32_to_string(0), "0");
    assert_eq!(i32_to_string(-1), "-1");
    assert_eq!(i32_to_string(i32::MIN), "-2147483648");
    assert_eq!(i32_to_string(i32::MAX), "2147483647");
}

#[test]
fn result_lines() {
    assert_eq!(add_line(20, 22, 42), "add(20, 22) -> 42");
    assert_eq!(add_line(-1, -2, -3), "add(-1, -2) -> -3");
    assert_eq!(fib_line(10, 55), "fib(10) -> 55");
}

#[test]
fn banner_and_note() {
    assert_eq!(
        banner_line(80, 24, 80),
        "WASM plugin: Mandelbrot demo (80x24, iters=80)"
    );
    assert_eq!(note_line("hello there"), "Note: hello there");
}

#[test]
fn settings_fall_back_to_defaults() {
    assert_eq!(setting_u32(None, 80), 80);
    assert_eq!(setting_u32(Some(&String::from("100")), 80), 100);
    assert_eq!(setting_u32(Some(&String::from("wide")), 80), 80);
    assert_eq!(setting_u32(Some(&String::from("-3")), 24), 24);
}

#[test]
fn shade_saturates_and_scales() {
    assert_eq!(shade(0, 80), ' ');
    assert_eq!(shade(80, 80), '@');
    assert_eq!(shade(100, 80), '@');
    assert_eq!(shade(79, 80), '%');
    assert_eq!(shade(40, 80), '=');
}

#[test]
fn zero_max_iterations_renders_all_darkest() {
    assert_eq!(shade(0, 0), '@');
    assert_eq!(shade(7, 0), '@');
}

#[test]
fn plan_defaults_to_everything() {
    let calls = plan(&vec![]).unwrap();
    assert_eq!(calls, vec![Call::Render, Call::Add(20, 22), Call::Fib(10)]);
    let calls = plan(&vec!["all".to_string()]).unwrap();
    assert_eq!(calls, vec![Call::Render, Call::Add(20, 22), Call::Fib(10)]);
    let calls = plan(&vec!["run".to_string()]).unwrap();
    assert_eq!(calls, vec![Call::Render, Call::Add(20, 22), Call::Fib(10)]);
}

#[test]
fn plan_mandelbrot_renders_only() {
    let calls = plan(&vec!["mandelbrot".to_string()]).unwrap();
    assert_eq!(calls, vec![Call::Render]);
}

#[test]
fn plan_add_parses_both_arguments() {
    let calls = plan(&vec!["add".to_string(), "20".to_string(), "22".to_string()]).unwrap();
    assert_eq!(calls, vec![Call::Add(20, 22)]);
    let calls = plan(&vec!["add".to_string(), "-7".to_string(), "+9".to_string()]).unwrap();
    assert_eq!(calls, vec![Call::Add(-7, 9)]);
}

#[test]
fn plan_fib_parses_its_argument() {
    let calls = plan(&vec!["fib".to_string(), "10".to_string()]).unwrap();
    assert_eq!(calls, vec![Call::Fib(10)]);
}

#[test]
fn plan_add_missing_second_argument_is_a_usage_error() {
    let err = plan(&vec!["add".to_string(), "5".to_string()]).unwrap_err();
    match &err {
        CliError::UsageError { mode, position } => {
            assert!(matches!(mode, ArgMode::AddMode));
            assert_eq!(*position, 2);
        }
        other => panic!("expected a usage error, got {}", other.message()),
    }
    assert_eq!(err.message(), "usage: plug add <a> <b>: missing <b>");
}

#[test]
fn plan_add_missing_both_arguments_points_at_the_first() {
    let err = plan(&vec!["add".to_string()]).unwrap_err();
    match &err {
        CliError::UsageError { mode, position } => {
            assert!(matches!(mode, ArgMode::AddMode));
            assert_eq!(*position, 1);
        }
        other => panic!("expected a usage error, got {}", other.message()),
    }
    assert_eq!(err.message(), "usage: plug add <a> <b>: missing <a>");
}

#[test]
fn plan_fib_missing_argument_is_a_usage_error() {
    let err = plan(&vec!["fib".to_string()]).unwrap_err();
    assert_eq!(err.message(), "usage: plug fib <n>: missing <n>");
}

#[test]
fn plan_unparseable_arguments_name_their_place() {
    let err = plan(&vec!["add".to_string(), "x".to_string(), "2".to_string()]).unwrap_err();
    match &err {
        CliError::ArgumentParseError { mode, position } => {
            assert!(matches!(mode, ArgMode::AddMode));
            assert_eq!(*position, 1);
        }
        other => panic!("expected a parse error, got {}", other.message()),
    }
    assert_eq!(err.message(), "invalid integer for <a>");
    let err = plan(&vec!["add".to_string(), "1".to_string(), "y".to_string()]).unwrap_err();
    assert_eq!(err.message(), "invalid integer for <b>");
    let err = plan(&vec!["fib".to_string(), "-1".to_string()]).unwrap_err();
    assert_eq!(err.message(), "invalid integer for <n>");
}

#[test]
fn plan_unknown_mode_names_the_token() {
    let err = plan(&vec!["bogus".to_string()]).unwrap_err();
    match &err {
        CliError::UnknownMode(m) => assert_eq!(m, "bogus"),
        other => panic!("expected an unknown-mode error, got {}", other.message()),
    }
    assert_eq!(
        err.message(),
        "unknown mode 'bogus'. Use one of: mandelbrot | add <a> <b> | fib <n> | all"
    );
}

#[test]
fn resolve_finds_exact_signatures() {
    let inst = guest_instance();
    let h = resolve(&inst, "add", &vec![Ty::I32, Ty::I32], RetTy::Val(Ty::I32)).unwrap();
    assert_eq!(invoke_pure(&h, &vec![Value::I32(20), Value::I32(22)]), Some(Value::I32(42)));
    let h = resolve(&inst, "fib", &vec![Ty::U32], RetTy::Val(Ty::U64)).unwrap();
    assert_eq!(invoke_pure(&h, &vec![Value::U32(10)]), Some(Value::U64(55)));
    let h = resolve(&inst, "run", &vec![], RetTy::Unit).unwrap();
    assert_eq!(invoke_pure(&h, &vec![]), None);
}

#[test]
fn resolve_wrong_arity_is_a_signature_mismatch() {
    let inst = guest_instance();
    let err = resolve(&inst, "add", &vec![Ty::I32], RetTy::Val(Ty::I32)).unwrap_err();
    assert_eq!(err, ResolveError::SignatureMismatch);
}

#[test]
fn resolve_wrong_type_is_a_signature_mismatch() {
    let inst = guest_instance();
    let err = resolve(&inst, "add", &vec![Ty::I32, Ty::U32], RetTy::Val(Ty::I32)).unwrap_err();
    assert_eq!(err, ResolveError::SignatureMismatch);
    let err = resolve(&inst, "fib", &vec![Ty::U32], RetTy::Val(Ty::U32)).unwrap_err();
    assert_eq!(err, ResolveError::SignatureMismatch);
    let err = resolve(&inst, "run", &vec![], RetTy::Val(Ty::I32)).unwrap_err();
    assert_eq!(err, ResolveError::SignatureMismatch);
}

#[test]
fn resolve_missing_export_is_export_not_found() {
    let inst = guest_instance();
    let err = resolve(&inst, "frob", &vec![], RetTy::Unit).unwrap_err();
    assert_eq!(err, ResolveError::ExportNotFound);
}

#[test]
fn the_default_plan_runs_natively() {
    let calls = plan(&vec![]).unwrap();
    let lines = run_calls_pure(&calls);
    assert_eq!(lines, vec!["add(20, 22) -> 42", "fib(10) -> 55"]);
}

#[test]
fn a_single_call_plan_runs_natively() {
    let lines = run_calls_pure(&vec![Call::Add(i32::MAX, 1)]);
    assert_eq!(lines, vec![format!("add(2147483647, 1) -> {}", i32::MIN)]);
    let lines = run_calls_pure(&vec![Call::Fib(93)]);
    assert_eq!(lines, vec!["fib(93) -> 12200160415121876738"]);
    let lines = run_calls_pure(&vec![Call::Render]);
    assert!(lines.is_empty());
}
