use parity_common::kvdb_web::{reopen_version, DatabaseInfo};
use parity_common::macros::{hidden_crate_name, is_own_crate, module_names, struct_name, timer_enclose_names, MacroArgError};

#[test]
fn struct_names() {
    assert_eq!(struct_name("pro"), "Pro");
    assert_eq!(struct_name("slogger"), "Slogger");
    assert_eq!(struct_name(""), "");
    assert_eq!(struct_name("ßa"), "SSa");
}

#[test]
fn own_crate_detection() {
    assert!(is_own_crate("metrics-backends-tests", "metrics_backends_tests"));
    assert!(!is_own_crate("metrics-backends", "metrics_backends_tests"));
    assert!(!is_own_crate("a-b", "a-b"));
    assert_eq!(hidden_crate_name(None), "metrics_backends");
    assert_eq!(hidden_crate_name(Some("mine".to_string())), "mine");
}

#[test]
fn timer_enclose_arguments() {
    let w = |s: &str| Some(s.to_string());
    assert_eq!(timer_enclose_names(&vec![]), Err(MacroArgError::NoMetricsName));
    assert_eq!(timer_enclose_names(&vec![None]), Err(MacroArgError::UnexpectedMetricsName));
    assert_eq!(
        timer_enclose_names(&vec![w("a_timer_counter")]),
        Ok(("a_timer_counter".to_string(), "timer_enclose_backends".to_string()))
    );
    assert_eq!(
        timer_enclose_names(&vec![w("a_timer_counter"), w("timer_enclose_backends_alt")]),
        Ok(("a_timer_counter".to_string(), "timer_enclose_backends_alt".to_string()))
    );
    assert_eq!(timer_enclose_names(&vec![w("a"), None]), Err(MacroArgError::UnexpectedMacroName));
    assert_eq!(MacroArgError::NoMetricsName.message(), "no metrics name");
}

#[test]
fn module_arguments() {
    let w = |s: &str| Some(s.to_string());
    assert_eq!(module_names(&vec![w("pro"), w("slogger")]), Ok(vec!["pro".to_string(), "slogger".to_string()]));
    assert_eq!(module_names(&vec![w("pro"), None]), Err(MacroArgError::UnexpectedArg));
    assert_eq!(module_names(&vec![]), Ok(vec![]));
}

#[test]
fn kvdb_reopen_and_info() {
    assert_eq!(reopen_version(3, 2, 7), Some(8));
    assert_eq!(reopen_version(3, 4, 7), None);
    assert_eq!(reopen_version(3, 3, 7), Some(8));
    let d = DatabaseInfo::new("db".to_string(), 2, 5);
    assert_eq!(d.name(), "db");
    assert_eq!(d.version(), 2);
    assert_eq!(d.columns(), 5);
}

use parity_common::macros::code::{metrics_code, module_code, modules_code, timer_enclose_code, Piece};
use parity_common::macros::grammar::{parse_metrics_call, Delim, MetricsSyntaxError, Tok};

fn id(s: &str) -> Tok {
    Tok::Ident(s.to_string())
}

fn p(c: char) -> Tok {
    Tok::Punct(c)
}

/// The text of generated code, with the other pieces written as markers.
fn joined(code: &[Piece]) -> String {
    code.iter()
        .map(|piece| match piece {
            Piece::Text(s) => s.clone(),
            Piece::FieldName(i) => format!("<name {}>", i),
            Piece::FieldType(i) => format!("<type {}>", i),
            Piece::Arg(i) => format!("<arg {}>", i),
            Piece::Body => "<body>".to_string(),
            Piece::Crate => "<crate>".to_string(),
        })
        .collect()
}

// [pro, slogger], a_int_counter, by(x + 1, f(a, b))
fn simple_call() -> Vec<Tok> {
    vec![
        Tok::Open(Delim::Bracket), id("pro"), p(','), id("slogger"), Tok::Close(Delim::Bracket),
        p(','), id("a_int_counter"), p(','), id("by"),
        Tok::Open(Delim::Paren), id("x"), p('+'), Tok::Literal, p(','),
        id("f"), Tok::Open(Delim::Paren), id("a"), p(','), id("b"), Tok::Close(Delim::Paren),
        Tok::Close(Delim::Paren),
    ]
}

#[test]
fn metrics_call_without_log() {
    let call = parse_metrics_call(&simple_call()).ok().unwrap();
    assert_eq!(call.hidden_crate, None);
    assert_eq!(call.backends, vec!["pro".to_string(), "slogger".to_string()]);
    assert_eq!(call.name, "a_int_counter");
    assert_eq!(call.action, "by");
    assert_eq!(call.n_action_args, 2);
    assert_eq!(call.exprs, vec![(10, 13), (14, 20)]);
    assert_eq!(call.level, None);
    assert_eq!(
        joined(&metrics_code(&call)),
        "let __ds = <crate>::pro::get_metrics_states().derived_state.a_int_counter.by(<arg 0>, <arg 1>); \
         let __ds = <crate>::slogger::get_metrics_states().derived_state.a_int_counter.by(<arg 0>, <arg 1>); "
    );
}

#[test]
fn metrics_call_with_crate_and_log() {
    // from_crate(m) [pro], a_timer, start(), info, target: "t", "x {}", 3,
    let toks = vec![
        id("from_crate"), Tok::Open(Delim::Paren), id("m"), Tok::Close(Delim::Paren),
        Tok::Open(Delim::Bracket), id("pro"), Tok::Close(Delim::Bracket),
        p(','), id("a_timer"), p(','), id("start"), Tok::Open(Delim::Paren), Tok::Close(Delim::Paren), p(','),
        id("info"), p(','), id("target"), p(':'), Tok::Literal, p(','), Tok::Literal, p(','), Tok::Literal, p(','),
    ];
    let call = parse_metrics_call(&toks).ok().unwrap();
    assert_eq!(call.hidden_crate, Some("m".to_string()));
    assert_eq!(call.n_action_args, 0);
    assert_eq!(call.level, Some("info".to_string()));
    assert_eq!(call.exprs, vec![(18, 19), (20, 21), (22, 23)]);
    assert_eq!(
        joined(&metrics_code(&call)),
        "let __ds = <crate>::pro::get_metrics_states().derived_state.a_timer.start(); \
         { use <crate>::log::log; <crate>::log::info!(target: <arg 0>, <arg 1>, <arg 2>); }"
    );
}

#[test]
fn metrics_call_errors() {
    // no bracket
    assert_eq!(parse_metrics_call(&vec![id("pro")]).err(), Some(MetricsSyntaxError { pos: 0 }));
    // a backend that is no identifier
    let toks = vec![Tok::Open(Delim::Bracket), Tok::Literal, Tok::Close(Delim::Bracket)];
    assert_eq!(parse_metrics_call(&toks).err(), Some(MetricsSyntaxError { pos: 1 }));
    // an empty argument
    let mut toks = simple_call();
    toks[10] = p(',');
    assert_eq!(parse_metrics_call(&toks).err(), Some(MetricsSyntaxError { pos: 10 }));
    // `target` missing in the log line
    let mut toks = simple_call();
    toks.extend(vec![p(','), id("info"), p(','), id("tgt"), Tok::Literal]);
    assert_eq!(parse_metrics_call(&toks).err(), Some(MetricsSyntaxError { pos: 24 }));
    // from_crate without its crate
    let toks = vec![id("from_crate"), Tok::Open(Delim::Paren), Tok::Close(Delim::Paren)];
    assert_eq!(parse_metrics_call(&toks).err(), Some(MetricsSyntaxError { pos: 2 }));
}

#[test]
fn timer_enclose_generated_body() {
    let w = |s: &str| Some(s.to_string());
    let code = timer_enclose_code(&vec![w("a_timer_counter")]).ok().unwrap();
    assert_eq!(
        joined(&code),
        "timer_enclose_backends!(a_timer_counter, start()); let mut r = move || <body>; let r = r(); \
         timer_enclose_backends!(a_timer_counter, suspend()); r"
    );
    let code = timer_enclose_code(&vec![w("t"), w("alt")]).ok().unwrap();
    assert!(joined(&code).starts_with("alt!(t, start());"));
    assert_eq!(timer_enclose_code(&vec![]).err(), Some(MacroArgError::NoMetricsName));
}

#[test]
fn module_generated_code() {
    let code = module_code("pro", &vec!["a_int_counter".to_string()]);
    let text = joined(&code);
    assert!(text.starts_with(
        "pub mod pro { use metrics_backends::{GlobalCommonDef, Backend, Error}; use metrics_backends::pro::Pro; \
         #[derive(Clone)] pub struct DerivedStates { pub <name 0>: metrics_backends::pro::<type 0>, } "
    ));
    assert!(text.contains(
        "Ok(DerivedStates { <name 0>: <metrics_backends::pro::<type 0> as metrics_backends::<type 0>>::init(\"a_int_counter\", &global_state)?, }) }"
    ));
    assert!(text.contains("impl Drop for States"));
    assert!(text.ends_with("<Pro as Backend>::async_write(&get_metrics_states().global_state)?; Ok(()) } }"));
}

#[test]
fn modules_generated_code() {
    let w = |s: &str| Some(s.to_string());
    let fields = vec!["c".to_string()];
    let code = modules_code(&vec![w("pro"), w("slogger")], &fields).ok().unwrap();
    let text = joined(&code);
    let pro = joined(&module_code("pro", &fields));
    let slogger = joined(&module_code("slogger", &fields));
    assert_eq!(
        text,
        format!(
            "{}{}pub fn init(conf: &GlobalCommonDef) -> Result<(), Error> {{ pro::init_metrics_states(&conf)?; \
             slogger::init_metrics_states(&conf)?; pro::flush_metrics_states()?; slogger::flush_metrics_states()?; \
             Ok(()) }} pub fn flush() -> Result<(), Error> {{ pro::flush_metrics_states()?; \
             slogger::flush_metrics_states()?; Ok(()) }}",
            pro, slogger
        )
    );
    assert_eq!(modules_code(&vec![w("pro"), None], &fields).err(), Some(MacroArgError::UnexpectedArg));
}
