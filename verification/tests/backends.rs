use parity_common::macros::code::{metrics_code, Piece};
use parity_common::macros::grammar::{parse_metrics_call, Delim, Tok};
use parity_common::backends::empty::{self, Empty};
use parity_common::backends::pro::{gauge_values, Counter, Pro, TimerGauges};
use parity_common::backends::slogger::{SlogSink, Slogger};
use parity_common::backends::{Backend, Counter as CounterTrait, GlobalCommonDef, MetricsError, OutputDelay, OutputDest, Timer as TimerTrait};
use parity_common::metrics::pro_backend::by;
use parity_common::time::Duration;
use parity_common::timer::TimerState;

fn ident(s: &str) -> Tok {
    Tok::Ident(s.to_string())
}

#[test]
fn test_macros() {
    // mets!(fast_only, a_int_counter, by(1), warn, target "anything", "some additional logs {}", 123)
    let toks = vec![
        ident("from_crate"), Tok::Open(Delim::Paren), ident("$crate"), Tok::Close(Delim::Paren),
        Tok::Open(Delim::Bracket), ident("pro"), Tok::Close(Delim::Bracket), Tok::Punct(','),
        ident("a_int_counter"), Tok::Punct(','), ident("by"), Tok::Open(Delim::Paren), Tok::Literal,
        Tok::Close(Delim::Paren), Tok::Punct(','), ident("warn"), Tok::Punct(','), ident("target"),
        Tok::Literal, Tok::Punct(','), Tok::Literal, Tok::Punct(','), Tok::Literal,
    ];
    let call = parse_metrics_call(&toks).ok().unwrap();
    assert_eq!(call.hidden_crate, Some("$crate".to_string()));
    assert_eq!(call.level, Some("warn".to_string()));
    assert_eq!(call.n_action_args, 1);
    assert_eq!(call.exprs, vec![(12, 13), (18, 19), (20, 21), (22, 23)]);
    let code = metrics_code(&call);
    assert_eq!(code.iter().filter(|p| matches!(p, Piece::Crate)).count(), 3);
    // mets!(a_int_counter, inc())
    let toks = vec![
        ident("from_crate"), Tok::Open(Delim::Paren), ident("$crate"), Tok::Close(Delim::Paren),
        Tok::Open(Delim::Bracket), ident("pro"), Tok::Punct(','), ident("slogger"), Tok::Close(Delim::Bracket),
        Tok::Punct(','), ident("a_int_counter"), Tok::Punct(','), ident("inc"), Tok::Open(Delim::Paren),
        Tok::Close(Delim::Paren),
    ];
    let call = parse_metrics_call(&toks).ok().unwrap();
    assert_eq!(call.backends, vec!["pro".to_string(), "slogger".to_string()]);
    assert_eq!(call.level, None);
    assert_eq!(metrics_code(&call).len(), 2 * 10);
    // what those calls do on the Prometheus backend: one counter
    // incremented by one, then by a given amount
    let registry = prometheus::Registry::new();
    let counter = Counter::create("a_int_counter", &registry).ok().unwrap();
    counter.inc_by(1);
    counter.inc();
    by::a_int_counter(&counter, 123);
}

#[test]
fn default_file_paths() {
    assert_eq!(Pro::unwrap_file_path(&None), "./test_metrics_pro");
    assert_eq!(Slogger::unwrap_file_path(&None), "./logjson_slogger");
    assert_eq!(Empty::unwrap_file_path(&None), "./dummy_empty");
    assert_eq!(Pro::unwrap_file_path(&Some("/tmp/m".to_string())), "/tmp/m");
}

#[test]
fn default_confs_and_periods() {
    let c = Pro::default_conf();
    let d = Pro::write_period(&c).unwrap();
    assert_eq!(d.as_secs(), 10);
    assert_eq!(d.subsec_nanos(), 0);
    assert!(Pro::start_metrics(&c).is_some());
    assert!(Slogger::write_period(&Slogger::default_conf()).is_none());
    assert!(Empty::write_period(&Empty::default_conf()).is_none());
    let unlimited = GlobalCommonDef { dest: OutputDest::Logger, out_delay: OutputDelay::Unlimited };
    assert!(Pro::write_period(&unlimited).is_none());
}

#[test]
fn pro_file_plan_names_backups() {
    let c = GlobalCommonDef { dest: OutputDest::File(None), out_delay: OutputDelay::Synch };
    let f = Pro::file_plan(&c);
    assert_eq!(f.path, "./test_metrics_pro");
    assert_eq!(f.path_old, "./test_metrics_pro.old");
    assert_eq!(f.path_bu, "./test_metrics_pro.prev");
    let c = GlobalCommonDef { dest: OutputDest::File(Some("out/metrics.txt".to_string())), out_delay: OutputDelay::Synch };
    let f = Pro::file_plan(&c);
    assert_eq!(f.path_old, "out/metrics.old");
    assert_eq!(f.path_bu, "out/metrics.prev");
}

#[test]
fn slogger_sinks() {
    let c = Slogger::default_conf();
    assert!(matches!(Slogger::sink(&c), SlogSink::Stderr));
    let c = GlobalCommonDef { dest: OutputDest::File(None), out_delay: OutputDelay::Synch };
    match Slogger::sink(&c) {
        SlogSink::File(p) => assert_eq!(p, "./logjson_slogger"),
        SlogSink::Stderr => panic!("expected a file"),
    }
    assert!(Slogger::start_metrics(&c).is_ok());
    assert!(Slogger::async_write().is_ok());
}

#[test]
fn counter_names_are_checked() {
    let registry = prometheus::Registry::new();
    assert_eq!(Counter::create("1abc", &registry).err(), Some(MetricsError::InvalidMetric));
    assert_eq!(Counter::create("", &registry).err(), Some(MetricsError::InvalidMetric));
    assert_eq!(Counter::create("bad-name", &registry).err(), Some(MetricsError::InvalidMetric));
    assert!(Counter::create("ok:name_1", &registry).is_ok());
    // the same name twice cannot be registered
    assert_eq!(Counter::create("ok:name_1", &registry).err(), Some(MetricsError::Registration));
    assert!(<Counter as CounterTrait>::init("via_trait", &registry).is_ok());
}

#[test]
fn timer_gauges_follow_state() {
    let registry = prometheus::Registry::new();
    let g = TimerGauges::create("a_timer_counter", &registry).ok().unwrap();
    let mut s = TimerState::new();
    s.add(&Duration::new(2, 5));
    g.write(&s);
    assert_eq!(TimerGauges::create("no good", &registry).err(), Some(MetricsError::InvalidMetric));
    assert_eq!(TimerGauges::create("a_timer_counter", &registry).err(), Some(MetricsError::Registration));
}

#[test]
fn gauge_values_split_and_wrap() {
    assert_eq!(gauge_values(&Duration::new(7, 123)), (7, 123));
    assert_eq!(gauge_values(&Duration::new(u64::MAX, 1)), (-1, 1));
    assert_eq!(gauge_values(&Duration::new(1u64 << 63, 0)), (i64::MIN, 0));
}

#[test]
fn empty_backend_does_nothing() {
    let conf = Empty::default_conf();
    let st = Empty::init_states(&conf).ok().unwrap();
    assert!(Empty::start_metrics(&st, conf).is_ok());
    assert!(Empty::async_write(&st).is_ok());
    let c = <empty::Counter as CounterTrait>::init("x", &st).ok().unwrap();
    c.inc();
    c.by(-3);
    let t = <empty::Timer as TimerTrait>::init("t", &st).ok().unwrap();
    t.start();
    t.suspend();
    t.add(Duration::from_secs(1));
}

#[test]
fn counter_registration_outcome() {
    let registry = prometheus::Registry::new();
    let c = Counter::create("named_counter", &registry).ok().unwrap();
    assert_eq!(c.0.name, "named_counter");
    assert_eq!(c.0.help, "help...");
    let other = prometheus::Registry::new();
    let d = Counter::create("named_counter", &other).ok().unwrap();
    assert_eq!(Counter::registered(c.0, Err(prometheus::Error::AlreadyReg)).err(), Some(MetricsError::Registration));
    let kept = Counter::registered(d.0, Ok(())).ok().unwrap();
    assert_eq!(kept.0.name, "named_counter");
}

#[test]
fn timer_gauges_carry_their_names_and_help() {
    let registry = prometheus::Registry::new();
    let g = TimerGauges::create("named_timer", &registry).ok().unwrap();
    assert_eq!(g.secs.name, "named_timer");
    assert_eq!(g.secs.help, "secs");
    assert_eq!(g.nanos.name, "named_timer_n");
    assert_eq!(g.nanos.help, "nanos");
}
