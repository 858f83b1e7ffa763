use parity_common::metrics::nostd_backend;
use parity_common::metrics::pro_backend::{init_counter, init_file_path};
use parity_common::metrics::{logger_default_conf, pro_default_conf, telemetry_period, GlobalCommonDef, OutputDelay, OutputDest, OutputMode};

#[test]
fn metrics_default_confs() {
    let c = pro_default_conf();
    assert_eq!(c.out_mode, OutputMode::Overwrite);
    assert!(c.out_onclose);
    assert!(!c.chan_write);
    assert_eq!(telemetry_period(&c).unwrap().as_secs(), 10);
    let l = logger_default_conf();
    assert_eq!(l.out_mode, OutputMode::Append);
    assert!(telemetry_period(&l).is_none());
}

#[test]
fn metrics_init_file_path() {
    assert_eq!(init_file_path(&pro_default_conf()), "./test_metrics");
    let c = GlobalCommonDef {
        dest: OutputDest::File(Some("x.prom".to_string())),
        out_mode: OutputMode::AppendNew,
        out_delay: OutputDelay::Unlimited,
        out_onclose: false,
        chan_write: true,
    };
    assert_eq!(init_file_path(&c), "x.prom");
}

#[test]
fn metrics_counter_and_nostd_calls() {
    let registry = prometheus::Registry::new();
    let c = init_counter(&registry).ok().unwrap();
    parity_common::metrics::pro_backend::by::a_int_counter(&c, 5);
    nostd_backend::inc::a_int_counter();
    nostd_backend::by::a_int_counter(-3);
    assert!(init_counter(&registry).is_err());
}

#[test]
fn metrics_counter_carries_its_name_and_help() {
    let registry = prometheus::Registry::new();
    let c = init_counter(&registry).ok().unwrap();
    assert_eq!(c.0.name, "A_int_counter");
    assert_eq!(c.0.help, "help...");
    assert_eq!(init_counter(&registry).err(), Some(parity_common::backends::MetricsError::Registration));
}
