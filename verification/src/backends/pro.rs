//! The Prometheus backend: counters and timer gauges in a registry, written
//! out as text to a file that is backed up before each write.
use vstd::prelude::*;
use vstd::string::*;

use prometheus::{IntCounter, IntGauge, Registry};

use crate::backends::{Backend, MetricsError, GlobalCommonDef, OutputDelay, OutputDest};
use crate::time::{Duration, NANOS_PER_SEC};
use crate::timer::TimerState;

verus! {

/// A Prometheus integer counter, held in a field that only the wrappers
/// below touch.
#[verifier::external_body]
pub struct IntCounterHandle {
    inner: IntCounter,
}

/// A Prometheus integer counter, with the name and the help text of its
/// descriptor.
pub struct IntCounterCell {
    pub handle: IntCounterHandle,
    pub name: String,
    pub help: String,
}

/// A Prometheus integer gauge, held as the counter is.
#[verifier::external_body]
pub struct IntGaugeHandle {
    inner: IntGauge,
}

/// A Prometheus integer gauge, with the name and the help text of its
/// descriptor.
pub struct IntGaugeCell {
    pub handle: IntGaugeHandle,
    pub name: String,
    pub help: String,
}

#[verifier::external_type_specification]
#[verifier::external_body]
pub struct ExRegistry(Registry);

#[verifier::external_type_specification]
#[verifier::external_body]
pub struct ExPrometheusError(prometheus::Error);

/// A character that may start a metric name: `[a-zA-Z_:]`.
pub open spec fn metric_name_head(c: char) -> bool {
    ('a' <= c && c <= 'z') || ('A' <= c && c <= 'Z') || c == '_' || c == ':'
}

/// A character that may follow in a metric name: `[a-zA-Z0-9_:]`.
pub open spec fn metric_name_tail(c: char) -> bool {
    metric_name_head(c) || ('0' <= c && c <= '9')
}

/// A valid Prometheus metric name: `[a-zA-Z_:][a-zA-Z0-9_:]*`.
pub open spec fn valid_metric_name(name: Seq<char>) -> bool {
    &&& name.len() > 0
    &&& metric_name_head(name[0])
    &&& forall|i: int| 1 <= i < name.len() ==> metric_name_tail(#[trigger] name[i])
}

/// Whether the metric options `name` and `help` describe a metric: the
/// help text is not empty and the name is valid.
pub open spec fn metric_accepted(name: Seq<char>, help: Seq<char>) -> bool {
    help.len() > 0 && valid_metric_name(name)
}

/// `prometheus::IntCounter::with_opts(Opts::new(name, help))`, with the
/// fully-qualified name and the help text of the new counter's descriptor.
/// Per the crate's source (`Desc::new`), it fails exactly where the help text
/// is empty or the name is no valid metric name; with no namespace and no
/// subsystem, the descriptor's name is `name` and its help text is `help`.
/// The new counter's value is not stated: counters are shared and change
/// through shared references.
#[verifier::external_body]
fn int_counter_with_opts(name: &str, help: &str) -> (r: Result<IntCounterCell, prometheus::Error>)
    ensures
        r is Ok <==> metric_accepted(name@, help@),
        r matches Ok(c) ==> c.name@ == name@ && c.help@ == help@,
{
    match IntCounter::with_opts(prometheus::Opts::new(name, help)) {
        Ok(inner) => {
            let desc = prometheus::core::Collector::desc(&inner)[0].clone();
            Ok(IntCounterCell { handle: IntCounterHandle { inner }, name: desc.fq_name, help: desc.help })
        },
        Err(e) => Err(e),
    }
}

/// `prometheus::IntGauge::with_opts(Opts::new(name, help))`, with the
/// fully-qualified name and the help text of the new gauge's descriptor:
/// fails exactly where `metric_accepted` fails, and names the descriptor
/// `name` with the help text `help`, as for counters.
#[verifier::external_body]
fn int_gauge_with_opts(name: &str, help: &str) -> (r: Result<IntGaugeCell, prometheus::Error>)
    ensures
        r is Ok <==> metric_accepted(name@, help@),
        r matches Ok(g) ==> g.name@ == name@ && g.help@ == help@,
{
    match IntGauge::with_opts(prometheus::Opts::new(name, help)) {
        Ok(inner) => {
            let desc = prometheus::core::Collector::desc(&inner)[0].clone();
            Ok(IntGaugeCell { handle: IntGaugeHandle { inner }, name: desc.fq_name, help: desc.help })
        },
        Err(e) => Err(e),
    }
}

/// `Registry::register` for a counter. Whether it succeeds depends on what
/// the registry holds already, so nothing is stated of the result.
#[verifier::external_body]
fn register_counter(registry: &Registry, counter: &IntCounterCell) -> (r: Result<(), prometheus::Error>) {
    registry.register(Box::new(counter.handle.inner.clone()))
}

/// `Registry::register` for a gauge; nothing is stated of the result.
#[verifier::external_body]
fn register_gauge(registry: &Registry, gauge: &IntGaugeCell) -> (r: Result<(), prometheus::Error>) {
    registry.register(Box::new(gauge.handle.inner.clone()))
}

/// `IntCounter::inc`. The counter is shared, so its new value is not stated.
#[verifier::external_body]
fn counter_inc(counter: &IntCounterCell) {
    counter.handle.inner.inc()
}

/// `IntCounter::inc_by`. The counter is shared, so its new value is not stated.
#[verifier::external_body]
fn counter_inc_by(counter: &IntCounterCell, v: u64) {
    counter.handle.inner.inc_by(v)
}

/// `IntGauge::set`. The gauge is shared, so its new value is not stated.
#[verifier::external_body]
fn gauge_set(gauge: &IntGaugeCell, v: i64) {
    gauge.handle.inner.set(v)
}

/// An integer counter registered with a Prometheus registry.
pub struct Counter(pub IntCounterCell);

impl Counter {
    /// A new counter named `name`, registered with `registry`. It is refused
    /// as `InvalidMetric` exactly where `name` is no valid metric name; where
    /// it is valid, registration may still fail, as `Registration`.
    pub fn create(name: &str, registry: &Registry) -> (r: Result<Counter, MetricsError>)
        ensures
            r == Err::<Counter, MetricsError>(MetricsError::InvalidMetric) <==> !valid_metric_name(name@),
            r is Err ==> r == Err::<Counter, MetricsError>(MetricsError::InvalidMetric) || r == Err::<
                Counter,
                MetricsError,
            >(MetricsError::Registration),
            r matches Ok(c) ==> c.0.name@ == name@ && c.0.help@ == "help..."@,
    {
        let help = "help...";
        proof {
            reveal_strlit("help...");
        }
        match int_counter_with_opts(name, help) {
            Err(_) => Err(MetricsError::InvalidMetric),
            Ok(counter) => {
                let outcome = register_counter(registry, &counter);
                Counter::registered(counter, outcome)
            },
        }
    }

    /// What a registration leaves: the counter where `outcome` says it was
    /// registered, `Registration` where it was refused.
    pub fn registered(counter: IntCounterCell, outcome: Result<(), prometheus::Error>) -> (r: Result<
        Counter,
        MetricsError,
    >)
        ensures
            outcome is Ok ==> (r matches Ok(c) && c.0 == counter),
            outcome is Err ==> r == Err::<Counter, MetricsError>(MetricsError::Registration),
    {
        match outcome {
            Ok(()) => Ok(Counter(counter)),
            Err(_) => Err(MetricsError::Registration),
        }
    }
}

impl Counter {
    /// Count `nb` more events. Counters only go up.
    pub fn inc_by(&self, nb: i64)
        requires
            nb >= 0,
    {
        counter_inc_by(&self.0, nb as u64)
    }
}

impl crate::backends::Counter for Counter {
    type GlobalStates = Registry;

    fn init(name: &'static str, gl: &Registry) -> (r: Result<Self, MetricsError>)
        ensures
            r == Err::<Counter, MetricsError>(MetricsError::InvalidMetric) <==> !valid_metric_name(name@),
    {
        Counter::create(name, gl)
    }

    fn inc(&self) {
        counter_inc(&self.0)
    }

    /// Prometheus counters only go up.
    open spec fn accepts_increment(nb: i64) -> bool {
        nb >= 0
    }

    fn by(&self, nb: i64) {
        self.inc_by(nb)
    }
}

/// The gauges of a timer: whole seconds under the timer's name, and the
/// nanoseconds beyond them under the name with `_n` appended.
pub struct TimerGauges {
    pub secs: IntGaugeCell,
    pub nanos: IntGaugeCell,
}

/// The name of the gauge of a timer's nanoseconds.
pub open spec fn nanos_gauge_name(name: Seq<char>) -> Seq<char> {
    name + "_n"@
}

impl TimerGauges {
    /// The two gauges of the timer `name`, registered with `registry`.
    /// They are refused as `InvalidMetric` exactly where `name` is no valid
    /// metric name; registration may still fail, as `Registration`.
    pub fn create(name: &str, registry: &Registry) -> (r: Result<TimerGauges, MetricsError>)
        ensures
            r == Err::<TimerGauges, MetricsError>(MetricsError::InvalidMetric) <==> !valid_metric_name(name@),
            r is Err ==> r == Err::<TimerGauges, MetricsError>(MetricsError::InvalidMetric) || r == Err::<
                TimerGauges,
                MetricsError,
            >(MetricsError::Registration),
            r matches Ok(g) ==> g.secs.name@ == name@ && g.secs.help@ == "secs"@ && g.nanos.name@
                == nanos_gauge_name(name@) && g.nanos.help@ == "nanos"@,
    {
        proof {
            reveal_strlit("secs");
            reveal_strlit("nanos");
            reveal_strlit("_n");
        }
        let secs = match int_gauge_with_opts(name, "secs") {
            Ok(g) => g,
            Err(_) => return Err(MetricsError::InvalidMetric),
        };
        let mut nanos_name = String::from_str(name);
        nanos_name.append("_n");
        proof {
            lemma_suffix_keeps_validity(name@, "_n"@);
        }
        let nanos = match int_gauge_with_opts(nanos_name.as_str(), "nanos") {
            Ok(g) => g,
            Err(_) => return Err(MetricsError::InvalidMetric),
        };
        match register_gauge(registry, &secs) {
            Ok(()) => {},
            Err(_) => return Err(MetricsError::Registration),
        }
        match register_gauge(registry, &nanos) {
            Ok(()) => {},
            Err(_) => return Err(MetricsError::Registration),
        }
        Ok(TimerGauges { secs, nanos })
    }

    /// Set the gauges to the total that `state` has measured.
    pub fn write(&self, state: &TimerState) {
        let (secs, nanos) = gauge_values(&state.duration);
        gauge_set(&self.secs, secs);
        gauge_set(&self.nanos, nanos);
    }
}

/// Appending a suffix of tail characters to a valid name keeps it valid.
proof fn lemma_suffix_keeps_validity(name: Seq<char>, suffix: Seq<char>)
    requires
        valid_metric_name(name),
        forall|i: int| 0 <= i < suffix.len() ==> metric_name_tail(#[trigger] suffix[i]),
    ensures
        valid_metric_name(name + suffix),
{
    let full = name + suffix;
    assert forall|i: int| 1 <= i < full.len() implies metric_name_tail(#[trigger] full[i]) by {
        if i >= name.len() {
            assert(full[i] == suffix[i - name.len()]);
        }
    }
}

/// A `u64` as an `i64` by two's complement, as `as i64` does.
pub open spec fn wrap_i64(x: nat) -> int {
    if x <= i64::MAX {
        x as int
    } else {
        x - 0x1_0000_0000_0000_0000
    }
}

/// The gauge values of a measured total: its whole seconds, taken as an
/// `i64` the way `as` does, and its nanoseconds beyond them.
pub fn gauge_values(d: &Duration) -> (r: (i64, i64))
    ensures
        r.0 == wrap_i64(d@ / (NANOS_PER_SEC as nat)),
        r.1 == d@ % (NANOS_PER_SEC as nat),
{
    let secs = d.as_secs();
    let s: i64 = if secs <= i64::MAX as u64 {
        secs as i64
    } else {
        (secs - 0x8000_0000_0000_0000u64) as i64 + i64::MIN
    };
    (s, d.subsec_nanos() as i64)
}

/// A path with its extension set to `ext`, as `PathBuf::set_extension`
/// makes it.
pub uninterp spec fn path_with_extension(path: Seq<char>, ext: Seq<char>) -> Seq<char>;

/// No character of `s` is a path separator (`/`, or `\\` on Windows).
pub open spec fn has_no_separator(s: Seq<char>) -> bool {
    forall|i: int| 0 <= i < s.len() ==> #[trigger] s[i] != '/' && s[i] != '\\'
}

/// `std::path::PathBuf::set_extension` on `path`; the result is named by
/// `path_with_extension` and depends on the arguments alone. It panics where
/// the extension holds a path separator, which `requires` leaves out.
#[verifier::external_body]
fn set_extension(path: &String, ext: &str) -> (r: String)
    requires
        has_no_separator(ext@),
    ensures
        r@ == path_with_extension(path@, ext@),
{
    let mut p = std::path::PathBuf::from(path.as_str());
    p.set_extension(ext);
    p.to_string_lossy().into_owned()
}

/// The files of the Prometheus backend: the output, where the previous
/// output is moved to on start (`.old`), and the backup made before each
/// write (`.prev`).
pub struct ProFiles {
    pub path: String,
    pub path_old: String,
    pub path_bu: String,
}

/// The Prometheus backend.
pub struct Pro;

impl Backend for Pro {
    open spec fn file_id_spec() -> Seq<char> {
        "pro"@
    }

    open spec fn default_file_output_spec() -> Seq<char> {
        "./test_metrics"@
    }

    fn file_id() -> (s: &'static str) {
        "pro"
    }

    fn default_file_output() -> (s: &'static str) {
        "./test_metrics"
    }

    fn default_conf() -> (c: GlobalCommonDef)
        ensures
            c.dest == OutputDest::File(None),
            c.out_delay matches OutputDelay::Periodic(d) && d@ == 10 * NANOS_PER_SEC,
    {
        GlobalCommonDef {
            dest: OutputDest::File(None),
            out_delay: OutputDelay::Periodic(Duration::from_secs(10)),
        }
    }
}

impl Pro {
    /// The files that the states of a file destination use. Only file
    /// destinations are supported.
    pub fn file_plan(config: &GlobalCommonDef) -> (f: ProFiles)
        requires
            config.dest is File,
        ensures
            f.path@ == crate::backends::file_path_spec(
                crate::backends::opt_path_view(config.dest->File_0),
                "./test_metrics"@,
                "pro"@,
            ),
            f.path_old@ == path_with_extension(f.path@, "old"@),
            f.path_bu@ == path_with_extension(f.path@, "prev"@),
    {
        match &config.dest {
            OutputDest::File(opath) => {
                proof {
                    reveal_strlit("old");
                    reveal_strlit("prev");
                }
                let path = Self::unwrap_file_path(opath);
                let path_old = set_extension(&path, "old");
                let path_bu = set_extension(&path, "prev");
                ProFiles { path, path_old, path_bu }
            },
            _ => {
                proof {
                    assert(false);
                }
                ProFiles { path: String::new(), path_old: String::new(), path_bu: String::new() }
            },
        }
    }

    /// Background writes run where the configuration asks for a period.
    pub fn start_metrics(conf: &GlobalCommonDef) -> (d: Option<Duration>)
        ensures
            match d {
                Some(p) => crate::backends::write_period_spec(*conf) == Some(p@),
                None => crate::backends::write_period_spec(*conf) is None,
            },
    {
        Self::write_period(conf)
    }
}

} // verus!
