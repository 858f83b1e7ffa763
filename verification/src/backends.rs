//! Metrics backends: configuration, and what each backend decides.
//!
//! A backend (`Empty`, `Pro` for Prometheus, `Slogger` for JSON logs) owns
//! global states, hands out counters and timers, and writes its metrics out,
//! at once or periodically.
use vstd::prelude::*;
use vstd::string::*;

use crate::time::Duration;

pub mod empty;
pub mod pro;
pub mod slogger;

verus! {

/// Where a backend writes its output.
#[derive(Clone)]
pub enum OutputDest {
    /// A file: the given path, or where `None` the backend's default path.
    File(Option<String>),
    /// Through the logger.
    Logger,
    /// To a telemetry service.
    Telemetry,
}

/// When a backend writes its output.
#[derive(Clone)]
pub enum OutputDelay {
    /// On each event.
    Synch,
    /// Once per period.
    Periodic(Duration),
    /// Never by itself.
    Unlimited,
}

/// Configuration common to all backends.
#[derive(Clone)]
pub struct GlobalCommonDef {
    pub dest: OutputDest,
    /// Delay between writes; periodic writes run in the background.
    pub out_delay: OutputDelay,
}

/// Errors of the backends.
#[derive(Debug, Clone, PartialEq, Eq, Structural)]
pub enum MetricsError {
    /// A metric's name or help text was refused.
    InvalidMetric,
    /// A metric could not be registered.
    Registration,
}

/// An integer counter.
pub trait Counter: Sized {
    type GlobalStates;

    fn init(name: &'static str, gl: &Self::GlobalStates) -> Result<Self, MetricsError>;

    fn inc(&self);

    /// The increments that `by` takes: every one, unless the backend's
    /// counters only go up.
    open spec fn accepts_increment(nb: i64) -> bool {
        true
    }

    /// Count `nb` more events.
    fn by(&self, nb: i64)
        requires
            Self::accepts_increment(nb),
    ;
}

/// A timer counter.
pub trait Timer: Sized {
    type GlobalStates;

    fn init(name: &'static str, gl: &Self::GlobalStates) -> Result<Self, MetricsError>;

    fn start(&self);

    fn suspend(&self);

    fn add(&self, dur: Duration);
}

/// Placeholder of a started timer where no clock is at hand.
#[derive(Clone, Debug)]
pub struct TimerStart;

/// The path where a backend writes to a file: the given one, or the
/// default output path, `_`, and the backend's identifier.
pub open spec fn file_path_spec(
    opath: Option<Seq<char>>,
    default_output: Seq<char>,
    file_id: Seq<char>,
) -> Seq<char> {
    match opath {
        Some(p) => p,
        None => default_output + "_"@ + file_id,
    }
}

/// The period of background writes that a configuration asks for.
pub open spec fn write_period_spec(conf: GlobalCommonDef) -> Option<nat> {
    match conf.out_delay {
        OutputDelay::Periodic(d) => Some(d@),
        _ => None,
    }
}

/// The path of a file destination, seen as characters.
pub open spec fn opt_path_view(opath: Option<String>) -> Option<Seq<char>> {
    match opath {
        Some(p) => Some(p@),
        None => None,
    }
}

/// What is common to the backends.
pub trait Backend {
    /// The backend's identifier, appended to default file names.
    spec fn file_id_spec() -> Seq<char>;

    /// The backend's default output path.
    spec fn default_file_output_spec() -> Seq<char>;

    fn file_id() -> (s: &'static str)
        ensures
            s@ == Self::file_id_spec(),
    ;

    fn default_file_output() -> (s: &'static str)
        ensures
            s@ == Self::default_file_output_spec(),
    ;

    /// The backend's default configuration.
    fn default_conf() -> GlobalCommonDef;

    /// The path of a file destination: the given one, or the default.
    fn unwrap_file_path(opath: &Option<String>) -> (p: String)
        ensures
            p@ == file_path_spec(
                opt_path_view(*opath),
                Self::default_file_output_spec(),
                Self::file_id_spec(),
            ),
    {
        match opath {
            Some(path) => path.clone(),
            None => {
                let mut path = String::from_str(Self::default_file_output());
                path.append("_");
                path.append(Self::file_id());
                path
            },
        }
    }

    /// The period at which a background task writes the metrics out, if the
    /// configuration asks for one.
    fn write_period(conf: &GlobalCommonDef) -> (d: Option<Duration>)
        ensures
            match d {
                Some(p) => write_period_spec(*conf) == Some(p@),
                None => write_period_spec(*conf) is None,
            },
    {
        match &conf.out_delay {
            OutputDelay::Periodic(dur) => Some(dur.copy()),
            _ => None,
        }
    }
}

} // verus!
