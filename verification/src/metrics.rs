//! Metrics with a single counter, written through a configured destination.
use vstd::prelude::*;

use crate::time::{Duration, NANOS_PER_SEC};

pub mod nostd_backend;
pub mod pro_backend;

verus! {

/// Where the metrics are written.
#[derive(Clone)]
pub enum OutputDest {
    /// A file: the given path, or where `None` the backend's default path.
    File(Option<String>),
    /// Through the logger.
    Logger,
    /// To a telemetry service.
    Telemetry,
    /// To a destination of the user's own.
    Custo(String),
}

/// When the metrics are written.
#[derive(Clone)]
pub enum OutputDelay {
    Synch,
    Periodic(Duration),
    Unlimited,
}

/// How a write treats what is there already.
#[derive(Clone, Copy, Debug, PartialEq, Eq, Structural)]
pub enum OutputMode {
    /// Append content to existing content.
    Append,
    /// Append, but delete existing content on init.
    AppendNew,
    /// Overwrite on each periodic or requested write.
    Overwrite,
}

/// Configuration of the metrics output.
#[derive(Clone)]
pub struct GlobalCommonDef {
    pub dest: OutputDest,
    pub out_mode: OutputMode,
    /// Delay between writes; periodic writes run in the background.
    pub out_delay: OutputDelay,
    /// Write on close.
    pub out_onclose: bool,
    /// Listen on a channel for requested writes.
    pub chan_write: bool,
}

/// The default configuration of the Prometheus backend: overwrite a file
/// at the default path every ten seconds and on close.
pub fn pro_default_conf() -> (c: GlobalCommonDef)
    ensures
        c.dest == OutputDest::File(None),
        c.out_mode == OutputMode::Overwrite,
        c.out_delay matches OutputDelay::Periodic(d) && d@ == 10 * NANOS_PER_SEC,
        c.out_onclose,
        !c.chan_write,
{
    GlobalCommonDef {
        dest: OutputDest::File(None),
        out_mode: OutputMode::Overwrite,
        out_delay: OutputDelay::Periodic(Duration::from_secs(10)),
        out_onclose: true,
        chan_write: false,
    }
}

/// The default configuration of the log backend and of the backend without
/// the standard library: append through the logger on each event.
pub fn logger_default_conf() -> (c: GlobalCommonDef)
    ensures
        c.dest == OutputDest::Logger,
        c.out_mode == OutputMode::Append,
        c.out_delay is Synch,
        c.out_onclose,
        !c.chan_write,
{
    GlobalCommonDef {
        dest: OutputDest::Logger,
        out_mode: OutputMode::Append,
        out_delay: OutputDelay::Synch,
        out_onclose: true,
        chan_write: false,
    }
}

/// The period of background writes that a configuration asks for.
pub open spec fn telemetry_period_spec(conf: GlobalCommonDef) -> Option<nat> {
    match conf.out_delay {
        OutputDelay::Periodic(d) => Some(d@),
        _ => None,
    }
}

/// The period at which a background task writes the metrics, where the
/// configuration asks for one; otherwise no task runs.
pub fn telemetry_period(conf: &GlobalCommonDef) -> (d: Option<Duration>)
    ensures
        match d {
            Some(p) => telemetry_period_spec(*conf) == Some(p@),
            None => telemetry_period_spec(*conf) is None,
        },
{
    match &conf.out_delay {
        OutputDelay::Periodic(dur) => Some(dur.copy()),
        _ => None,
    }
}

} // verus!
