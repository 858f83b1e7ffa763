//! The JSON log backend: each counter or timer event is one log record.
use vstd::prelude::*;

use crate::backends::{file_path_spec, opt_path_view, Backend, GlobalCommonDef, MetricsError, OutputDelay, OutputDest};

verus! {

/// Capacity of the channel between the logging threads and the writer.
pub const CHANNEL_SIZE: usize = 262144;

/// Where the JSON log records go.
pub enum SlogSink {
    /// The standard error stream.
    Stderr,
    /// A file, appended to where it exists and created where it does not.
    File(String),
}

/// The JSON log backend.
pub struct Slogger;

impl Backend for Slogger {
    open spec fn file_id_spec() -> Seq<char> {
        "slogger"@
    }

    open spec fn default_file_output_spec() -> Seq<char> {
        "./logjson"@
    }

    fn file_id() -> (s: &'static str) {
        "slogger"
    }

    fn default_file_output() -> (s: &'static str) {
        "./logjson"
    }

    fn default_conf() -> (c: GlobalCommonDef)
        ensures
            c.dest is Logger,
            c.out_delay is Synch,
    {
        GlobalCommonDef { dest: OutputDest::Logger, out_delay: OutputDelay::Synch }
    }
}

impl Slogger {
    /// Where the records of a configuration go: the standard error stream
    /// for the logger destination, the file's path for a file destination.
    /// Telemetry is not supported.
    pub fn sink(config: &GlobalCommonDef) -> (s: SlogSink)
        requires
            !(config.dest is Telemetry),
        ensures
            config.dest is Logger ==> s is Stderr,
            config.dest matches OutputDest::File(opath) ==> s matches SlogSink::File(p) && p@
                == file_path_spec(opt_path_view(opath), "./logjson"@, "slogger"@),
    {
        match &config.dest {
            OutputDest::Logger => SlogSink::Stderr,
            OutputDest::File(opath) => SlogSink::File(Self::unwrap_file_path(opath)),
            OutputDest::Telemetry => {
                proof {
                    assert(false);
                }
                SlogSink::Stderr
            },
        }
    }

    /// The records are written by the logger's own thread: nothing starts.
    pub fn start_metrics(_conf: &GlobalCommonDef) -> (r: Result<(), MetricsError>)
        ensures
            r is Ok,
    {
        Ok(())
    }

    /// The logger writes by itself: nothing to do.
    pub fn async_write() -> (r: Result<(), MetricsError>)
        ensures
            r is Ok,
    {
        Ok(())
    }
}

} // verus!
