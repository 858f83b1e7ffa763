//! The backend that records nothing.
use vstd::prelude::*;

use crate::backends::{Backend, MetricsError, GlobalCommonDef, OutputDelay, OutputDest};
use crate::time::Duration;

verus! {

/// A counter that counts nothing.
#[derive(Clone)]
pub struct Counter;

impl crate::backends::Counter for Counter {
    type GlobalStates = GlobalStates;

    fn init(_name: &'static str, _gl: &GlobalStates) -> (r: Result<Self, MetricsError>)
        ensures
            r == Ok::<Counter, MetricsError>(Counter),
    {
        Ok(Counter)
    }

    fn inc(&self) {
    }

    fn by(&self, _nb: i64) {
    }
}

/// A timer that measures nothing.
#[derive(Clone)]
pub struct Timer;

impl crate::backends::Timer for Timer {
    type GlobalStates = GlobalStates;

    fn init(_name: &'static str, _gl: &GlobalStates) -> (r: Result<Self, MetricsError>)
        ensures
            r == Ok::<Timer, MetricsError>(Timer),
    {
        Ok(Timer)
    }

    fn start(&self) {
    }

    fn suspend(&self) {
    }

    fn add(&self, _dur: Duration) {
    }
}

/// The empty backend's states hold nothing.
#[derive(Clone)]
pub struct GlobalStates;

/// The backend that records nothing.
pub struct Empty;

impl Backend for Empty {
    open spec fn file_id_spec() -> Seq<char> {
        "empty"@
    }

    open spec fn default_file_output_spec() -> Seq<char> {
        "./dummy"@
    }

    fn file_id() -> (s: &'static str) {
        "empty"
    }

    fn default_file_output() -> (s: &'static str) {
        "./dummy"
    }

    fn default_conf() -> (c: GlobalCommonDef)
        ensures
            c.dest is Logger,
            c.out_delay is Synch,
    {
        GlobalCommonDef { dest: OutputDest::Logger, out_delay: OutputDelay::Synch }
    }
}

impl Empty {
    /// Nothing to start.
    pub fn start_metrics(_state: &GlobalStates, _conf: GlobalCommonDef) -> (r: Result<(), MetricsError>)
        ensures
            r is Ok,
    {
        Ok(())
    }

    /// Nothing to write.
    pub fn async_write(_states: &GlobalStates) -> (r: Result<(), MetricsError>)
        ensures
            r is Ok,
    {
        Ok(())
    }

    /// The states of the empty backend.
    pub fn init_states(_config: &GlobalCommonDef) -> (r: Result<GlobalStates, MetricsError>)
        ensures
            r is Ok,
    {
        Ok(GlobalStates)
    }
}

} // verus!
