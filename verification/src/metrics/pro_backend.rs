//! The Prometheus backend of the single-counter metrics.
use vstd::prelude::*;
use vstd::string::*;

use prometheus::Registry;

use crate::backends::pro::{valid_metric_name, Counter};
use crate::backends::MetricsError;
use crate::metrics::{GlobalCommonDef, OutputDest};

pub mod by;

verus! {

/// Default output path of the file destination.
pub const DEFAULT_FILE_OUTPUT: &'static str = "./test_metrics";

/// The path that the states of a file destination write to: the given one,
/// or the default. Only file destinations are supported.
pub fn init_file_path(config: &GlobalCommonDef) -> (p: String)
    requires
        config.dest is File,
    ensures
        p@ == match config.dest->File_0 {
            Some(path) => path@,
            None => "./test_metrics"@,
        },
{
    match &config.dest {
        OutputDest::File(Some(path)) => path.clone(),
        OutputDest::File(None) => String::from_str(DEFAULT_FILE_OUTPUT),
        _ => {
            proof {
                assert(false);
            }
            String::new()
        },
    }
}

/// The counter of the metrics, named `A_int_counter` with the help text
/// `help...`, and registered with `registry`. Its name is valid, so only its
/// registration can fail; whether it does depends on what the registry holds.
pub fn init_counter(registry: &Registry) -> (r: Result<Counter, MetricsError>)
    ensures
        r is Err ==> r == Err::<Counter, MetricsError>(MetricsError::Registration),
        r matches Ok(c) ==> c.0.name@ == "A_int_counter"@ && c.0.help@ == "help..."@,
{
    let name = "A_int_counter";
    proof {
        reveal_strlit("A_int_counter");
        assert(valid_metric_name(name@));
    }
    Counter::create(name, registry)
}

} // verus!
