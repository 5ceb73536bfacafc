//! How much the console logs.

use vstd::prelude::*;

verus! {

/// The log filter for a verbosity: each step lets one more level through,
/// and from four on everything is logged.
pub open spec fn filter_for(verbose: u8) -> Seq<char> {
    if verbose == 0 {
        "error"@
    } else if verbose == 1 {
        "warn"@
    } else if verbose == 2 {
        "info"@
    } else if verbose == 3 {
        "debug"@
    } else {
        "trace"@
    }
}

/// The log filter for a verbosity.
pub fn filter_directive(verbose: u8) -> (r: &'static str)
    ensures
        r@ == filter_for(verbose),
{
    match verbose {
        0 => "error",
        1 => "warn",
        2 => "info",
        3 => "debug",
        _ => "trace",
    }
}

} // verus!
