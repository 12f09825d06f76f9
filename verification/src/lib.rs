//! Verified core of a light-curve feature-extraction service.
//!
//! Clients submit light curves: sequences of (time, magnitude, error)
//! observations. The library validates them, orders them by time, packages
//! them into parallel time series, composes named feature banks, and merges
//! per-bank outputs into a single flat name/value mapping. Floating-point
//! samples are carried as their IEEE-754 bit patterns (`u64`), which the
//! verified logic orders and routes without interpreting them numerically;
//! the numeric feature evaluators themselves are an outside library that a
//! thin unverified shell drives.

use vstd::prelude::*;

pub mod bank;
pub mod blueprint;
pub mod curve;
pub mod merge;
pub mod error;
pub mod order;
pub mod pipeline;
pub mod series;
pub mod version;

verus! {

/// Location of the project documentation that the service's help endpoint
/// redirects to.
pub fn help() -> (r: &'static str)
    ensures
        r@ == "https://github.com/hombit/web-light-curve-features"@,
{
    "https://github.com/hombit/web-light-curve-features"
}

} // verus!
