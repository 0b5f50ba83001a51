//! Values of the operating system and clock that the library carries
//! without inspecting them.

use vstd::prelude::*;
use std::path::PathBuf;
use std::time::{Duration, SystemTime};

verus! {

/// A filesystem path.
#[verifier::external_type_specification]
#[verifier::external_body]
pub struct ExPathBuf(PathBuf);

/// A point in time as the system clock gives it.
#[verifier::external_type_specification]
#[verifier::external_body]
pub struct ExSystemTime(SystemTime);

/// The span `Duration::from_secs(secs)` denotes.
pub uninterp spec fn seconds_span(secs: u64) -> Duration;

/// `Duration::from_secs`: the span of `secs` whole seconds, named [`seconds_span`].
#[verifier::external_body]
pub fn seconds(secs: u64) -> (d: Duration)
    ensures
        d == seconds_span(secs),
{
    Duration::from_secs(secs)
}

} // verus!
