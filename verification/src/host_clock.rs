//! Wall-clock time of the host.

use std::time::UNIX_EPOCH;
use vstd::prelude::*;

verus! {

/// `std::time::SystemTime::elapsed` of the Unix epoch, in whole seconds; `None` for a time
/// before it.
///
/// Nothing is claimed of the reading: the host may set its clock to anything.
#[verifier::external_body]
pub(crate) fn host_unix_seconds() -> (seconds: Option<u64>) {
    match UNIX_EPOCH.elapsed() {
        Ok(elapsed) => Some(elapsed.as_secs()),
        Err(_) => None,
    }
}

} // verus!
