//! What the program asks of the system it runs on.

use std::time::{SystemTime, UNIX_EPOCH};
use vstd::prelude::*;
use vstd::string::*;

use crate::defs::{PACKAGE_NAME, PACKAGE_VERSION};

verus! {

/// The name of the program and its version, as in `ezboom v0.1.0`.
pub fn version_string() -> (r: String)
    ensures
        r@ == PACKAGE_NAME@ + " v"@ + PACKAGE_VERSION@,
{
    let mut r = PACKAGE_NAME.to_owned();
    r.append(" v");
    r.append(PACKAGE_VERSION);
    r
}

/// `std::time::SystemTime::now`, as seconds since the beginning of 1970.
/// Nothing is promised of the result: it is whatever the clock of the
/// machine says, and 0 where the clock stands before 1970.
#[verifier::external_body]
pub fn get_random_time_seed() -> (seconds: u64) {
    SystemTime::now().duration_since(UNIX_EPOCH).map(|d| d.as_secs()).unwrap_or(0)
}

} // verus!
