//! The name and the version of the program, and the name of its settings
//! file.

use vstd::prelude::*;

verus! {

/// Name of the program as it is shown.
pub const PACKAGE_NAME: &'static str = "ezboom";

/// Name of the program as it is written in file names.
pub const PACKAGE_TARNAME: &'static str = "ezboom";

/// Version of the program.
pub const PACKAGE_VERSION: &'static str = "0.1.0";

/// Name of the settings file in the directory of the program's files.
pub const BOOM_CFG: &'static str = "ezboom.cfg";

} // verus!
