//! Where the application's bundled files live.

use vstd::prelude::*;
use vstd::string::*;

verus! {

/// Path of the bundled file `file`.
pub fn get(file: String) -> (path: String)
    ensures
        path@ == "resources/"@ + file@,
{
    String::from_str("resources/").concat(file.as_str())
}

} // verus!
