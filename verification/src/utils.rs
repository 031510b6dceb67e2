//! Small shared helpers: cache file naming.

use vstd::prelude::*;
use vstd::string::StringExecFns;

verus! {

/// The file name under which the function list for a profile and
/// region is cached; the caller resolves it inside its cache
/// directory.
pub fn get_functions_cache_path(profile_name: &str, region: &str) -> (r: String)
    ensures
        r@ == "functions_"@ + profile_name@ + "_"@ + region@ + ".cache"@,
{
    let mut r = String::from_str("functions_");
    r.append(profile_name);
    r.append("_");
    r.append(region);
    r.append(".cache");
    r
}

} // verus!
