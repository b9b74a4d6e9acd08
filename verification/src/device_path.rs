//! Device-path resolution: pick the serial device path from a configured
//! value, falling back to a fixed default when none is present or the
//! configured value is not valid text. Resolution never fails: it always
//! returns a usable path.

use vstd::prelude::*;
use vstd::string::StringExecFns;

verus! {

/// The fixed fallback device path.
pub open spec fn default_path_spec() -> Seq<char> {
    "COM3"@
}

/// The path a configured value resolves to: the value itself when one is
/// present, and the default path otherwise.
pub open spec fn resolve_path_spec(configured: Option<Seq<char>>) -> Seq<char> {
    match configured {
        Some(path) => path,
        None => default_path_spec(),
    }
}

/// Resolve the device path from the configured value, if any. A missing or
/// invalid configuration (passed as `None`) falls back to the default path.
pub fn resolve_path(configured: Option<String>) -> (path: String)
    ensures
        path@ == resolve_path_spec(match configured {
            Some(s) => Some(s@),
            None => None,
        }),
{
    match configured {
        Some(path) => path,
        None => String::from_str("COM3"),
    }
}

/// Idempotence: resolving the device path is a pure function of the
/// configured value, so two resolutions under the same configuration yield
/// the same path.
pub proof fn lemma_resolve_path_idempotent(first: Option<Seq<char>>, second: Option<Seq<char>>)
    requires
        first == second,
    ensures
        resolve_path_spec(first) == resolve_path_spec(second),
{
}

} // verus!
