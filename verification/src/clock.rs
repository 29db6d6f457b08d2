//! The time of day, as text.

use vstd::prelude::*;

verus! {

/// `chrono::Local::now`, written by `DateTime::format` in `layout`: the local
/// time at the moment of the call. Nothing is claimed of the text, which
/// differs from call to call. Only the two layouts that the library uses are
/// admitted, both of which `format` accepts. `now` itself gives up where the
/// machine's clock stands before 1970 or its time zone cannot be told; no
/// argument decides that.
#[verifier::external_body]
pub(crate) fn local_time(layout: &str) -> (text: String)
    requires
        layout@ == "%H-%M-%S-%f"@ || layout@ == "%Y-%m-%d_%H-%M-%S"@,
{
    chrono::Local::now().format(layout).to_string()
}

} // verus!
