//! The liveness probe.

use vstd::prelude::*;

verus! {

/// The text every liveness probe answers with.
pub open spec fn health_text() -> Seq<char> {
    "OK"@
}

/// Answers a liveness probe. The answer is the same fixed text whatever
/// the state of any store.
pub fn health_check() -> (body: &'static str)
    ensures
        body@ == health_text(),
{
    "OK"
}

} // verus!
