//! The runtime's identification string.
//!
//! The string is constant over the process lifetime, never empty, and
//! carries a single terminating nul byte so the host can treat it as a
//! C string.

use vstd::prelude::*;

verus! {

/// The identification text, including its terminating nul character.
pub open spec fn version_text_spec() -> Seq<char> {
    "Wasmer iOS Runtime v0.1.0\u{0}"@
}

/// Produce the identification string: non-empty, nul-terminated, with no
/// interior nul, and the same on every call.
pub fn version_text() -> (r: String)
    ensures
        r@ == version_text_spec(),
        r@.len() > 1,
        r@[r@.len() - 1] == '\u{0}',
        forall|i: int| 0 <= i < r@.len() - 1 ==> r@[i] != '\u{0}',
{
    let text: String = "Wasmer iOS Runtime v0.1.0\u{0}".to_owned();
    proof {
        reveal_strlit("Wasmer iOS Runtime v0.1.0\u{0}");
    }
    text
}

} // verus!
