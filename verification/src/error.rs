//! Why an extraction fails.

use vstd::prelude::*;

verus! {

/// The fatal conditions of an extraction run.
#[derive(Clone, Copy, Debug, PartialEq, Eq, Structural)]
pub enum ExtractError {
    /// A parameter or return type is something other than a plain resolved
    /// path.
    UnsupportedTypeShape,
}

} // verus!
