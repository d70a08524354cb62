//! How far an output queue has come.

use vstd::prelude::*;

use crate::name::StreamName;

verus! {

/// The stream of this name has yet to be created.
pub struct Pending(pub StreamName);

/// The stream is there.
pub struct Ready<S>(pub S);

} // verus!
