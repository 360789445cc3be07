use vstd::prelude::*;

verus! {

/// Options of the command that runs a cluster's pre-startup checks; it has none.
#[derive(Clone, Copy, Debug, Default, PartialEq, Eq, Structural)]
pub struct CheckOpt {}

} // verus!
