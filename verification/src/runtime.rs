//! The stand-in runtime type that the node is compiled against.
use vstd::prelude::*;

verus! {

/// A runtime that offers the runtime APIs the node needs by type only. The
/// node uses it to name its runtime API and never executes it: no runtime
/// call is answered by it.
#[derive(Debug, Clone, Copy, PartialEq, Eq, Structural)]
pub struct Runtime;

} // verus!
