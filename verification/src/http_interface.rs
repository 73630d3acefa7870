//! The HTTP admin/UI interface description.
//!
//! Only the configuration lives here; binding the port and serving
//! requests is transport work outside this core.

use vstd::prelude::*;

verus! {

/// An HTTP interface bound to a port.
#[derive(Clone, Copy, Debug, PartialEq, Eq, Structural)]
pub struct HttpInterface {
    pub port: u16,
}

impl HttpInterface {
    /// An interface on the given port.
    pub fn new(port: u16) -> (r: Self)
        ensures
            r.port == port,
    {
        HttpInterface { port }
    }
}

} // verus!
