//! Request methods.

use vstd::prelude::*;

verus! {

/// The method of an HTTP request: one of the nine registered verbs, or
/// `Other` for any token outside them.
#[derive(Clone, Copy, Debug, PartialEq, Eq, Hash, Structural)]
pub enum Method {
    Get,
    Head,
    Post,
    Put,
    Delete,
    Connect,
    Options,
    Trace,
    Patch,
    Other,
}

} // verus!
