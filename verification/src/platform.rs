//! The desktop platform whose capture back ends a decision is made for.
use vstd::prelude::*;

verus! {

/// The two desktop platforms the streaming back end supports.
#[derive(Clone, Copy, PartialEq, Eq, Debug, Structural)]
pub enum Platform {
    Linux,
    Windows,
}

} // verus!
