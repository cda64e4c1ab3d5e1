//! Client identity.

use vstd::prelude::*;

verus! {

/// Identifies a client. Two ids are equal exactly when their numbers are.
#[derive(Debug, Clone, Copy, PartialEq, Eq, Hash, Structural)]
pub struct ClientId(pub u16);

} // verus!
