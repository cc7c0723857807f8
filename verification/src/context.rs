//! Who is asking.

use vstd::prelude::*;

verus! {

/// The authenticated subject of a request and the tenant it acts in. Both ids
/// are UUIDs, held as 128-bit numbers.
#[derive(Debug, Clone, Copy, PartialEq, Eq, Structural)]
pub struct SecurityContext {
    pub subject_id: u128,
    pub subject_tenant_id: u128,
}

} // verus!
