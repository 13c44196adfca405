//! The order of definition and node indices: by their raw numbers.
use core::cmp::Ordering;
use vstd::prelude::*;
use vstd::std_specs::cmp::PartialOrdSpecImpl;

use crate::hir_id::{ItemLocalId, LocalDefId, OwnerId};

verus! {

/// The comparison of two raw numbers.
pub open spec fn compare_raw(a: u32, b: u32) -> Ordering {
    if a < b {
        Ordering::Less
    } else if a == b {
        Ordering::Equal
    } else {
        Ordering::Greater
    }
}

fn compare_u32(a: u32, b: u32) -> (r: Ordering)
    ensures
        r == compare_raw(a, b),
{
    if a < b {
        Ordering::Less
    } else if a == b {
        Ordering::Equal
    } else {
        Ordering::Greater
    }
}

impl PartialOrd for LocalDefId {
    fn partial_cmp(&self, other: &LocalDefId) -> (r: Option<Ordering>) {
        Some(compare_u32(self.0, other.0))
    }
}

impl PartialOrdSpecImpl for LocalDefId {
    open spec fn obeys_partial_cmp_spec() -> bool {
        true
    }

    open spec fn partial_cmp_spec(&self, other: &LocalDefId) -> Option<Ordering> {
        Some(compare_raw(self.0, other.0))
    }
}

impl PartialOrd for ItemLocalId {
    fn partial_cmp(&self, other: &ItemLocalId) -> (r: Option<Ordering>) {
        Some(compare_u32(self.0, other.0))
    }
}

impl PartialOrdSpecImpl for ItemLocalId {
    open spec fn obeys_partial_cmp_spec() -> bool {
        true
    }

    open spec fn partial_cmp_spec(&self, other: &ItemLocalId) -> Option<Ordering> {
        Some(compare_raw(self.0, other.0))
    }
}

impl PartialOrd for OwnerId {
    fn partial_cmp(&self, other: &OwnerId) -> (r: Option<Ordering>) {
        Some(compare_u32(self.def_id.0, other.def_id.0))
    }
}

impl PartialOrdSpecImpl for OwnerId {
    open spec fn obeys_partial_cmp_spec() -> bool {
        true
    }

    open spec fn partial_cmp_spec(&self, other: &OwnerId) -> Option<Ordering> {
        Some(compare_raw(self.def_id.0, other.def_id.0))
    }
}

} // verus!
