//! Identifier of a tray icon.

use core::cmp::Ordering;
use vstd::prelude::*;
use vstd::std_specs::cmp::PartialOrdSpecImpl;

verus! {

/// Identifier of a tray icon, unique among the live tray icons of a process.
///
/// Every event that a tray icon emits carries the identifier of its source, so
/// that an application with several icons can tell them apart.
#[derive(Copy, Clone, Debug, PartialEq, Eq, Ord, Hash, Structural)]
pub struct TrayId(usize);

impl View for TrayId {
    type V = usize;

    /// The integer that the identifier stands for.
    closed spec fn view(&self) -> usize {
        self.0
    }
}

impl PartialOrd for TrayId {
    /// Identifiers are ordered by their integers.
    fn partial_cmp(&self, other: &Self) -> (r: Option<Ordering>) {
        if self.0 < other.0 {
            Some(Ordering::Less)
        } else if self.0 > other.0 {
            Some(Ordering::Greater)
        } else {
            Some(Ordering::Equal)
        }
    }
}

impl PartialOrdSpecImpl for TrayId {
    open spec fn obeys_partial_cmp_spec() -> bool {
        true
    }

    /// The order of two identifiers is the order of their integers.
    open spec fn partial_cmp_spec(&self, other: &Self) -> Option<Ordering> {
        if self@ < other@ {
            Some(Ordering::Less)
        } else if self@ > other@ {
            Some(Ordering::Greater)
        } else {
            Some(Ordering::Equal)
        }
    }
}

impl TrayId {
    /// The underlying integer, for passing across a native boundary or storing
    /// in an atomic.
    pub fn into_raw(self) -> (raw: usize)
        ensures
            raw == self@,
    {
        self.0
    }

    /// Rebuilds an identifier from an integer given out by [`TrayId::into_raw`].
    pub fn from_raw(id: usize) -> (this: Self)
        ensures
            this@ == id,
    {
        TrayId(id)
    }

    /// Two identifiers with the same integer are the same identifier.
    pub proof fn lemma_view_injective(a: Self, b: Self)
        ensures
            a@ == b@ <==> a == b,
    {
    }
}

} // verus!
