//! An instrumented critical-section guard.
//!
//! On the target, a critical section masks the one asynchronous dispatch
//! path that could re-enter the protected state, so entering it twice from
//! the same context is a design invariant break, never a recoverable
//! condition. This guard makes that discipline checkable: entering an
//! already-active section fails fast instead of silently nesting.

use vstd::prelude::*;
use crate::hw::DriverError;

verus! {

/// Non-reentrant mutual-exclusion guard for the protected region.
pub struct SectionGuard {
    active: bool,
}

impl SectionGuard {
    /// Whether an exclusive-access section is currently open.
    pub closed spec fn spec_active(self) -> bool {
        self.active
    }

    /// A guard with no section open.
    pub fn new() -> (g: SectionGuard)
        ensures
            !g.spec_active(),
    {
        SectionGuard { active: false }
    }

    /// Open an exclusive-access section. A nested attempt is refused:
    /// no interleaving of two sections is ever admitted.
    pub fn enter(&mut self) -> (r: Result<(), DriverError>)
        ensures
            !old(self).spec_active() ==> r is Ok && final(self).spec_active(),
            old(self).spec_active() ==> r == Err::<(), DriverError>(DriverError::Reentrant)
                && *final(self) == *old(self),
    {
        if self.active {
            Err(DriverError::Reentrant)
        } else {
            self.active = true;
            Ok(())
        }
    }

    /// Close the open exclusive-access section.
    pub fn exit(&mut self)
        requires
            old(self).spec_active(),
        ensures
            !final(self).spec_active(),
    {
        self.active = false;
    }
}

} // verus!
