//! Models of the two peripheral handles and of the observable hardware
//! effects they produce.
//!
//! The physical LED transport is write-only: software cannot read the color
//! back, so the controller keeps a shadow of the last commanded color. To
//! make the hardware side of that contract checkable, the protected region
//! records every accepted hardware effect in an ordered journal of
//! [`HwEvent`] values; the handles themselves carry only what the logic
//! reads of them (a failure plan for the transport, the armed edge kind for
//! the button).

use vstd::prelude::*;
use crate::color::LedColor;

verus! {

/// One observable hardware effect, in the order the hardware received it.
#[derive(Copy, Clone, Debug, PartialEq, Eq, Structural)]
pub enum HwEvent {
    /// The LED transport accepted a frame commanding this color.
    Write(LedColor),
    /// The latched button interrupt flag was cleared.
    ClearInterrupt,
}

/// The fatal conditions this controller can surface. All of them are
/// local-process fatal: there is no retry policy and no remote caller.
#[derive(Copy, Clone, Debug, PartialEq, Eq, Structural)]
pub enum DriverError {
    /// The LED transport failed to accept a write.
    Transport,
    /// `install` was invoked on a region that already holds its handles.
    AlreadyInstalled,
    /// A nested exclusive-access section was attempted.
    Reentrant,
}

/// The kind of input edge that arms interrupt generation. The controller
/// uses falling edges (button press pulls the line low).
#[derive(Copy, Clone, Debug, PartialEq, Eq, Structural)]
pub enum EdgeKind {
    Falling,
    Rising,
}

/// The last color the hardware was successfully commanded to show, if any
/// write has been accepted yet.
pub open spec fn last_write(log: Seq<HwEvent>) -> Option<LedColor>
    decreases log.len(),
{
    if log.len() == 0 {
        None
    } else {
        match log.last() {
            HwEvent::Write(c) => Some(c),
            HwEvent::ClearInterrupt => last_write(log.drop_last()),
        }
    }
}

/// Every interrupt acknowledge in the journal directly follows a write:
/// the handler clears the latched flag exactly once per handled edge, and
/// only after the color write of that edge was accepted.
pub open spec fn acks_follow_writes(log: Seq<HwEvent>) -> bool {
    forall|i: int|
        #![trigger log[i]]
        0 <= i < log.len() && log[i] is ClearInterrupt ==> 0 < i && log[i - 1] is Write
}

/// Exclusive handle to the LED output transport. Every write can fail
/// (a transport error: the wire-protocol transmission did not complete).
/// The handle models that with a failure plan: with `Some(n)` the next `n`
/// writes are accepted and every later one is refused; with `None` the
/// transport is reliable.
pub struct LedDeviceHandle {
    plan: Option<usize>,
}

/// The failure plan left after one accepted write.
pub open spec fn consumed(plan: Option<usize>) -> Option<usize> {
    match plan {
        Some(n) => if n > 0 { Some((n - 1) as usize) } else { Some(0usize) },
        None => None,
    }
}

impl LedDeviceHandle {
    pub closed spec fn spec_plan(self) -> Option<usize> {
        self.plan
    }

    /// Whether the transport will refuse the next write.
    pub open spec fn spec_next_write_fails(self) -> bool {
        self.spec_plan() == Some(0usize)
    }

    /// A reliable transport: every write is accepted.
    pub fn new() -> (d: LedDeviceHandle)
        ensures
            d.spec_plan() is None,
    {
        LedDeviceHandle { plan: None }
    }

    /// A transport that accepts exactly `n` more writes and refuses every
    /// one after that.
    pub fn failing_after(n: usize) -> (d: LedDeviceHandle)
        ensures
            d.spec_plan() == Some(n),
    {
        LedDeviceHandle { plan: Some(n) }
    }

    /// Offer one frame to the transport. Returns whether the transport
    /// accepted it, consuming one step of the failure plan on acceptance.
    pub(crate) fn try_accept(&mut self) -> (accepted: bool)
        ensures
            accepted == !old(self).spec_next_write_fails(),
            accepted ==> final(self).spec_plan() == consumed(old(self).spec_plan()),
            !accepted ==> *final(self) == *old(self),
    {
        match self.plan {
            None => true,
            Some(n) => {
                if n == 0 {
                    false
                } else {
                    self.plan = Some(n - 1);
                    true
                }
            },
        }
    }
}

/// Exclusive handle to the button input peripheral. `listen` arms
/// interrupt generation for one edge kind; the latched-flag clear is
/// recorded in the owning region's event journal.
pub struct ButtonHandle {
    listening: Option<EdgeKind>,
}

impl ButtonHandle {
    /// The edge kind interrupt generation is armed for, if any.
    pub closed spec fn spec_listening(self) -> Option<EdgeKind> {
        self.listening
    }

    /// A button input with interrupt generation not yet armed.
    pub fn new() -> (b: ButtonHandle)
        ensures
            b.spec_listening() is None,
    {
        ButtonHandle { listening: None }
    }

    /// Arm interrupt generation for the given edge kind.
    pub fn listen(&mut self, edge: EdgeKind)
        ensures
            final(self).spec_listening() == Some(edge),
    {
        self.listening = Some(edge);
    }
}

} // verus!
