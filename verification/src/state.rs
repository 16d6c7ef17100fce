//! The protected shared region and the edge-interrupt handler.
//!
//! One region holds the shadow color and both peripheral handles; every
//! access runs inside an exclusive-access section, so the interrupt handler
//! and the main context can never observe a partially-updated state. The
//! region also keeps the ordered journal of hardware effects, which is what
//! the contracts of `install` and `handler` are stated over.

use vstd::prelude::*;
use crate::color::LedColor;
use crate::hw::{
    ButtonHandle, DriverError, EdgeKind, HwEvent, LedDeviceHandle, acks_follow_writes, consumed,
    last_write,
};
use crate::section::SectionGuard;

verus! {

/// The single process-wide shared region: the shadow of the last commanded
/// LED color, the two peripheral handles (absent until `install`), the
/// exclusive-access guard, and the journal of hardware effects.
pub struct ProtectedState {
    current_color: LedColor,
    led: Option<LedDeviceHandle>,
    button: Option<ButtonHandle>,
    section: SectionGuard,
    events: Vec<HwEvent>,
}

impl ProtectedState {
    /// The shadow color: the last color committed after a confirmed write,
    /// or the power-on state before installation.
    pub closed spec fn spec_color(self) -> LedColor {
        self.current_color
    }

    pub closed spec fn spec_led(self) -> Option<LedDeviceHandle> {
        self.led
    }

    pub closed spec fn spec_button(self) -> Option<ButtonHandle> {
        self.button
    }

    /// The ordered journal of hardware effects accepted so far.
    pub closed spec fn spec_events(self) -> Seq<HwEvent> {
        self.events@
    }

    /// Whether an exclusive-access section is currently open.
    pub closed spec fn spec_section_open(self) -> bool {
        self.section.spec_active()
    }

    /// Both handles have been moved into the region.
    pub open spec fn is_installed(self) -> bool {
        self.spec_led() is Some && self.spec_button() is Some
    }

    /// The installed transport's failure plan.
    pub open spec fn spec_led_plan(self) -> Option<usize>
        recommends
            self.is_installed(),
    {
        match self.spec_led() {
            Some(l) => l.spec_plan(),
            None => None,
        }
    }

    /// Whether the installed transport will refuse the next write.
    pub open spec fn spec_next_write_fails(self) -> bool
        recommends
            self.is_installed(),
    {
        match self.spec_led() {
            Some(l) => l.spec_next_write_fails(),
            None => false,
        }
    }

    /// Well-formedness of the region, preserved by every public operation:
    /// no exclusive-access section is left open between operations; the
    /// handles are installed together; once installed, the last color the
    /// hardware accepted equals the shadow color and the button is armed
    /// for falling edges; before installation no hardware effect has been
    /// issued; and every interrupt acknowledge in the journal directly
    /// follows a write.
    pub open spec fn wf(self) -> bool {
        &&& !self.spec_section_open()
        &&& (self.spec_led() is Some <==> self.spec_button() is Some)
        &&& (self.is_installed() ==> last_write(self.spec_events()) == Some(self.spec_color()))
        &&& (self.is_installed() ==> (self.spec_button() matches Some(b)
            && b.spec_listening() == Some(EdgeKind::Falling)))
        &&& (!self.is_installed() ==> self.spec_events().len() == 0)
        &&& acks_follow_writes(self.spec_events())
    }

    /// A fresh region: no handles, no hardware effect issued yet, shadow
    /// mirroring the LED's dark power-on state.
    pub fn new() -> (s: ProtectedState)
        ensures
            s.wf(),
            !s.is_installed(),
            s.spec_events().len() == 0,
            s.spec_color() == LedColor::Off,
    {
        ProtectedState {
            current_color: LedColor::Off,
            led: None,
            button: None,
            section: SectionGuard::new(),
            events: Vec::new(),
        }
    }

    /// One-time installation: moves both handles into the region, performs
    /// the first physical write of `initial` so hardware and shadow state
    /// agree from the first observable instant, and arms falling-edge
    /// listening only after that write has been accepted and committed.
    ///
    /// A second installation fails fast with `AlreadyInstalled` and leaves
    /// the region untouched. A refused initial write is fatal: the region
    /// stays uninstalled and the handles are discarded.
    pub fn install(
        &mut self,
        led: LedDeviceHandle,
        button: ButtonHandle,
        initial: LedColor,
    ) -> (r: Result<(), DriverError>)
        requires
            old(self).wf(),
        ensures
            final(self).wf(),
            old(self).is_installed() ==> {
                &&& r == Err::<(), DriverError>(DriverError::AlreadyInstalled)
                &&& final(self).is_installed()
                &&& final(self).spec_color() == old(self).spec_color()
                &&& final(self).spec_events() == old(self).spec_events()
                &&& final(self).spec_led() == old(self).spec_led()
                &&& final(self).spec_button() == old(self).spec_button()
            },
            !old(self).is_installed() ==> (r is Ok <==> !led.spec_next_write_fails()),
            !old(self).is_installed() && r is Ok ==> {
                &&& final(self).is_installed()
                &&& final(self).spec_color() == initial
                &&& final(self).spec_events() == old(self).spec_events().push(
                    HwEvent::Write(initial),
                )
                &&& final(self).spec_led_plan() == consumed(led.spec_plan())
            },
            !old(self).is_installed() && r is Err ==> {
                &&& r == Err::<(), DriverError>(DriverError::Transport)
                &&& !final(self).is_installed()
                &&& final(self).spec_color() == old(self).spec_color()
                &&& final(self).spec_events() == old(self).spec_events()
            },
    {
        let entered = self.section.enter();
        match entered {
            Ok(()) => {},
            Err(e) => {
                // unreachable: well-formedness says no section is open
                return Err(e);
            },
        }
        if self.led.is_some() || self.button.is_some() {
            self.section.exit();
            return Err(DriverError::AlreadyInstalled);
        }
        let mut led = led;
        let mut button = button;
        let accepted = led.try_accept();
        if !accepted {
            // The very first write already failed: fatal, nothing to shadow.
            self.section.exit();
            return Err(DriverError::Transport);
        }
        self.events.push(HwEvent::Write(initial));
        self.current_color = initial;
        // Arm edge listening strictly after the initial write has been
        // accepted and committed, so no edge can observe a half-set-up
        // region.
        button.listen(EdgeKind::Falling);
        self.led = Some(led);
        self.button = Some(button);
        self.section.exit();
        Ok(())
    }

    /// The shadow color.
    pub fn color(&self) -> (c: LedColor)
        ensures
            c == self.spec_color(),
    {
        self.current_color
    }

    /// The journal of hardware effects, oldest first.
    pub fn events(&self) -> (ev: &Vec<HwEvent>)
        ensures
            ev@ == self.spec_events(),
    {
        &self.events
    }

    /// Whether installation has completed.
    pub fn installed(&self) -> (b: bool)
        ensures
            b == self.is_installed(),
    {
        self.led.is_some() && self.button.is_some()
    }
}

/// The falling-edge interrupt handler: inside one exclusive-access section,
/// read the shadow color, compute its toggle, offer the new color to the
/// LED transport, commit the shadow only after the transport accepted the
/// frame, and acknowledge the latched interrupt last.
///
/// On a refused write the shadow color is not advanced and the interrupt is
/// deliberately not acknowledged: the error is surfaced as fatal instead of
/// letting logical and physical state silently diverge.
pub fn handler(state: &mut ProtectedState) -> (r: Result<(), DriverError>)
    requires
        old(state).wf(),
        old(state).is_installed(),
    ensures
        final(state).wf(),
        final(state).is_installed(),
        r is Ok <==> !old(state).spec_next_write_fails(),
        r is Ok ==> {
            &&& final(state).spec_color() == old(state).spec_color().spec_toggle()
            &&& final(state).spec_events() == old(state).spec_events().push(
                HwEvent::Write(old(state).spec_color().spec_toggle()),
            ).push(HwEvent::ClearInterrupt)
            &&& last_write(final(state).spec_events()) == Some(final(state).spec_color())
            &&& final(state).spec_led_plan() == consumed(old(state).spec_led_plan())
            &&& final(state).spec_button() == old(state).spec_button()
        },
        r is Err ==> {
            &&& r == Err::<(), DriverError>(DriverError::Transport)
            &&& final(state).spec_color() == old(state).spec_color()
            &&& final(state).spec_events() == old(state).spec_events()
            &&& final(state).spec_led() == old(state).spec_led()
            &&& final(state).spec_button() == old(state).spec_button()
        },
{
    let entered = state.section.enter();
    match entered {
        Ok(()) => {},
        Err(e) => {
            // unreachable: well-formedness says no section is open
            return Err(e);
        },
    }
    let next = state.current_color.toggle();
    let accepted = match &mut state.led {
        Some(l) => l.try_accept(),
        None => {
            proof {
                assert(false);
            }
            false
        },
    };
    if accepted {
        state.events.push(HwEvent::Write(next));
        state.current_color = next;
        state.events.push(HwEvent::ClearInterrupt);
        proof {
            let l0 = old(state).spec_events();
            let l1 = l0.push(HwEvent::Write(next));
            let l2 = l1.push(HwEvent::ClearInterrupt);
            assert(l2.drop_last() =~= l1);
            assert(last_write(l1) == Some(next));
            assert(last_write(l2) == Some(next));
        }
        state.section.exit();
        Ok(())
    } else {
        state.section.exit();
        Err(DriverError::Transport)
    }
}

/// State/hardware agreement: in every well-formed installed state the last
/// color the hardware accepted is exactly the shadow color, so after every
/// successful handler invocation (which re-establishes well-formedness) the
/// device shows what the software believes it shows.
pub proof fn lemma_state_hardware_agreement(s: ProtectedState)
    requires
        s.wf(),
        s.is_installed(),
    ensures
        last_write(s.spec_events()) == Some(s.spec_color()),
{
}

/// Interrupt-ack ordering: in every well-formed state, each interrupt
/// acknowledge recorded in the journal directly follows the color write of
/// the edge it acknowledges; together with the handler's contract (exactly
/// one acknowledge per successful invocation, none on a refused write) the
/// latched flag is cleared exactly once per handled edge, after the write.
pub proof fn lemma_interrupt_ack_ordering(s: ProtectedState)
    requires
        s.wf(),
    ensures
        acks_follow_writes(s.spec_events()),
{
}

/// Exclusive access: every well-formed state has no exclusive-access
/// section open, and `SectionGuard::enter` refuses a nested entry, so no
/// interleaving of two exclusive-access regions is ever admitted.
pub proof fn lemma_no_open_section(s: ProtectedState)
    requires
        s.wf(),
    ensures
        !s.spec_section_open(),
{
}

} // verus!
