//! A verified model of a single-button, single-LED toggle controller.
//!
//! A falling edge on the button input toggles the color of an addressable
//! RGB LED between `Purple` and `Off`. The interesting part is not the
//! peripheral driver but the shared-state discipline: the interrupt handler
//! and the main context share one protected region holding the current
//! logical color and the device handles, and every hardware write must be
//! sequenced correctly with respect to the logical state it shadows.

mod color;
mod hw;
mod section;
mod state;

pub use color::LedColor;
pub use color::lemma_toggle_involution;
pub use color::polled_color;
pub use hw::{ButtonHandle, DriverError, EdgeKind, HwEvent, LedDeviceHandle};
pub use hw::{acks_follow_writes, consumed, last_write};
pub use section::SectionGuard;
pub use state::{
    ProtectedState, handler, lemma_interrupt_ack_ordering, lemma_no_open_section,
    lemma_state_hardware_agreement,
};
