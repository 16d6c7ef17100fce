//! The logical LED color and its pure transition function.

use vstd::prelude::*;

verus! {

/// The closed set of logical colors the LED can show. Exactly one variant is
/// current at any instant once setup has completed; there is no undefined or
/// uninitialized observable value.
#[derive(Copy, Clone, Debug, PartialEq, Eq, Structural)]
pub enum LedColor {
    Purple,
    Off,
}

/// The wire-level pixel type of the `rgb` crate (re-exported by
/// `smart_leds` as `RGB8` when instantiated at `u8`), declared so that its
/// public component fields can appear in contracts.
#[verifier::external_type_specification]
#[verifier::reject_recursive_types(T)]
pub struct ExRgb<T>(rgb::Rgb<T>);

/// Relies on `rgb::Rgb::new`, which builds the pixel struct from its three
/// components in `r`, `g`, `b` order.
pub assume_specification<T: Copy>[ rgb::Rgb::<T>::new ](r: T, g: T, b: T) -> (c: rgb::Rgb<T>)
    ensures
        c == (rgb::Rgb { r, g, b }),
;

impl LedColor {
    /// The pure toggle mapping: total, deterministic, and an involution on
    /// the two-variant color set.
    pub open spec fn spec_toggle(self) -> LedColor {
        match self {
            LedColor::Purple => LedColor::Off,
            LedColor::Off => LedColor::Purple,
        }
    }

    pub fn toggle(self) -> (r: LedColor)
        ensures
            r == self.spec_toggle(),
    {
        match self {
            LedColor::Purple => LedColor::Off,
            LedColor::Off => LedColor::Purple,
        }
    }

    /// The wire encoding of this logical color: purple is red plus blue at
    /// a moderate brightness, off is all components zero.
    pub fn to_rgb(self) -> (c: rgb::Rgb<u8>)
        ensures
            self is Purple ==> c == (rgb::Rgb::<u8> { r: 50, g: 0, b: 50 }),
            self is Off ==> c == (rgb::Rgb::<u8> { r: 0, g: 0, b: 0 }),
    {
        match self {
            LedColor::Purple => rgb::Rgb::new(50, 0, 50),
            LedColor::Off => rgb::Rgb::new(0, 0, 0),
        }
    }
}

/// The polling variant's decision: while the button line is asserted
/// (pulled low) the LED shows purple, otherwise it is dark.
pub fn polled_color(asserted: bool) -> (c: LedColor)
    ensures
        c == (if asserted { LedColor::Purple } else { LedColor::Off }),
{
    if asserted {
        LedColor::Purple
    } else {
        LedColor::Off
    }
}

/// Toggling twice returns to the starting color: the toggle mapping is an
/// involution, so every color is reachable from every other and no edge is
/// absorbed into a sink state.
pub proof fn lemma_toggle_involution(c: LedColor)
    ensures
        c.spec_toggle().spec_toggle() == c,
{
}

} // verus!
