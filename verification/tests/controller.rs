use led_toggle::{
    handler, ButtonHandle, DriverError, HwEvent, LedColor, LedDeviceHandle, ProtectedState,
    SectionGuard,
};

#[test]
fn toggle_involution_purple() {
    assert_eq!(LedColor::Purple.toggle().toggle(), LedColor::Purple);
}

#[test]
fn toggle_involution_off() {
    assert_eq!(LedColor::Off.toggle().toggle(), LedColor::Off);
}

#[test]
fn toggle_values() {
    assert_eq!(LedColor::Purple.toggle(), LedColor::Off);
    assert_eq!(LedColor::Off.toggle(), LedColor::Purple);
}

#[test]
fn rgb_encoding_purple() {
    let c = LedColor::Purple.to_rgb();
    assert_eq!(c, rgb::Rgb { r: 50, g: 0, b: 50 });
}

#[test]
fn rgb_encoding_off() {
    let c = LedColor::Off.to_rgb();
    assert_eq!(c, rgb::Rgb { r: 0, g: 0, b: 0 });
}

#[test]
fn install_writes_initial_color_exactly_once() {
    let mut s = ProtectedState::new();
    assert!(!s.installed());
    assert!(s.events().is_empty());
    let r = s.install(LedDeviceHandle::new(), ButtonHandle::new(), LedColor::Purple);
    assert_eq!(r, Ok(()));
    assert!(s.installed());
    assert_eq!(s.color(), LedColor::Purple);
    assert_eq!(*s.events(), vec![HwEvent::Write(LedColor::Purple)]);
}

#[test]
fn one_edge_toggles_to_off() {
    let mut s = ProtectedState::new();
    s.install(LedDeviceHandle::new(), ButtonHandle::new(), LedColor::Purple)
        .unwrap();
    let r = handler(&mut s);
    assert_eq!(r, Ok(()));
    assert_eq!(s.color(), LedColor::Off);
    assert_eq!(
        *s.events(),
        vec![
            HwEvent::Write(LedColor::Purple),
            HwEvent::Write(LedColor::Off),
            HwEvent::ClearInterrupt,
        ]
    );
}

#[test]
fn two_edges_toggle_back_to_purple() {
    let mut s = ProtectedState::new();
    s.install(LedDeviceHandle::new(), ButtonHandle::new(), LedColor::Purple)
        .unwrap();
    handler(&mut s).unwrap();
    handler(&mut s).unwrap();
    assert_eq!(s.color(), LedColor::Purple);
    assert_eq!(
        *s.events(),
        vec![
            HwEvent::Write(LedColor::Purple),
            HwEvent::Write(LedColor::Off),
            HwEvent::ClearInterrupt,
            HwEvent::Write(LedColor::Purple),
            HwEvent::ClearInterrupt,
        ]
    );
}

#[test]
fn failed_write_leaves_color_and_skips_ack() {
    let mut s = ProtectedState::new();
    // The transport accepts the installation write, then refuses the next.
    s.install(
        LedDeviceHandle::failing_after(1),
        ButtonHandle::new(),
        LedColor::Purple,
    )
    .unwrap();
    let r = handler(&mut s);
    assert_eq!(r, Err(DriverError::Transport));
    assert_eq!(s.color(), LedColor::Purple);
    // Chosen policy: a refused write is fatal, so the interrupt is not
    // acknowledged and no hardware effect is recorded for the failed edge.
    assert_eq!(*s.events(), vec![HwEvent::Write(LedColor::Purple)]);
}

#[test]
fn failed_initial_write_leaves_state_uninstalled() {
    let mut s = ProtectedState::new();
    let r = s.install(
        LedDeviceHandle::failing_after(0),
        ButtonHandle::new(),
        LedColor::Purple,
    );
    assert_eq!(r, Err(DriverError::Transport));
    assert!(!s.installed());
    assert!(s.events().is_empty());
}

#[test]
fn second_install_fails_fast() {
    let mut s = ProtectedState::new();
    s.install(LedDeviceHandle::new(), ButtonHandle::new(), LedColor::Purple)
        .unwrap();
    let r = s.install(LedDeviceHandle::new(), ButtonHandle::new(), LedColor::Off);
    assert_eq!(r, Err(DriverError::AlreadyInstalled));
    // The region is untouched by the refused second installation.
    assert_eq!(s.color(), LedColor::Purple);
    assert_eq!(*s.events(), vec![HwEvent::Write(LedColor::Purple)]);
}

#[test]
fn clear_follows_write_on_every_successful_edge() {
    let mut s = ProtectedState::new();
    s.install(LedDeviceHandle::new(), ButtonHandle::new(), LedColor::Purple)
        .unwrap();
    for _ in 0..4 {
        handler(&mut s).unwrap();
    }
    // Exactly one ClearInterrupt per handled edge, each directly after the
    // write that edge produced.
    let events = s.events();
    let clears = events
        .iter()
        .filter(|e| **e == HwEvent::ClearInterrupt)
        .count();
    assert_eq!(clears, 4);
    for (i, e) in events.iter().enumerate() {
        if *e == HwEvent::ClearInterrupt {
            assert!(matches!(events[i - 1], HwEvent::Write(_)));
        }
    }
}

#[test]
fn section_guard_refuses_nested_entry() {
    let mut g = SectionGuard::new();
    assert_eq!(g.enter(), Ok(()));
    // A nested exclusive-access section is a design invariant break and
    // fails fast.
    assert_eq!(g.enter(), Err(DriverError::Reentrant));
    g.exit();
    assert_eq!(g.enter(), Ok(()));
}

#[test]
fn polled_color_follows_button_level() {
    assert_eq!(led_toggle::polled_color(true), LedColor::Purple);
    assert_eq!(led_toggle::polled_color(false), LedColor::Off);
}
