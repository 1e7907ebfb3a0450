use rppal::gpio::interrupt::{EventLoop, InterruptAction, PollOutcome};
use rppal::gpio::ioctl::{cbuf_to_string, ChipInfo, Event, EventData, LineAttribute, LineFlags, LineValues};
use rppal::gpio::mem::{
    clr_offset, fsel_offset, fsel_shift, fsel_with_mode, level_from_gplev, level_offset,
    mode_from_fsel, pin_mask, pud_control, pud_release, pudclk_offset, pullupdown_writes,
    set_offset, RegisterWrite, GPPUD,
};
use rppal::gpio::pin::{PinRegistry, PinReset, PinState};
use rppal::gpio::soft_pwm::{
    busy_wait_done, duration_ns, sleep_before_busy_wait, split_sleep, PwmAction, PwmCycle, PwmEvent,
    PwmMessage, PwmPhase, PwmTiming,
};
use rppal::gpio::{Direction, Error, Level, Mode, PullUpDown, Trigger};

#[test]
fn level_conversions_and_not() {
    assert_eq!(Level::from(true), Level::High);
    assert_eq!(Level::from(false), Level::Low);
    assert_eq!(Level::from(0u8), Level::Low);
    assert_eq!(Level::from(7u8), Level::High);
    assert_eq!(!Level::Low, Level::High);
    assert_eq!(!!Level::High, Level::High);
}

#[test]
fn register_offsets() {
    assert_eq!(fsel_offset(0), 0);
    assert_eq!(fsel_offset(23), 2);
    assert_eq!(fsel_shift(23), 9);
    assert_eq!(level_offset(40), 14);
    assert_eq!(set_offset(5), 7);
    assert_eq!(clr_offset(33), 11);
    assert_eq!(pudclk_offset(53), 39);
    assert_eq!(pin_mask(33), 2);
}

#[test]
fn function_select_roundtrip_keeps_neighbours() {
    let reg: u32 = 0xFFFF_FFFF;
    let updated = fsel_with_mode(reg, 23, Mode::Output);
    assert_eq!(updated, 0xFFFF_F3FF);
    assert_eq!(mode_from_fsel(updated, 23), Mode::Output);
    assert_eq!(mode_from_fsel(updated, 22), Mode::Alt3);
    let alt0 = fsel_with_mode(0, 4, Mode::Alt0);
    assert_eq!(alt0, 0b100 << 12);
    assert_eq!(mode_from_fsel(alt0, 4), Mode::Alt0);
    assert_eq!(mode_from_fsel(fsel_with_mode(0, 9, Mode::Alt5), 9), Mode::Alt5);
    assert_eq!(mode_from_fsel(fsel_with_mode(0, 9, Mode::Alt4), 9), Mode::Alt4);
    // Modes the function select field can't express are written as input.
    assert_eq!(mode_from_fsel(fsel_with_mode(0xFFFF_FFFF, 1, Mode::Alt7), 1), Mode::Input);
}

#[test]
fn level_register() {
    assert_eq!(level_from_gplev(1 << 17, 17), Level::High);
    assert_eq!(level_from_gplev(1 << 17, 16), Level::Low);
    assert_eq!(level_from_gplev(1 << 8, 40), Level::High);
}

#[test]
fn pull_up_down_protocol() {
    assert_eq!(pud_control(0xF0, PullUpDown::PullUp), 0xF2);
    assert_eq!(pud_control(0xF3, PullUpDown::Off), 0xF0);
    assert_eq!(pud_release(0xF3), 0xF0);
    let writes = pullupdown_writes(35, PullUpDown::PullDown, 0x13);
    assert_eq!(
        writes,
        vec![
            RegisterWrite { offset: GPPUD, value: 0x11 },
            RegisterWrite { offset: 39, value: 1 << 3 },
            RegisterWrite { offset: GPPUD, value: 0x10 },
            RegisterWrite { offset: 39, value: 0 },
        ]
    );
}

#[test]
fn registry_hands_out_pins_once() {
    let mut registry = PinRegistry::new(54);
    assert!(registry.take(17).is_ok());
    assert!(registry.is_taken(17));
    assert!(matches!(registry.take(17), Err(Error::PinUsed(17))));
    registry.release(17);
    assert!(!registry.is_taken(17));
    assert!(registry.take(17).is_ok());
}

#[test]
fn registry_rejects_unavailable_pins() {
    let mut registry = PinRegistry::new(54);
    assert!(matches!(registry.take(54), Err(Error::PinNotAvailable(54))));
    assert!(matches!(registry.take(255), Err(Error::PinNotAvailable(255))));
    assert!(!registry.is_taken(54));
}

#[test]
fn reset_restores_original_mode() {
    let (mut reset, write) = PinReset::new(Mode::Alt0, Mode::Output, PullUpDown::Off);
    assert_eq!(write, Some(Mode::Output));
    assert_eq!(reset.prev_mode, Some(Mode::Alt0));
    reset.set_mode(Mode::Input);
    assert_eq!(reset.prev_mode, Some(Mode::Alt0));
    let actions = reset.drop_actions();
    assert_eq!(actions.mode, Some(Mode::Alt0));
    assert_eq!(actions.pud, None);
}

#[test]
fn reset_remembers_mode_changed_later() {
    let (mut reset, write) = PinReset::new(Mode::Input, Mode::Input, PullUpDown::PullUp);
    assert_eq!(write, None);
    assert_eq!(reset.prev_mode, None);
    reset.set_mode(Mode::Alt3);
    assert_eq!(reset.prev_mode, Some(Mode::Input));
    let actions = reset.drop_actions();
    assert_eq!(actions.mode, Some(Mode::Input));
    assert_eq!(actions.pud, Some(PullUpDown::Off));
    reset.set_reset_on_drop(false);
    assert!(!reset.reset_on_drop());
    let actions = reset.drop_actions();
    assert_eq!(actions.mode, None);
    assert_eq!(actions.pud, None);
}

#[test]
fn pin_state_tracks_changes() {
    let mut state = PinState::new(4, Mode::Input, false);
    state.record_mode(Mode::Input);
    assert_eq!(state.restore_mode(), None);
    state.record_mode(Mode::Output);
    state.record_mode(Mode::Input);
    assert_eq!(state.restore_mode(), Some(Mode::Input));
}

#[test]
fn interrupt_first_reported_rest_cached() {
    let mut events = EventLoop::new(64);
    assert_eq!(events.set_interrupt(17, Trigger::Both), InterruptAction::Register);
    assert_eq!(events.set_interrupt(27, Trigger::Both), InterruptAction::Register);
    events.record_event(27, Trigger::FallingEdge);
    events.record_event(17, Trigger::RisingEdge);
    let pins = [17u8, 27u8];
    assert_eq!(events.take_triggered(&pins), Some((0, Level::High)));
    assert_eq!(events.take_triggered(&pins), Some((1, Level::Low)));
    assert_eq!(events.take_triggered(&pins), None);
}

#[test]
fn interrupt_reset_clears_cache() {
    let mut events = EventLoop::new(64);
    events.set_interrupt(5, Trigger::RisingEdge);
    events.record_event(5, Trigger::RisingEdge);
    events.clear_triggered(&[5]);
    assert_eq!(events.take_triggered(&[5]), None);
}

#[test]
fn interrupt_configuration_actions() {
    let mut events = EventLoop::new(64);
    assert_eq!(events.set_interrupt(3, Trigger::RisingEdge), InterruptAction::Register);
    assert_eq!(events.set_interrupt(3, Trigger::RisingEdge), InterruptAction::Keep);
    assert_eq!(events.set_interrupt(3, Trigger::Both), InterruptAction::Rearm);
    // Events of pins without an interrupt are ignored.
    events.record_event(4, Trigger::RisingEdge);
    assert!(!events.status(4).triggered);
    assert!(events.clear_interrupt(3));
    assert!(!events.clear_interrupt(3));
}

#[test]
fn line_flags() {
    let flags = LineFlags::new(0x01 | 0x04 | 0x20 | 0x1000);
    assert!(flags.used());
    assert!(!flags.active_low());
    assert!(flags.input());
    assert!(!flags.output());
    assert!(flags.edge_falling());
    assert!(flags.bias_pull_up());
    assert!(!flags.bias_pull_down());
    // The bias-disabled test reads the falling edge bit.
    assert!(flags.bias_disabled());
    assert!(!LineFlags::new(0x4000).bias_disabled());
    assert!(LineFlags::new(0x100000).event_clock_hte());
    assert!(LineFlags::new(0x8000).event_clock_realtime());
    assert_eq!(
        flags.names(),
        vec!["used", "input", "edge_falling", "bias_pull_up", "bias_disabled"]
    );
}

#[test]
fn line_values_and_attributes() {
    let values = LineValues::new(0b101, 0b111);
    assert_eq!(values.bits, 0b101);
    assert_eq!(values.mask, 0b111);
    let attr = LineAttribute::new();
    assert_eq!((attr.id, attr.padding, attr.values), (0, 0, 0));
}

#[test]
fn chip_label_matching() {
    let mut label = [0u8; 32];
    label[..16].copy_from_slice(b"pinctrl-bcm2711\0");
    let chip = ChipInfo { name: [0u8; 32], label, lines: 58 };
    assert!(chip.is_raspberry_pi_chip());
    let mut label = [0u8; 32];
    label[..12].copy_from_slice(b"pinctrl-rp1\0");
    assert!(ChipInfo { name: [0u8; 32], label, lines: 54 }.is_raspberry_pi_chip());
    let mut label = [0u8; 32];
    label[..16].copy_from_slice(b"pinctrl-bcm2711x");
    assert!(!ChipInfo { name: [0u8; 32], label, lines: 58 }.is_raspberry_pi_chip());
}

#[test]
fn events_decode() {
    let event = Event::from_event_data(EventData { timestamp: 1234, id: 1 });
    assert_eq!(event.trigger(), Trigger::RisingEdge);
    assert_eq!(event.level(), Level::High);
    assert_eq!(event.timestamp_ns(), 1234);
    let event = Event::from_event_data(EventData { timestamp: 0, id: 2 });
    assert_eq!(event.trigger(), Trigger::FallingEdge);
    assert_eq!(event.level(), Level::Low);
}

#[test]
fn cbuf_strings() {
    assert_eq!(cbuf_to_string(b"gpiochip0\0\0\0"), "gpiochip0");
    assert_eq!(cbuf_to_string(b"full"), "full");
    assert_eq!(cbuf_to_string(b"bad\xff\0"), "");
    assert_eq!(cbuf_to_string(b"\0abc"), "");
}

#[test]
fn sysfs_texts_and_flags() {
    assert_eq!(Direction::Out.sysfs_text(), "out");
    assert_eq!(Direction::High.sysfs_text(), "high");
    assert_eq!(Trigger::Disabled.sysfs_edge_text(), "none");
    assert_eq!(Trigger::Both.sysfs_edge_text(), "both");
    assert_eq!(Trigger::FallingEdge.event_flags(), 2);
    assert_eq!(Mode::Input.as_str(), "In");
    assert_eq!(Mode::Alt8.as_str(), "Alt8");
    assert_eq!(PullUpDown::PullDown.as_str(), "PullDown");
}

#[test]
fn soft_pwm_timing() {
    assert_eq!(duration_ns(2, 500), 2_000_000_500);
    let mut timing = PwmTiming::new(1_000_000, 2_000_000);
    assert!(timing.drives_high());
    timing.reconfigure(1_000_000, 3_000_000);
    assert_eq!(timing.pulse_width_ns, 1_000_000);
    timing.reconfigure(20_000_000, 0);
    assert!(!timing.drives_high());
    assert_eq!(sleep_before_busy_wait(250_000), Some(50_000));
    assert_eq!(sleep_before_busy_wait(249_999), None);
    assert!(busy_wait_done(1000, 10, 910));
    assert!(!busy_wait_done(1000, 10, 909));
    assert_eq!(split_sleep(2_500_000_000), (2, 500_000_000));
}

#[test]
fn line_flags_text() {
    assert_eq!(LineFlags::new(0).to_string(), "");
    assert_eq!(LineFlags::new(0x01).to_string(), "used");
    assert_eq!(LineFlags::new(0x01 | 0x04 | 0x1000).to_string(), "used input bias_pull_up");
    assert_eq!(
        LineFlags::new(0x20 | 0x100000).to_string(),
        "edge_falling bias_disabled event_clock_hte"
    );
}

#[test]
fn poll_after_wait() {
    let mut events = EventLoop::new(64);
    events.set_interrupt(4, Trigger::Both);
    events.set_interrupt(9, Trigger::Both);
    let pins = [4u8, 9u8];
    // Events on an unlisted or unconfigured pin report nothing.
    assert_eq!(events.after_wait(&pins, &[(12, Trigger::RisingEdge)], false), PollOutcome::WaitAgain);
    assert_eq!(events.after_wait(&pins, &[(12, Trigger::RisingEdge)], true), PollOutcome::TimedOut);
    // The first listed pin is reported; the other stays cached.
    let seen = [(9u8, Trigger::FallingEdge), (4u8, Trigger::RisingEdge)];
    assert_eq!(events.after_wait(&pins, &seen, false), PollOutcome::Found(0, Level::High));
    assert_eq!(events.take_triggered(&pins), Some((1, Level::Low)));
    // A later event of the same pin overrides the level.
    let seen = [(4u8, Trigger::RisingEdge), (4u8, Trigger::FallingEdge)];
    assert_eq!(events.after_wait(&pins, &seen, true), PollOutcome::Found(0, Level::Low));
}

#[test]
fn soft_pwm_cycle_steps() {
    // Period 1 ms, pulse 0.5 ms, period starting at t = 1000.
    let mut c = PwmCycle::new(PwmTiming::new(1_000_000, 500_000), 1_000);
    assert_eq!(c.step(PwmEvent::Done), PwmAction::SetHigh);
    assert_eq!(c.step(PwmEvent::Done), PwmAction::Sleep(300_000));
    assert_eq!(c.step(PwmEvent::Done), PwmAction::ReadClock);
    assert_eq!(c.step(PwmEvent::Clock(400_000)), PwmAction::ReadClock);
    assert_eq!(c.step(PwmEvent::Clock(500_950)), PwmAction::SetLow);
    assert_eq!(c.step(PwmEvent::Done), PwmAction::ReceiveMessage);
    // A new timing: pulse capped at the period, applied from the next period.
    assert_eq!(
        c.step(PwmEvent::Message(Some(PwmMessage::Reconfigure(2_000_000, 3_000_000)))),
        PwmAction::ReceiveMessage
    );
    assert_eq!(c.timing, PwmTiming::new(2_000_000, 2_000_000));
    assert_eq!(c.step(PwmEvent::Message(None)), PwmAction::ReadClock);
    // 2 ms period, 0.5 ms gone: sleep 1.5 ms less the busy-wait margin.
    assert_eq!(c.step(PwmEvent::Clock(501_000)), PwmAction::Sleep(1_300_000));
    assert_eq!(c.step(PwmEvent::Done), PwmAction::ReadClock);
    assert_eq!(c.step(PwmEvent::Clock(2_000_950)), PwmAction::SetHigh);
    assert_eq!(c.start_ns, 2_000_950);
    assert_eq!(c.phase, PwmPhase::PulseSleep);
}

#[test]
fn soft_pwm_zero_pulse_and_stop() {
    let mut c = PwmCycle::new(PwmTiming::new(100_000, 0), 0);
    assert_eq!(c.step(PwmEvent::Done), PwmAction::ReadClock);
    assert_eq!(c.step(PwmEvent::Clock(0)), PwmAction::SetLow);
    assert_eq!(c.step(PwmEvent::Done), PwmAction::ReceiveMessage);
    assert_eq!(c.step(PwmEvent::Message(Some(PwmMessage::Stop))), PwmAction::Exit);
    assert_eq!(c.step(PwmEvent::Clock(5)), PwmAction::Exit);
}
