use rppal::gpio::Mode;
use rppal::system::Model;
use rppal::uart::{
    cflag_local_reader, cflag_with_data_bits, cflag_with_hardware_flow_control,
    cflag_with_stop_bits, iflag_with_parity_check, iflag_with_software_flow_control,
    read_timeout_units, ParityCheck, CLOCAL, CREAD, CRTSCTS, CS7, CSIZE, CSTOPB, IGNPAR, INPCK,
    IXOFF, IXON, PARMRK,
    cflag_with_parity, flow_signals, hardware_flow_pins, nonblocking_mode, parity_from_cflag,
    read_blocks, rtscts_mode, rtscts_pins, speed_code, speed_from_code, write_toggles_nonblocking,
    Parity, PinChange, Status, CMSPAR, PARENB, PARODD,
};

#[test]
fn parity_flags() {
    let base = 0o4000u32;
    assert_eq!(cflag_with_parity(base, Parity::Even), base | PARENB);
    assert_eq!(cflag_with_parity(base, Parity::Odd), base | PARENB | PARODD);
    assert_eq!(cflag_with_parity(base, Parity::Mark), base | PARENB | PARODD | CMSPAR);
    assert_eq!(cflag_with_parity(base | PARENB, Parity::NoParity), base);
    for p in [Parity::NoParity, Parity::Even, Parity::Odd] {
        assert_eq!(parity_from_cflag(cflag_with_parity(base, p)), p);
    }
    // Mark and space parity read back as odd and even.
    assert_eq!(parity_from_cflag(cflag_with_parity(base, Parity::Mark)), Parity::Odd);
    assert_eq!(parity_from_cflag(cflag_with_parity(base, Parity::Space)), Parity::Even);
}

#[test]
fn line_speeds() {
    assert_eq!(speed_code(9_600), Some(13));
    assert_eq!(speed_code(115_200), Some(0o10002));
    assert_eq!(speed_code(0), Some(0));
    assert_eq!(speed_code(250_000), None);
    assert_eq!(speed_from_code(0o10003), Some(230_400));
    assert_eq!(speed_from_code(99), None);
    assert_eq!(speed_from_code(speed_code(57_600).unwrap()), Some(57_600));
}

#[test]
fn modem_status() {
    let status = Status::new(0x004 | 0x020 | 0x100);
    assert!(status.rts());
    assert!(status.cts());
    assert!(status.dsr());
    assert!(!status.dtr());
    assert!(!status.dcd());
    assert!(!status.ri());
}

#[test]
fn flow_control_pins() {
    assert_eq!(rtscts_mode(b"/dev/ttyAMA0"), Some((Mode::Alt3, Mode::Alt3)));
    assert_eq!(rtscts_mode(b"/dev/ttyS0"), Some((Mode::Alt5, Mode::Alt5)));
    assert_eq!(rtscts_mode(b"/dev/ttyUSB0"), None);
    assert_eq!(rtscts_pins(Model::RaspberryPiBRev2), (31, 30));
    assert_eq!(rtscts_pins(Model::RaspberryPi3B), (17, 16));
    assert_eq!(
        hardware_flow_pins(true, false, Some((Mode::Alt3, Mode::Alt3))),
        PinChange::Configure(Mode::Alt3, Mode::Alt3)
    );
    assert_eq!(hardware_flow_pins(true, true, Some((Mode::Alt3, Mode::Alt3))), PinChange::Keep);
    assert_eq!(hardware_flow_pins(true, false, None), PinChange::Keep);
    assert_eq!(hardware_flow_pins(false, true, None), PinChange::Release);
}

#[test]
fn blocking_decisions() {
    assert!(!read_blocks(0, 0));
    assert!(read_blocks(1, 0));
    assert!(read_blocks(0, 5));
    assert!(nonblocking_mode(false, false));
    assert!(!nonblocking_mode(true, false));
    assert!(write_toggles_nonblocking(true, false));
    assert!(!write_toggles_nonblocking(true, true));
    let stop = flow_signals(true, true, false);
    assert!(stop.send_character && stop.set_rts && !stop.rts_level);
    assert_eq!(Parity::NoParity.as_str(), "None");
}

#[test]
fn extended_line_speeds() {
    assert_eq!(speed_code(460_800), Some(0o10004));
    assert_eq!(speed_code(4_000_000), Some(0o10017));
    assert_eq!(speed_from_code(0o10010), Some(1_000_000));
    assert_eq!(speed_code(4_000_001), None);
    for speed in [0u32, 50, 9_600, 115_200, 921_600, 3_500_000] {
        assert_eq!(speed_from_code(speed_code(speed).unwrap()), Some(speed));
    }
}

#[test]
fn data_and_stop_bits() {
    assert_eq!(cflag_with_data_bits(0o7777, 5), Some(0o7717));
    assert_eq!(cflag_with_data_bits(0, 7), Some(CS7));
    assert_eq!(cflag_with_data_bits(0, 8).map(|c| c & CSIZE), Some(CSIZE));
    assert_eq!(cflag_with_data_bits(0, 9), None);
    assert_eq!(cflag_with_data_bits(0, 4), None);
    assert_eq!(cflag_with_stop_bits(0, 2), Some(CSTOPB));
    assert_eq!(cflag_with_stop_bits(CSTOPB | 1, 1), Some(1));
    assert_eq!(cflag_with_stop_bits(0, 3), None);
}

#[test]
fn parity_check_and_flow_control_flags() {
    let all = INPCK | IGNPAR | PARMRK | 0o1;
    assert_eq!(iflag_with_parity_check(all, ParityCheck::NoCheck), 0o1);
    assert_eq!(iflag_with_parity_check(0, ParityCheck::Strip), INPCK | IGNPAR);
    assert_eq!(iflag_with_parity_check(all, ParityCheck::Replace), INPCK | 0o1);
    assert_eq!(iflag_with_parity_check(IGNPAR, ParityCheck::Mark), INPCK | PARMRK);
    assert_eq!(iflag_with_software_flow_control(0, true, true), IXON | IXOFF);
    assert_eq!(iflag_with_software_flow_control(IXON | IXOFF | 1, false, false), 1);
    assert_eq!(iflag_with_software_flow_control(0, true, false), IXOFF);
    assert_eq!(cflag_with_hardware_flow_control(0, true), CRTSCTS);
    assert_eq!(cflag_with_hardware_flow_control(CRTSCTS | 1, false), 1);
    assert_eq!(cflag_local_reader(0), CLOCAL | CREAD);
}

#[test]
fn read_timeout_in_tenths() {
    assert_eq!(read_timeout_units(0), 0);
    assert_eq!(read_timeout_units(99), 0);
    assert_eq!(read_timeout_units(1_550), 15);
    assert_eq!(read_timeout_units(25_500), 255);
    assert_eq!(read_timeout_units(1_000_000), 255);
}
