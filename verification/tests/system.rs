use rppal::system::{
    parse_base_compatible, parse_base_model, parse_proc_cpuinfo, revision_lookup, try_parse_proc_cpuinfo, DeviceInfo, Error, Model, SoC,
    GPIO_LINES_BCM2711, GPIO_LINES_BCM283X, GPIO_OFFSET, PERIPHERAL_BASE_RPI,
    PERIPHERAL_BASE_RPI2, PERIPHERAL_BASE_RPI4,
};

const CPUINFO_PI3: &[u8] = b"processor\t: 0\nmodel name\t: ARMv7 Processor rev 4 (v7l)\n\nHardware\t: BCM2835\nRevision\t: a02082\nSerial\t\t: 00000000abcdef01\n";

#[test]
fn cpuinfo_identifies_new_style_revision() {
    assert_eq!(parse_proc_cpuinfo(CPUINFO_PI3), Ok(Model::RaspberryPi3B));
}

#[test]
fn cpuinfo_lowercases_revision() {
    let text = b"Hardware\t: BCM2711\nRevision\t: C03111\n";
    assert_eq!(parse_proc_cpuinfo(text), Ok(Model::RaspberryPi4B));
}

#[test]
fn cpuinfo_old_revision_and_overvolted() {
    assert_eq!(
        parse_proc_cpuinfo(b"Hardware\t: BCM2708\nRevision\t: 000e\n"),
        Ok(Model::RaspberryPiBRev2)
    );
    assert_eq!(
        parse_proc_cpuinfo(b"Hardware\t: BCM2708\nRevision\t: 1000000f\n"),
        Ok(Model::RaspberryPiBRev2)
    );
    assert_eq!(
        parse_proc_cpuinfo(b"Hardware\t: BCM2708\nRevision\t: Beta\n"),
        Ok(Model::RaspberryPiBRev1)
    );
}

#[test]
fn cpuinfo_crlf_and_missing_final_newline() {
    assert_eq!(
        parse_proc_cpuinfo(b"Hardware\t: BCM2835\r\nRevision\t: 9000c1"),
        Ok(Model::RaspberryPiZeroW)
    );
}

#[test]
fn cpuinfo_last_line_wins_and_invalid_lines_are_skipped() {
    let text = b"Hardware\t: BCM2835\nRevision\t: 0002\nRevision\t: 902120\nHardware\t: \xff\xfe\n";
    assert_eq!(parse_proc_cpuinfo(text), Ok(Model::RaspberryPiZero2W));
}

#[test]
fn cpuinfo_unknown_hardware_or_revision() {
    assert_eq!(
        parse_proc_cpuinfo(b"Hardware\t: Allwinner sun8i\nRevision\t: a02082\n"),
        Err(Error::UnknownModel)
    );
    assert_eq!(
        parse_proc_cpuinfo(b"Hardware\t: BCM2835\nRevision\t: a0208\n"),
        Err(Error::UnknownModel)
    );
    assert_eq!(parse_proc_cpuinfo(b"Hardware\t: BCM2835\n"), Err(Error::UnknownModel));
    assert_eq!(parse_proc_cpuinfo(b""), Err(Error::UnknownModel));
}

#[test]
fn compatible_first_known_identifier() {
    let text = b"raspberrypi,4-model-b\0brcm,bcm2711\0";
    assert_eq!(parse_base_compatible(text), Ok(Model::RaspberryPi4B));
    let text = b"vendor,board\0raspberrypi,model-zero-w\0brcm,bcm2835\0";
    assert_eq!(parse_base_compatible(text), Ok(Model::RaspberryPiZeroW));
    assert_eq!(parse_base_compatible(b"raspberrypi,400"), Ok(Model::RaspberryPi400));
}

#[test]
fn compatible_rejects_unknown_and_invalid_utf8() {
    assert_eq!(parse_base_compatible(b"brcm,bcm2711\0"), Err(Error::UnknownModel));
    assert_eq!(
        parse_base_compatible(b"raspberrypi,4-model-b\0\xff"),
        Err(Error::UnknownModel)
    );
}

#[test]
fn base_model_strips_revision_suffix() {
    assert_eq!(
        parse_base_model(b"Raspberry Pi 3 Model B Plus Rev 1.3\0"),
        Ok(Model::RaspberryPi3BPlus)
    );
    assert_eq!(parse_base_model(b"Raspberry Pi 400 Rev 1.0\0"), Ok(Model::RaspberryPi400));
    assert_eq!(parse_base_model(b"Raspberry Pi Zero W"), Ok(Model::RaspberryPiZeroW));
}

#[test]
fn base_model_recognises_b_rev2_names() {
    assert_eq!(
        parse_base_model(b"Raspberry Pi Model B Rev 2.0\0"),
        Ok(Model::RaspberryPiBRev2)
    );
    assert_eq!(
        parse_base_model(b"Raspberry Pi Model B rev2 Rev 2.0\0"),
        Ok(Model::RaspberryPiBRev2)
    );
    assert_eq!(parse_base_model(b"Raspberry Pi Model B Rev 1\0"), Ok(Model::RaspberryPiBRev1));
}

#[test]
fn base_model_unknown() {
    assert_eq!(parse_base_model(b"Orange Pi"), Err(Error::UnknownModel));
    assert_eq!(parse_base_model(b"Raspberry Pi 5 Model B Rev 1.0"), Err(Error::UnknownModel));
}

#[test]
fn device_info_prefers_cpuinfo() {
    let info = DeviceInfo::new(
        Some(CPUINFO_PI3),
        Some(b"raspberrypi,4-model-b\0"),
        Some(b"Raspberry Pi Zero"),
    )
    .unwrap();
    assert_eq!(info.model(), Model::RaspberryPi3B);
    assert_eq!(info.soc(), SoC::Bcm2837A1);
    assert_eq!(info.peripheral_base(), PERIPHERAL_BASE_RPI2);
    assert_eq!(info.gpio_offset(), GPIO_OFFSET);
    assert_eq!(info.gpio_lines(), GPIO_LINES_BCM283X);
}

#[test]
fn device_info_falls_back_in_order() {
    let info = DeviceInfo::new(None, Some(b"raspberrypi,4-model-b\0"), Some(b"Raspberry Pi Zero"))
        .unwrap();
    assert_eq!(info.model(), Model::RaspberryPi4B);
    assert_eq!(info.soc(), SoC::Bcm2711);
    assert_eq!(info.peripheral_base(), PERIPHERAL_BASE_RPI4);
    assert_eq!(info.gpio_lines(), GPIO_LINES_BCM2711);

    let info = DeviceInfo::new(Some(b"Hardware\t: foo\n"), Some(b"x,y\0"), Some(b"Raspberry Pi Zero"))
        .unwrap();
    assert_eq!(info.model(), Model::RaspberryPiZero);
    assert_eq!(info.soc(), SoC::Bcm2835);
    assert_eq!(info.peripheral_base(), PERIPHERAL_BASE_RPI);
}

#[test]
fn device_info_unknown_model() {
    assert_eq!(DeviceInfo::new(None, None, None), Err(Error::UnknownModel));
    assert_eq!(
        DeviceInfo::new(Some(b""), Some(b""), Some(b"")),
        Err(Error::UnknownModel)
    );
}

#[test]
fn device_info_from_model_table() {
    assert_eq!(DeviceInfo::from_model(Model::RaspberryPi2B).soc(), SoC::Bcm2836);
    assert_eq!(DeviceInfo::from_model(Model::RaspberryPi3APlus).soc(), SoC::Bcm2837B0);
    assert_eq!(DeviceInfo::from_model(Model::RaspberryPiZero2W).soc(), SoC::Bcm2837A1);
    assert_eq!(
        DeviceInfo::from_model(Model::RaspberryPiComputeModule4S).gpio_lines(),
        GPIO_LINES_BCM2711
    );
}

#[test]
fn model_and_soc_text() {
    assert_eq!(Model::RaspberryPi3BPlus.as_str(), "Raspberry Pi 3 B+");
    assert_eq!(Model::RaspberryPiZero2W.as_str(), "Raspberry Pi Zero 2 W");
    assert_eq!(SoC::Bcm2837B0.as_str(), "BCM2837B0");
    assert_eq!(Error::UnknownModel.as_str(), "Unknown Raspberry Pi model");
}

#[test]
fn cpuinfo_revision_cut_inside_character_is_refused() {
    // "abc\u{e9}007": eight bytes, the fifth a continuation byte.
    let text = b"Hardware\t: BCM2835\nRevision\t: abc\xc3\xa9007\n";
    assert_eq!(try_parse_proc_cpuinfo(text), None);
    assert!(DeviceInfo::try_new(Some(text), None, None).is_none());
    // The revision is never cut when the hardware is unknown.
    let text = b"Hardware\t: sun8i\nRevision\t: abc\xc3\xa9007\n";
    assert_eq!(try_parse_proc_cpuinfo(text), Some(Err(Error::UnknownModel)));
}

#[test]
fn cpuinfo_checked_forms_agree_with_plain_ones() {
    assert_eq!(try_parse_proc_cpuinfo(CPUINFO_PI3), Some(Ok(Model::RaspberryPi3B)));
    let info = DeviceInfo::try_new(Some(CPUINFO_PI3), None, None).unwrap().unwrap();
    assert_eq!(info.model(), Model::RaspberryPi3B);
    assert_eq!(
        DeviceInfo::try_new(None, None, Some(b"Raspberry Pi 400 Rev 1.0")).unwrap().unwrap().model(),
        Model::RaspberryPi400
    );
    assert_eq!(DeviceInfo::try_new(None, None, None), Some(Err(Error::UnknownModel)));
}


#[test]
fn revision_codes_after_lowercasing() {
    assert_eq!(revision_lookup(b"a02082"), Some(Model::RaspberryPi3B));
    assert_eq!(revision_lookup(b"c03111"), Some(Model::RaspberryPi4B));
    assert_eq!(revision_lookup(b"000e"), Some(Model::RaspberryPiBRev2));
    assert_eq!(revision_lookup(b"1000000f"), Some(Model::RaspberryPiBRev2));
    assert_eq!(revision_lookup(b"C03111"), None);
    assert_eq!(revision_lookup(b"a0208"), None);
    assert_eq!(revision_lookup(b"12"), None);
}
