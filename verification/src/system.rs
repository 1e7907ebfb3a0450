//! Raspberry Pi model and SoC identification.
//!
//! The model is identified from the contents of `/proc/cpuinfo`, then of
//! `/sys/firmware/devicetree/base/compatible`, then of
//! `/sys/firmware/devicetree/base/model`, the first that identifies a model
//! winning. The caller reads the three files and hands their contents over;
//! a file that can't be read is passed as `None`.
use vstd::prelude::*;
use vstd::utf8::*;
use crate::bytes::{
    bytes_eq, find_byte, find_pattern, find_subsequence, first_index, has_prefix, is_valid_utf8,
    ascii_bytes, ascii_lowercase_byte, lemma_first_index_bounds, lemma_valid_utf8_drop_ascii,
    starts_with, unicode_lowercase,
    utf8_lowercase,
};

verus! {

/// Peripheral base address of the BCM2835.
pub const PERIPHERAL_BASE_RPI: u32 = 0x2000_0000;
/// Peripheral base address of the BCM2836 and BCM2837.
pub const PERIPHERAL_BASE_RPI2: u32 = 0x3f00_0000;
/// Peripheral base address of the BCM2711.
pub const PERIPHERAL_BASE_RPI4: u32 = 0xfe00_0000;
/// Offset of the GPIO block from the peripheral base address.
pub const GPIO_OFFSET: u32 = 0x20_0000;
/// Number of GPIO lines of the BCM283x.
pub const GPIO_LINES_BCM283X: u8 = 54;
/// Number of GPIO lines of the BCM2711.
pub const GPIO_LINES_BCM2711: u8 = 58;

/// Errors that can occur when trying to identify the Raspberry Pi hardware.
#[derive(Debug, Copy, Clone, PartialEq, Eq, Structural)]
pub enum Error {
    /// None of the system files identifies a known model.
    UnknownModel,
}

/// Identifiable Raspberry Pi models.
#[derive(Debug, Copy, Clone, PartialEq, Eq, Structural)]
pub enum Model {
    RaspberryPiA,
    RaspberryPiAPlus,
    RaspberryPiBRev1,
    RaspberryPiBRev2,
    RaspberryPiBPlus,
    RaspberryPi2B,
    RaspberryPi3APlus,
    RaspberryPi3B,
    RaspberryPi3BPlus,
    RaspberryPi4B,
    RaspberryPi400,
    RaspberryPiComputeModule,
    RaspberryPiComputeModule3,
    RaspberryPiComputeModule3Plus,
    RaspberryPiComputeModule4,
    RaspberryPiComputeModule4S,
    RaspberryPiZero,
    RaspberryPiZeroW,
    RaspberryPiZero2W,
}

/// Identifiable Raspberry Pi SoCs.
#[derive(Debug, Copy, Clone, PartialEq, Eq, Structural)]
pub enum SoC {
    Bcm2835,
    Bcm2836,
    Bcm2837A1,
    Bcm2837B0,
    Bcm2711,
}

// ---------------------------------------------------------------------------
// /proc/cpuinfo

/// Hardware names in `/proc/cpuinfo` that belong to a Raspberry Pi SoC.
pub open spec fn known_hardware(h: Seq<u8>) -> bool {
    ||| h == seq![66u8, 67, 77, 50, 55, 48, 56]  // 'BCM2708'
    ||| h == seq![66u8, 67, 77, 50, 56, 51, 53]  // 'BCM2835'
    ||| h == seq![66u8, 67, 77, 50, 55, 48, 57]  // 'BCM2709'
    ||| h == seq![66u8, 67, 77, 50, 56, 51, 54]  // 'BCM2836'
    ||| h == seq![66u8, 67, 77, 50, 55, 49, 48]  // 'BCM2710'
    ||| h == seq![66u8, 67, 77, 50, 56, 51, 55]  // 'BCM2837'
    ||| h == seq![66u8, 67, 77, 50, 56, 51, 55, 65, 49]  // 'BCM2837A1'
    ||| h == seq![66u8, 67, 77, 50, 56, 51, 55, 66, 48]  // 'BCM2837B0'
    ||| h == seq![82u8, 80, 51, 65, 48, 45, 65, 85]  // 'RP3A0-AU'
    ||| h == seq![66u8, 67, 77, 50, 55, 49, 48, 65, 49]  // 'BCM2710A1'
    ||| h == seq![66u8, 67, 77, 50, 55, 49, 49]  // 'BCM2711'
}

/// Whether a hardware name belongs to a Raspberry Pi SoC.
fn is_known_hardware(h: &[u8]) -> (r: bool)
    ensures
        r == known_hardware(h@),
{
    bytes_eq(h, &[66u8, 67, 77, 50, 55, 48, 56])  // 'BCM2708'
        || bytes_eq(h, &[66u8, 67, 77, 50, 56, 51, 53])  // 'BCM2835'
        || bytes_eq(h, &[66u8, 67, 77, 50, 55, 48, 57])  // 'BCM2709'
        || bytes_eq(h, &[66u8, 67, 77, 50, 56, 51, 54])  // 'BCM2836'
        || bytes_eq(h, &[66u8, 67, 77, 50, 55, 49, 48])  // 'BCM2710'
        || bytes_eq(h, &[66u8, 67, 77, 50, 56, 51, 55])  // 'BCM2837'
        || bytes_eq(h, &[66u8, 67, 77, 50, 56, 51, 55, 65, 49])  // 'BCM2837A1'
        || bytes_eq(h, &[66u8, 67, 77, 50, 56, 51, 55, 66, 48])  // 'BCM2837B0'
        || bytes_eq(h, &[82u8, 80, 51, 65, 48, 45, 65, 85])  // 'RP3A0-AU'
        || bytes_eq(h, &[66u8, 67, 77, 50, 55, 49, 48, 65, 49])  // 'BCM2710A1'
        || bytes_eq(h, &[66u8, 67, 77, 50, 55, 49, 49])  // 'BCM2711'
}

/// Models of the four-character revision codes of the first boards.
pub open spec fn old_revision_model(code: Seq<u8>) -> Option<Model> {
    if code == seq![48u8, 48, 48, 55] {
        // '0007'
        Some(Model::RaspberryPiA)
    } else if code == seq![48u8, 48, 48, 56] {
        // '0008'
        Some(Model::RaspberryPiA)
    } else if code == seq![48u8, 48, 48, 57] {
        // '0009'
        Some(Model::RaspberryPiA)
    } else if code == seq![48u8, 48, 49, 53] {
        // '0015'
        Some(Model::RaspberryPiA)
    } else if code == seq![98u8, 101, 116, 97] {
        // 'beta'
        Some(Model::RaspberryPiBRev1)
    } else if code == seq![48u8, 48, 48, 50] {
        // '0002'
        Some(Model::RaspberryPiBRev1)
    } else if code == seq![48u8, 48, 48, 51] {
        // '0003'
        Some(Model::RaspberryPiBRev1)
    } else if code == seq![48u8, 48, 48, 52] {
        // '0004'
        Some(Model::RaspberryPiBRev2)
    } else if code == seq![48u8, 48, 48, 53] {
        // '0005'
        Some(Model::RaspberryPiBRev2)
    } else if code == seq![48u8, 48, 48, 54] {
        // '0006'
        Some(Model::RaspberryPiBRev2)
    } else if code == seq![48u8, 48, 48, 100] {
        // '000d'
        Some(Model::RaspberryPiBRev2)
    } else if code == seq![48u8, 48, 48, 101] {
        // '000e'
        Some(Model::RaspberryPiBRev2)
    } else if code == seq![48u8, 48, 48, 102] {
        // '000f'
        Some(Model::RaspberryPiBRev2)
    } else if code == seq![48u8, 48, 49, 50] {
        // '0012'
        Some(Model::RaspberryPiAPlus)
    } else if code == seq![48u8, 48, 49, 48] {
        // '0010'
        Some(Model::RaspberryPiBPlus)
    } else if code == seq![48u8, 48, 49, 51] {
        // '0013'
        Some(Model::RaspberryPiBPlus)
    } else if code == seq![48u8, 48, 49, 49] {
        // '0011'
        Some(Model::RaspberryPiComputeModule)
    } else if code == seq![48u8, 48, 49, 52] {
        // '0014'
        Some(Model::RaspberryPiComputeModule)
    } else {
        None
    }
}

/// Looks a four-character revision code up.
fn old_revision_lookup(code: &[u8]) -> (r: Option<Model>)
    ensures
        r == old_revision_model(code@),
{
    if bytes_eq(code, &[48u8, 48, 48, 55]) {
        // '0007'
        Some(Model::RaspberryPiA)
    } else if bytes_eq(code, &[48u8, 48, 48, 56]) {
        // '0008'
        Some(Model::RaspberryPiA)
    } else if bytes_eq(code, &[48u8, 48, 48, 57]) {
        // '0009'
        Some(Model::RaspberryPiA)
    } else if bytes_eq(code, &[48u8, 48, 49, 53]) {
        // '0015'
        Some(Model::RaspberryPiA)
    } else if bytes_eq(code, &[98u8, 101, 116, 97]) {
        // 'beta'
        Some(Model::RaspberryPiBRev1)
    } else if bytes_eq(code, &[48u8, 48, 48, 50]) {
        // '0002'
        Some(Model::RaspberryPiBRev1)
    } else if bytes_eq(code, &[48u8, 48, 48, 51]) {
        // '0003'
        Some(Model::RaspberryPiBRev1)
    } else if bytes_eq(code, &[48u8, 48, 48, 52]) {
        // '0004'
        Some(Model::RaspberryPiBRev2)
    } else if bytes_eq(code, &[48u8, 48, 48, 53]) {
        // '0005'
        Some(Model::RaspberryPiBRev2)
    } else if bytes_eq(code, &[48u8, 48, 48, 54]) {
        // '0006'
        Some(Model::RaspberryPiBRev2)
    } else if bytes_eq(code, &[48u8, 48, 48, 100]) {
        // '000d'
        Some(Model::RaspberryPiBRev2)
    } else if bytes_eq(code, &[48u8, 48, 48, 101]) {
        // '000e'
        Some(Model::RaspberryPiBRev2)
    } else if bytes_eq(code, &[48u8, 48, 48, 102]) {
        // '000f'
        Some(Model::RaspberryPiBRev2)
    } else if bytes_eq(code, &[48u8, 48, 49, 50]) {
        // '0012'
        Some(Model::RaspberryPiAPlus)
    } else if bytes_eq(code, &[48u8, 48, 49, 48]) {
        // '0010'
        Some(Model::RaspberryPiBPlus)
    } else if bytes_eq(code, &[48u8, 48, 49, 51]) {
        // '0013'
        Some(Model::RaspberryPiBPlus)
    } else if bytes_eq(code, &[48u8, 48, 49, 49]) {
        // '0011'
        Some(Model::RaspberryPiComputeModule)
    } else if bytes_eq(code, &[48u8, 48, 49, 52]) {
        // '0014'
        Some(Model::RaspberryPiComputeModule)
    } else {
        None
    }
}

/// Models of the six-character revision codes.
pub open spec fn new_revision_model(code: Seq<u8>) -> Option<Model> {
    if code == seq![57u8, 48, 48, 48, 50, 49] {
        // '900021'
        Some(Model::RaspberryPiAPlus)
    } else if code == seq![57u8, 48, 48, 48, 51, 50] {
        // '900032'
        Some(Model::RaspberryPiBPlus)
    } else if code == seq![97u8, 48, 49, 48, 52, 48] {
        // 'a01040'
        Some(Model::RaspberryPi2B)
    } else if code == seq![97u8, 48, 49, 48, 52, 49] {
        // 'a01041'
        Some(Model::RaspberryPi2B)
    } else if code == seq![97u8, 50, 49, 48, 52, 49] {
        // 'a21041'
        Some(Model::RaspberryPi2B)
    } else if code == seq![97u8, 48, 50, 48, 52, 50] {
        // 'a02042'
        Some(Model::RaspberryPi2B)
    } else if code == seq![97u8, 50, 50, 48, 52, 50] {
        // 'a22042'
        Some(Model::RaspberryPi2B)
    } else if code == seq![97u8, 48, 50, 48, 56, 50] {
        // 'a02082'
        Some(Model::RaspberryPi3B)
    } else if code == seq![97u8, 50, 50, 48, 56, 50] {
        // 'a22082'
        Some(Model::RaspberryPi3B)
    } else if code == seq![97u8, 50, 50, 48, 56, 51] {
        // 'a22083'
        Some(Model::RaspberryPi3B)
    } else if code == seq![97u8, 51, 50, 48, 56, 50] {
        // 'a32082'
        Some(Model::RaspberryPi3B)
    } else if code == seq![97u8, 53, 50, 48, 56, 50] {
        // 'a52082'
        Some(Model::RaspberryPi3B)
    } else if code == seq![57u8, 48, 48, 48, 57, 50] {
        // '900092'
        Some(Model::RaspberryPiZero)
    } else if code == seq![57u8, 48, 48, 48, 57, 51] {
        // '900093'
        Some(Model::RaspberryPiZero)
    } else if code == seq![57u8, 50, 48, 48, 57, 50] {
        // '920092'
        Some(Model::RaspberryPiZero)
    } else if code == seq![57u8, 50, 48, 48, 57, 51] {
        // '920093'
        Some(Model::RaspberryPiZero)
    } else if code == seq![57u8, 48, 48, 48, 54, 49] {
        // '900061'
        Some(Model::RaspberryPiComputeModule)
    } else if code == seq![97u8, 48, 50, 48, 97, 48] {
        // 'a020a0'
        Some(Model::RaspberryPiComputeModule3)
    } else if code == seq![97u8, 50, 50, 48, 97, 48] {
        // 'a220a0'
        Some(Model::RaspberryPiComputeModule3)
    } else if code == seq![57u8, 48, 48, 48, 99, 49] {
        // '9000c1'
        Some(Model::RaspberryPiZeroW)
    } else if code == seq![97u8, 48, 50, 48, 100, 51] {
        // 'a020d3'
        Some(Model::RaspberryPi3BPlus)
    } else if code == seq![57u8, 48, 50, 48, 101, 48] {
        // '9020e0'
        Some(Model::RaspberryPi3APlus)
    } else if code == seq![97u8, 48, 50, 49, 48, 48] {
        // 'a02100'
        Some(Model::RaspberryPiComputeModule3Plus)
    } else if code == seq![97u8, 48, 51, 49, 49, 49] {
        // 'a03111'
        Some(Model::RaspberryPi4B)
    } else if code == seq![97u8, 48, 51, 49, 49, 50] {
        // 'a03112'
        Some(Model::RaspberryPi4B)
    } else if code == seq![98u8, 48, 51, 49, 49, 49] {
        // 'b03111'
        Some(Model::RaspberryPi4B)
    } else if code == seq![98u8, 48, 51, 49, 49, 50] {
        // 'b03112'
        Some(Model::RaspberryPi4B)
    } else if code == seq![98u8, 48, 51, 49, 49, 52] {
        // 'b03114'
        Some(Model::RaspberryPi4B)
    } else if code == seq![98u8, 48, 51, 49, 49, 53] {
        // 'b03115'
        Some(Model::RaspberryPi4B)
    } else if code == seq![99u8, 48, 51, 49, 49, 49] {
        // 'c03111'
        Some(Model::RaspberryPi4B)
    } else if code == seq![99u8, 48, 51, 49, 49, 50] {
        // 'c03112'
        Some(Model::RaspberryPi4B)
    } else if code == seq![99u8, 48, 51, 49, 49, 52] {
        // 'c03114'
        Some(Model::RaspberryPi4B)
    } else if code == seq![99u8, 48, 51, 49, 49, 53] {
        // 'c03115'
        Some(Model::RaspberryPi4B)
    } else if code == seq![100u8, 48, 51, 49, 49, 52] {
        // 'd03114'
        Some(Model::RaspberryPi4B)
    } else if code == seq![100u8, 48, 51, 49, 49, 53] {
        // 'd03115'
        Some(Model::RaspberryPi4B)
    } else if code == seq![99u8, 48, 51, 49, 51, 48] {
        // 'c03130'
        Some(Model::RaspberryPi400)
    } else if code == seq![97u8, 48, 51, 49, 52, 48] {
        // 'a03140'
        Some(Model::RaspberryPiComputeModule4)
    } else if code == seq![98u8, 48, 51, 49, 52, 48] {
        // 'b03140'
        Some(Model::RaspberryPiComputeModule4)
    } else if code == seq![99u8, 48, 51, 49, 52, 48] {
        // 'c03140'
        Some(Model::RaspberryPiComputeModule4)
    } else if code == seq![99u8, 48, 51, 49, 52, 49] {
        // 'c03141'
        Some(Model::RaspberryPiComputeModule4)
    } else if code == seq![100u8, 48, 51, 49, 52, 48] {
        // 'd03140'
        Some(Model::RaspberryPiComputeModule4)
    } else if code == seq![97u8, 48, 51, 49, 53, 48] {
        // 'a03150'
        Some(Model::RaspberryPiComputeModule4S)
    } else if code == seq![57u8, 48, 50, 49, 50, 48] {
        // '902120'
        Some(Model::RaspberryPiZero2W)
    } else {
        None
    }
}

/// Looks a six-character revision code up.
fn new_revision_lookup(code: &[u8]) -> (r: Option<Model>)
    ensures
        r == new_revision_model(code@),
{
    if bytes_eq(code, &[57u8, 48, 48, 48, 50, 49]) {
        // '900021'
        Some(Model::RaspberryPiAPlus)
    } else if bytes_eq(code, &[57u8, 48, 48, 48, 51, 50]) {
        // '900032'
        Some(Model::RaspberryPiBPlus)
    } else if bytes_eq(code, &[97u8, 48, 49, 48, 52, 48]) {
        // 'a01040'
        Some(Model::RaspberryPi2B)
    } else if bytes_eq(code, &[97u8, 48, 49, 48, 52, 49]) {
        // 'a01041'
        Some(Model::RaspberryPi2B)
    } else if bytes_eq(code, &[97u8, 50, 49, 48, 52, 49]) {
        // 'a21041'
        Some(Model::RaspberryPi2B)
    } else if bytes_eq(code, &[97u8, 48, 50, 48, 52, 50]) {
        // 'a02042'
        Some(Model::RaspberryPi2B)
    } else if bytes_eq(code, &[97u8, 50, 50, 48, 52, 50]) {
        // 'a22042'
        Some(Model::RaspberryPi2B)
    } else if bytes_eq(code, &[97u8, 48, 50, 48, 56, 50]) {
        // 'a02082'
        Some(Model::RaspberryPi3B)
    } else if bytes_eq(code, &[97u8, 50, 50, 48, 56, 50]) {
        // 'a22082'
        Some(Model::RaspberryPi3B)
    } else if bytes_eq(code, &[97u8, 50, 50, 48, 56, 51]) {
        // 'a22083'
        Some(Model::RaspberryPi3B)
    } else if bytes_eq(code, &[97u8, 51, 50, 48, 56, 50]) {
        // 'a32082'
        Some(Model::RaspberryPi3B)
    } else if bytes_eq(code, &[97u8, 53, 50, 48, 56, 50]) {
        // 'a52082'
        Some(Model::RaspberryPi3B)
    } else if bytes_eq(code, &[57u8, 48, 48, 48, 57, 50]) {
        // '900092'
        Some(Model::RaspberryPiZero)
    } else if bytes_eq(code, &[57u8, 48, 48, 48, 57, 51]) {
        // '900093'
        Some(Model::RaspberryPiZero)
    } else if bytes_eq(code, &[57u8, 50, 48, 48, 57, 50]) {
        // '920092'
        Some(Model::RaspberryPiZero)
    } else if bytes_eq(code, &[57u8, 50, 48, 48, 57, 51]) {
        // '920093'
        Some(Model::RaspberryPiZero)
    } else if bytes_eq(code, &[57u8, 48, 48, 48, 54, 49]) {
        // '900061'
        Some(Model::RaspberryPiComputeModule)
    } else if bytes_eq(code, &[97u8, 48, 50, 48, 97, 48]) {
        // 'a020a0'
        Some(Model::RaspberryPiComputeModule3)
    } else if bytes_eq(code, &[97u8, 50, 50, 48, 97, 48]) {
        // 'a220a0'
        Some(Model::RaspberryPiComputeModule3)
    } else if bytes_eq(code, &[57u8, 48, 48, 48, 99, 49]) {
        // '9000c1'
        Some(Model::RaspberryPiZeroW)
    } else if bytes_eq(code, &[97u8, 48, 50, 48, 100, 51]) {
        // 'a020d3'
        Some(Model::RaspberryPi3BPlus)
    } else if bytes_eq(code, &[57u8, 48, 50, 48, 101, 48]) {
        // '9020e0'
        Some(Model::RaspberryPi3APlus)
    } else if bytes_eq(code, &[97u8, 48, 50, 49, 48, 48]) {
        // 'a02100'
        Some(Model::RaspberryPiComputeModule3Plus)
    } else if bytes_eq(code, &[97u8, 48, 51, 49, 49, 49]) {
        // 'a03111'
        Some(Model::RaspberryPi4B)
    } else if bytes_eq(code, &[97u8, 48, 51, 49, 49, 50]) {
        // 'a03112'
        Some(Model::RaspberryPi4B)
    } else if bytes_eq(code, &[98u8, 48, 51, 49, 49, 49]) {
        // 'b03111'
        Some(Model::RaspberryPi4B)
    } else if bytes_eq(code, &[98u8, 48, 51, 49, 49, 50]) {
        // 'b03112'
        Some(Model::RaspberryPi4B)
    } else if bytes_eq(code, &[98u8, 48, 51, 49, 49, 52]) {
        // 'b03114'
        Some(Model::RaspberryPi4B)
    } else if bytes_eq(code, &[98u8, 48, 51, 49, 49, 53]) {
        // 'b03115'
        Some(Model::RaspberryPi4B)
    } else if bytes_eq(code, &[99u8, 48, 51, 49, 49, 49]) {
        // 'c03111'
        Some(Model::RaspberryPi4B)
    } else if bytes_eq(code, &[99u8, 48, 51, 49, 49, 50]) {
        // 'c03112'
        Some(Model::RaspberryPi4B)
    } else if bytes_eq(code, &[99u8, 48, 51, 49, 49, 52]) {
        // 'c03114'
        Some(Model::RaspberryPi4B)
    } else if bytes_eq(code, &[99u8, 48, 51, 49, 49, 53]) {
        // 'c03115'
        Some(Model::RaspberryPi4B)
    } else if bytes_eq(code, &[100u8, 48, 51, 49, 49, 52]) {
        // 'd03114'
        Some(Model::RaspberryPi4B)
    } else if bytes_eq(code, &[100u8, 48, 51, 49, 49, 53]) {
        // 'd03115'
        Some(Model::RaspberryPi4B)
    } else if bytes_eq(code, &[99u8, 48, 51, 49, 51, 48]) {
        // 'c03130'
        Some(Model::RaspberryPi400)
    } else if bytes_eq(code, &[97u8, 48, 51, 49, 52, 48]) {
        // 'a03140'
        Some(Model::RaspberryPiComputeModule4)
    } else if bytes_eq(code, &[98u8, 48, 51, 49, 52, 48]) {
        // 'b03140'
        Some(Model::RaspberryPiComputeModule4)
    } else if bytes_eq(code, &[99u8, 48, 51, 49, 52, 48]) {
        // 'c03140'
        Some(Model::RaspberryPiComputeModule4)
    } else if bytes_eq(code, &[99u8, 48, 51, 49, 52, 49]) {
        // 'c03141'
        Some(Model::RaspberryPiComputeModule4)
    } else if bytes_eq(code, &[100u8, 48, 51, 49, 52, 48]) {
        // 'd03140'
        Some(Model::RaspberryPiComputeModule4)
    } else if bytes_eq(code, &[97u8, 48, 51, 49, 53, 48]) {
        // 'a03150'
        Some(Model::RaspberryPiComputeModule4S)
    } else if bytes_eq(code, &[57u8, 48, 50, 49, 50, 48]) {
        // '902120'
        Some(Model::RaspberryPiZero2W)
    } else {
        None
    }
}

/// The model a lowercase revision code stands for. Codes of four characters,
/// or eight when the board has been over-volted, are looked up by their last
/// four characters; other codes of at least six characters are looked up
/// whole. Lengths are counted in bytes.
pub open spec fn revision_model(rev: Seq<u8>) -> Option<Model> {
    if rev.len() == 4 || rev.len() == 8 {
        old_revision_model(rev.subrange(rev.len() - 4, rev.len() as int))
    } else if rev.len() >= 6 {
        new_revision_model(rev)
    } else {
        None
    }
}

/// The prefix of the hardware line of `/proc/cpuinfo`.
pub open spec fn hardware_prefix() -> Seq<u8> {
    seq![72u8, 97, 114, 100, 119, 97, 114, 101, 9, 58, 32]
}

/// The prefix of the revision line of `/proc/cpuinfo`.
pub open spec fn revision_prefix() -> Seq<u8> {
    seq![82u8, 101, 118, 105, 115, 105, 111, 110, 9, 58, 32]
}

/// A line without the carriage return that ended it.
pub open spec fn strip_cr(line: Seq<u8>) -> Seq<u8> {
    if line.len() > 0 && line.last() == 13 {
        line.drop_last()
    } else {
        line
    }
}

/// The hardware and revision values after one more line of `/proc/cpuinfo`.
/// Lines that aren't valid UTF-8 are skipped; a later hardware or revision
/// line replaces an earlier one.
pub open spec fn cpuinfo_line(line: Seq<u8>, fields: (Seq<u8>, Seq<u8>)) -> (Seq<u8>, Seq<u8>) {
    if !valid_utf8(line) {
        fields
    } else if has_prefix(line, hardware_prefix()) {
        (line.subrange(11, line.len() as int), fields.1)
    } else if has_prefix(line, revision_prefix()) {
        (fields.0, line.subrange(11, line.len() as int))
    } else {
        fields
    }
}

/// The hardware and revision values found in `/proc/cpuinfo` contents, line
/// by line. A line ends at a newline, which is removed together with a
/// carriage return just before it; the last line may lack a newline.
pub open spec fn cpuinfo_scan(b: Seq<u8>, fields: (Seq<u8>, Seq<u8>)) -> (Seq<u8>, Seq<u8>)
    decreases b.len(),
{
    if b.len() == 0 {
        fields
    } else {
        let e = first_index(b, 10);
        if e < b.len() {
            proof {
                lemma_first_index_bounds(b, 10);
            }
            cpuinfo_scan(
                b.subrange(e + 1, b.len() as int),
                cpuinfo_line(strip_cr(b.subrange(0, e)), fields),
            )
        } else {
            cpuinfo_line(b, fields)
        }
    }
}

/// The model `/proc/cpuinfo` contents identify: the hardware must be a
/// Raspberry Pi SoC, and the lowercase revision a known code.
pub open spec fn cpuinfo_model(contents: Seq<u8>) -> Result<Model, Error> {
    let fields = cpuinfo_scan(contents, (seq![], seq![]));
    if !known_hardware(fields.0) {
        Err(Error::UnknownModel)
    } else {
        match revision_model(encode_utf8(unicode_lowercase(decode_utf8(fields.1)))) {
            Some(model) => Ok(model),
            None => Err(Error::UnknownModel),
        }
    }
}

/// The model `/proc/cpuinfo` contents with an ASCII revision code identify:
/// the revision is lowercased the ASCII way.
pub open spec fn cpuinfo_model_ascii(contents: Seq<u8>) -> Result<Model, Error> {
    let fields = cpuinfo_scan(contents, (seq![], seq![]));
    if !known_hardware(fields.0) {
        Err(Error::UnknownModel)
    } else {
        match revision_model(fields.1.map_values(|x: u8| ascii_lowercase_byte(x))) {
            Some(model) => Ok(model),
            None => Err(Error::UnknownModel),
        }
    }
}

/// Applies one line of `/proc/cpuinfo` to the hardware and revision values.
fn apply_cpuinfo_line(line: &[u8], hardware: &mut Vec<u8>, revision: &mut Vec<u8>)
    requires
        valid_utf8(old(revision)@),
    ensures
        (final(hardware)@, final(revision)@) == cpuinfo_line(line@, (old(hardware)@, old(revision)@)),
        valid_utf8(final(revision)@),
{
    if !is_valid_utf8(line) {
        return;
    }
    let hw_prefix: &[u8] = &[72u8, 97, 114, 100, 119, 97, 114, 101, 9, 58, 32];
    let rev_prefix: &[u8] = &[82u8, 101, 118, 105, 115, 105, 111, 110, 9, 58, 32];
    assert(hw_prefix@ == hardware_prefix());
    assert(rev_prefix@ == revision_prefix());
    if starts_with(line, hw_prefix) {
        *hardware = vstd::slice::slice_to_vec(&line[11..line.len()]);
    } else if starts_with(line, rev_prefix) {
        proof {
            assert(line@.subrange(0, 11) == revision_prefix());
            assert forall|k: int| 0 <= k < 11 implies line@[k] < 0x80 by {
                assert(line@[k] == line@.subrange(0, 11)[k]);
            }
            lemma_valid_utf8_drop_ascii(line@, 11);
        }
        *revision = vstd::slice::slice_to_vec(&line[11..line.len()]);
    }
}

/// The hardware and revision values of `/proc/cpuinfo` contents.
fn cpuinfo_fields(contents: &[u8]) -> (r: (Vec<u8>, Vec<u8>))
    ensures
        (r.0@, r.1@) == cpuinfo_scan(contents@, (seq![], seq![])),
        valid_utf8(r.1@),
{
    let mut hardware: Vec<u8> = Vec::new();
    let mut revision: Vec<u8> = Vec::new();
    let mut start: usize = 0;
    assert(contents@.subrange(0, contents@.len() as int) =~= contents@);
    while start < contents.len()
        invariant
            start <= contents.len(),
            cpuinfo_scan(contents@, (seq![], seq![])) == cpuinfo_scan(
                contents@.subrange(start as int, contents@.len() as int),
                (hardware@, revision@),
            ),
            valid_utf8(revision@),
        decreases contents.len() - start,
    {
        let ghost rest = contents@.subrange(start as int, contents@.len() as int);
        let end = find_byte(contents, start, 10);
        if end < contents.len() {
            let mut line_end = end;
            if end > start && contents[end - 1] == 13 {
                line_end = end - 1;
            }
            let line = &contents[start..line_end];
            proof {
                assert(rest.subrange(0, end - start) =~= contents@.subrange(start as int, end as int));
                assert(line@ == strip_cr(rest.subrange(0, end - start))) by {
                    if end > start && contents@[end - 1] == 13 {
                        assert(contents@.subrange(start as int, end as int).drop_last()
                            =~= contents@.subrange(start as int, end - 1));
                    }
                }
                assert(rest.subrange(end - start + 1, rest.len() as int) =~= contents@.subrange(
                    end + 1,
                    contents@.len() as int,
                ));
            }
            apply_cpuinfo_line(line, &mut hardware, &mut revision);
            start = end + 1;
        } else {
            let line = &contents[start..contents.len()];
            apply_cpuinfo_line(line, &mut hardware, &mut revision);
            start = contents.len();
            assert(contents@.subrange(start as int, contents@.len() as int) =~= Seq::<u8>::empty());
        }
    }
    (hardware, revision)
}

/// The model a lowercase revision code, as UTF-8 bytes, stands for: the step
/// that follows lowercasing the revision read from `/proc/cpuinfo`.
pub fn revision_lookup(rev: &[u8]) -> (r: Option<Model>)
    ensures
        r == revision_model(rev@),
{
    if rev.len() == 4 || rev.len() == 8 {
        old_revision_lookup(&rev[rev.len() - 4..rev.len()])
    } else if rev.len() >= 6 {
        new_revision_lookup(rev)
    } else {
        None
    }
}

/// The lowercase revision code of `/proc/cpuinfo` contents, as UTF-8 bytes.
pub open spec fn cpuinfo_revision(contents: Seq<u8>) -> Seq<u8> {
    encode_utf8(unicode_lowercase(decode_utf8(cpuinfo_scan(contents, (seq![], seq![])).1)))
}

/// Whether identifying the model from `/proc/cpuinfo` contents would cut the
/// lowercase revision code inside a character: the hardware is known and the
/// code is eight bytes long, the last four of which don't start at a
/// character boundary.
pub open spec fn revision_slice_panics(contents: Seq<u8>) -> bool {
    let rev = cpuinfo_revision(contents);
    &&& known_hardware(cpuinfo_scan(contents, (seq![], seq![])).0)
    &&& (rev.len() == 4 || rev.len() == 8)
    &&& !is_char_boundary(rev, rev.len() - 4)
}

/// The hardware check and the lowercase revision code of `/proc/cpuinfo`
/// contents, and whether the code can be cut before its last four bytes.
fn cpuinfo_parts(contents: &[u8]) -> (r: (bool, Vec<u8>, bool))
    ensures
        r.0 == known_hardware(cpuinfo_scan(contents@, (seq![], seq![])).0),
        r.1@ == cpuinfo_revision(contents@),
        r.2 == !revision_slice_panics(contents@),
        ascii_bytes(cpuinfo_scan(contents@, (seq![], seq![])).1) ==> r.1@ == cpuinfo_scan(
            contents@,
            (seq![], seq![]),
        ).1.map_values(|x: u8| ascii_lowercase_byte(x)) && r.2,
{
    let (hardware, revision) = cpuinfo_fields(contents);
    let known = is_known_hardware(hardware.as_slice());
    let lower = utf8_lowercase(revision.as_slice());
    proof {
        vstd::utf8::encode_utf8_valid_utf8(unicode_lowercase(decode_utf8(revision@)));
        if lower@.len() == 4 {
            assert(is_char_boundary(lower@, 0));
        }
        if lower@.len() == 8 {
            is_char_boundary_iff_not_is_continuation_byte(lower@, 4);
        }
    }
    proof {
        if ascii_bytes(revision@) && lower@.len() == 8 {
            assert(lower@[4] == ascii_lowercase_byte(revision@[4]));
        }
    }
    let sliceable = !(lower.len() == 8 && 0x80 <= lower[4] && lower[4] <= 0xbf);
    (known, lower, sliceable || !known)
}

/// Identifies the model from the contents of `/proc/cpuinfo`: the hardware
/// must be a Raspberry Pi SoC and the lowercase revision a known code.
pub fn parse_proc_cpuinfo(contents: &[u8]) -> (r: Result<Model, Error>)
    requires
        !revision_slice_panics(contents@),
    ensures
        r == cpuinfo_model(contents@),
        ascii_bytes(cpuinfo_scan(contents@, (seq![], seq![])).1) ==> r == cpuinfo_model_ascii(
            contents@,
        ),
{
    let (known, lower, _) = cpuinfo_parts(contents);
    if !known {
        return Err(Error::UnknownModel);
    }
    match revision_lookup(lower.as_slice()) {
        Some(model) => Ok(model),
        None => Err(Error::UnknownModel),
    }
}

/// Identifies the model from the contents of `/proc/cpuinfo`, or gives
/// `None` for contents whose revision code can't be cut before its last four
/// bytes.
pub fn try_parse_proc_cpuinfo(contents: &[u8]) -> (r: Option<Result<Model, Error>>)
    ensures
        r is None <==> revision_slice_panics(contents@),
        r matches Some(m) ==> m == cpuinfo_model(contents@),
        ascii_bytes(cpuinfo_scan(contents@, (seq![], seq![])).1) ==> r == Some(
            cpuinfo_model_ascii(contents@),
        ),
{
    let (_, _, sliceable) = cpuinfo_parts(contents);
    if sliceable {
        Some(parse_proc_cpuinfo(contents))
    } else {
        None
    }
}

// ---------------------------------------------------------------------------
// /sys/firmware/devicetree/base/compatible

/// Models of the device tree `compatible` identifiers.
pub open spec fn compatible_model(id: Seq<u8>) -> Option<Model> {
    if id == seq![114u8, 97, 115, 112, 98, 101, 114, 114, 121, 112, 105, 44, 109, 111, 100, 101, 108, 45, 98, 45, 105, 50, 99, 48] {
        // 'raspberrypi,model-b-i2c0'
        Some(Model::RaspberryPiBRev1)
    } else if id == seq![114u8, 97, 115, 112, 98, 101, 114, 114, 121, 112, 105, 44, 109, 111, 100, 101, 108, 45, 98] {
        // 'raspberrypi,model-b'
        Some(Model::RaspberryPiBRev1)
    } else if id == seq![114u8, 97, 115, 112, 98, 101, 114, 114, 121, 112, 105, 44, 109, 111, 100, 101, 108, 45, 97] {
        // 'raspberrypi,model-a'
        Some(Model::RaspberryPiA)
    } else if id == seq![114u8, 97, 115, 112, 98, 101, 114, 114, 121, 112, 105, 44, 109, 111, 100, 101, 108, 45, 98, 45, 114, 101, 118, 50] {
        // 'raspberrypi,model-b-rev2'
        Some(Model::RaspberryPiBRev2)
    } else if id == seq![114u8, 97, 115, 112, 98, 101, 114, 114, 121, 112, 105, 44, 109, 111, 100, 101, 108, 45, 97, 45, 112, 108, 117, 115] {
        // 'raspberrypi,model-a-plus'
        Some(Model::RaspberryPiAPlus)
    } else if id == seq![114u8, 97, 115, 112, 98, 101, 114, 114, 121, 112, 105, 44, 109, 111, 100, 101, 108, 45, 98, 45, 112, 108, 117, 115] {
        // 'raspberrypi,model-b-plus'
        Some(Model::RaspberryPiBPlus)
    } else if id == seq![114u8, 97, 115, 112, 98, 101, 114, 114, 121, 112, 105, 44, 50, 45, 109, 111, 100, 101, 108, 45, 98] {
        // 'raspberrypi,2-model-b'
        Some(Model::RaspberryPi2B)
    } else if id == seq![114u8, 97, 115, 112, 98, 101, 114, 114, 121, 112, 105, 44, 99, 111, 109, 112, 117, 116, 101, 45, 109, 111, 100, 117, 108, 101] {
        // 'raspberrypi,compute-module'
        Some(Model::RaspberryPiComputeModule)
    } else if id == seq![114u8, 97, 115, 112, 98, 101, 114, 114, 121, 112, 105, 44, 51, 45, 109, 111, 100, 101, 108, 45, 98] {
        // 'raspberrypi,3-model-b'
        Some(Model::RaspberryPi3B)
    } else if id == seq![114u8, 97, 115, 112, 98, 101, 114, 114, 121, 112, 105, 44, 109, 111, 100, 101, 108, 45, 122, 101, 114, 111] {
        // 'raspberrypi,model-zero'
        Some(Model::RaspberryPiZero)
    } else if id == seq![114u8, 97, 115, 112, 98, 101, 114, 114, 121, 112, 105, 44, 51, 45, 99, 111, 109, 112, 117, 116, 101, 45, 109, 111, 100, 117, 108, 101] {
        // 'raspberrypi,3-compute-module'
        Some(Model::RaspberryPiComputeModule3)
    } else if id == seq![114u8, 97, 115, 112, 98, 101, 114, 114, 121, 112, 105, 44, 51, 45, 99, 111, 109, 112, 117, 116, 101, 45, 109, 111, 100, 117, 108, 101, 45, 112, 108, 117, 115] {
        // 'raspberrypi,3-compute-module-plus'
        Some(Model::RaspberryPiComputeModule3Plus)
    } else if id == seq![114u8, 97, 115, 112, 98, 101, 114, 114, 121, 112, 105, 44, 109, 111, 100, 101, 108, 45, 122, 101, 114, 111, 45, 119] {
        // 'raspberrypi,model-zero-w'
        Some(Model::RaspberryPiZeroW)
    } else if id == seq![114u8, 97, 115, 112, 98, 101, 114, 114, 121, 112, 105, 44, 109, 111, 100, 101, 108, 45, 122, 101, 114, 111, 45, 50] {
        // 'raspberrypi,model-zero-2'
        Some(Model::RaspberryPiZero2W)
    } else if id == seq![114u8, 97, 115, 112, 98, 101, 114, 114, 121, 112, 105, 44, 51, 45, 109, 111, 100, 101, 108, 45, 98, 45, 112, 108, 117, 115] {
        // 'raspberrypi,3-model-b-plus'
        Some(Model::RaspberryPi3BPlus)
    } else if id == seq![114u8, 97, 115, 112, 98, 101, 114, 114, 121, 112, 105, 44, 51, 45, 109, 111, 100, 101, 108, 45, 97, 45, 112, 108, 117, 115] {
        // 'raspberrypi,3-model-a-plus'
        Some(Model::RaspberryPi3APlus)
    } else if id == seq![114u8, 97, 115, 112, 98, 101, 114, 114, 121, 112, 105, 44, 52, 45, 109, 111, 100, 101, 108, 45, 98] {
        // 'raspberrypi,4-model-b'
        Some(Model::RaspberryPi4B)
    } else if id == seq![114u8, 97, 115, 112, 98, 101, 114, 114, 121, 112, 105, 44, 52, 48, 48] {
        // 'raspberrypi,400'
        Some(Model::RaspberryPi400)
    } else if id == seq![114u8, 97, 115, 112, 98, 101, 114, 114, 121, 112, 105, 44, 52, 45, 99, 111, 109, 112, 117, 116, 101, 45, 109, 111, 100, 117, 108, 101] {
        // 'raspberrypi,4-compute-module'
        Some(Model::RaspberryPiComputeModule4)
    } else if id == seq![114u8, 97, 115, 112, 98, 101, 114, 114, 121, 112, 105, 44, 52, 45, 99, 111, 109, 112, 117, 116, 101, 45, 109, 111, 100, 117, 108, 101, 45, 115] {
        // 'raspberrypi,4-compute-module-s'
        Some(Model::RaspberryPiComputeModule4S)
    } else {
        None
    }
}

/// Looks a device tree `compatible` identifier up.
fn compatible_lookup(id: &[u8]) -> (r: Option<Model>)
    ensures
        r == compatible_model(id@),
{
    if bytes_eq(id, &[114u8, 97, 115, 112, 98, 101, 114, 114, 121, 112, 105, 44, 109, 111, 100, 101, 108, 45, 98, 45, 105, 50, 99, 48]) {
        // 'raspberrypi,model-b-i2c0'
        Some(Model::RaspberryPiBRev1)
    } else if bytes_eq(id, &[114u8, 97, 115, 112, 98, 101, 114, 114, 121, 112, 105, 44, 109, 111, 100, 101, 108, 45, 98]) {
        // 'raspberrypi,model-b'
        Some(Model::RaspberryPiBRev1)
    } else if bytes_eq(id, &[114u8, 97, 115, 112, 98, 101, 114, 114, 121, 112, 105, 44, 109, 111, 100, 101, 108, 45, 97]) {
        // 'raspberrypi,model-a'
        Some(Model::RaspberryPiA)
    } else if bytes_eq(id, &[114u8, 97, 115, 112, 98, 101, 114, 114, 121, 112, 105, 44, 109, 111, 100, 101, 108, 45, 98, 45, 114, 101, 118, 50]) {
        // 'raspberrypi,model-b-rev2'
        Some(Model::RaspberryPiBRev2)
    } else if bytes_eq(id, &[114u8, 97, 115, 112, 98, 101, 114, 114, 121, 112, 105, 44, 109, 111, 100, 101, 108, 45, 97, 45, 112, 108, 117, 115]) {
        // 'raspberrypi,model-a-plus'
        Some(Model::RaspberryPiAPlus)
    } else if bytes_eq(id, &[114u8, 97, 115, 112, 98, 101, 114, 114, 121, 112, 105, 44, 109, 111, 100, 101, 108, 45, 98, 45, 112, 108, 117, 115]) {
        // 'raspberrypi,model-b-plus'
        Some(Model::RaspberryPiBPlus)
    } else if bytes_eq(id, &[114u8, 97, 115, 112, 98, 101, 114, 114, 121, 112, 105, 44, 50, 45, 109, 111, 100, 101, 108, 45, 98]) {
        // 'raspberrypi,2-model-b'
        Some(Model::RaspberryPi2B)
    } else if bytes_eq(id, &[114u8, 97, 115, 112, 98, 101, 114, 114, 121, 112, 105, 44, 99, 111, 109, 112, 117, 116, 101, 45, 109, 111, 100, 117, 108, 101]) {
        // 'raspberrypi,compute-module'
        Some(Model::RaspberryPiComputeModule)
    } else if bytes_eq(id, &[114u8, 97, 115, 112, 98, 101, 114, 114, 121, 112, 105, 44, 51, 45, 109, 111, 100, 101, 108, 45, 98]) {
        // 'raspberrypi,3-model-b'
        Some(Model::RaspberryPi3B)
    } else if bytes_eq(id, &[114u8, 97, 115, 112, 98, 101, 114, 114, 121, 112, 105, 44, 109, 111, 100, 101, 108, 45, 122, 101, 114, 111]) {
        // 'raspberrypi,model-zero'
        Some(Model::RaspberryPiZero)
    } else if bytes_eq(id, &[114u8, 97, 115, 112, 98, 101, 114, 114, 121, 112, 105, 44, 51, 45, 99, 111, 109, 112, 117, 116, 101, 45, 109, 111, 100, 117, 108, 101]) {
        // 'raspberrypi,3-compute-module'
        Some(Model::RaspberryPiComputeModule3)
    } else if bytes_eq(id, &[114u8, 97, 115, 112, 98, 101, 114, 114, 121, 112, 105, 44, 51, 45, 99, 111, 109, 112, 117, 116, 101, 45, 109, 111, 100, 117, 108, 101, 45, 112, 108, 117, 115]) {
        // 'raspberrypi,3-compute-module-plus'
        Some(Model::RaspberryPiComputeModule3Plus)
    } else if bytes_eq(id, &[114u8, 97, 115, 112, 98, 101, 114, 114, 121, 112, 105, 44, 109, 111, 100, 101, 108, 45, 122, 101, 114, 111, 45, 119]) {
        // 'raspberrypi,model-zero-w'
        Some(Model::RaspberryPiZeroW)
    } else if bytes_eq(id, &[114u8, 97, 115, 112, 98, 101, 114, 114, 121, 112, 105, 44, 109, 111, 100, 101, 108, 45, 122, 101, 114, 111, 45, 50]) {
        // 'raspberrypi,model-zero-2'
        Some(Model::RaspberryPiZero2W)
    } else if bytes_eq(id, &[114u8, 97, 115, 112, 98, 101, 114, 114, 121, 112, 105, 44, 51, 45, 109, 111, 100, 101, 108, 45, 98, 45, 112, 108, 117, 115]) {
        // 'raspberrypi,3-model-b-plus'
        Some(Model::RaspberryPi3BPlus)
    } else if bytes_eq(id, &[114u8, 97, 115, 112, 98, 101, 114, 114, 121, 112, 105, 44, 51, 45, 109, 111, 100, 101, 108, 45, 97, 45, 112, 108, 117, 115]) {
        // 'raspberrypi,3-model-a-plus'
        Some(Model::RaspberryPi3APlus)
    } else if bytes_eq(id, &[114u8, 97, 115, 112, 98, 101, 114, 114, 121, 112, 105, 44, 52, 45, 109, 111, 100, 101, 108, 45, 98]) {
        // 'raspberrypi,4-model-b'
        Some(Model::RaspberryPi4B)
    } else if bytes_eq(id, &[114u8, 97, 115, 112, 98, 101, 114, 114, 121, 112, 105, 44, 52, 48, 48]) {
        // 'raspberrypi,400'
        Some(Model::RaspberryPi400)
    } else if bytes_eq(id, &[114u8, 97, 115, 112, 98, 101, 114, 114, 121, 112, 105, 44, 52, 45, 99, 111, 109, 112, 117, 116, 101, 45, 109, 111, 100, 117, 108, 101]) {
        // 'raspberrypi,4-compute-module'
        Some(Model::RaspberryPiComputeModule4)
    } else if bytes_eq(id, &[114u8, 97, 115, 112, 98, 101, 114, 114, 121, 112, 105, 44, 52, 45, 99, 111, 109, 112, 117, 116, 101, 45, 109, 111, 100, 117, 108, 101, 45, 115]) {
        // 'raspberrypi,4-compute-module-s'
        Some(Model::RaspberryPiComputeModule4S)
    } else {
        None
    }
}

/// The first NUL-separated identifier of `compatible` contents that names a
/// known model.
pub open spec fn compatible_scan(b: Seq<u8>) -> Option<Model>
    decreases b.len(),
{
    let e = first_index(b, 0);
    match compatible_model(b.subrange(0, e)) {
        Some(model) => Some(model),
        None => if e < b.len() {
            proof {
                lemma_first_index_bounds(b, 0);
            }
            compatible_scan(b.subrange(e + 1, b.len() as int))
        } else {
            None
        },
    }
}

/// The model device tree `compatible` contents identify; contents that
/// aren't valid UTF-8 identify none.
pub open spec fn compatible_contents_model(contents: Seq<u8>) -> Result<Model, Error> {
    if !valid_utf8(contents) {
        Err(Error::UnknownModel)
    } else {
        match compatible_scan(contents) {
            Some(model) => Ok(model),
            None => Err(Error::UnknownModel),
        }
    }
}

/// Identifies the model from the contents of the device tree `compatible` file.
pub fn parse_base_compatible(contents: &[u8]) -> (r: Result<Model, Error>)
    ensures
        r == compatible_contents_model(contents@),
{
    if !is_valid_utf8(contents) {
        return Err(Error::UnknownModel);
    }
    let mut start: usize = 0;
    assert(contents@.subrange(0, contents@.len() as int) =~= contents@);
    loop
        invariant
            start <= contents.len(),
            compatible_scan(contents@) == compatible_scan(
                contents@.subrange(start as int, contents@.len() as int),
            ),
            valid_utf8(contents@),
        decreases contents.len() - start,
    {
        let ghost rest = contents@.subrange(start as int, contents@.len() as int);
        let end = find_byte(contents, start, 0);
        assert(rest.subrange(0, end - start) =~= contents@.subrange(start as int, end as int));
        match compatible_lookup(&contents[start..end]) {
            Some(model) => {
                return Ok(model);
            },
            None => {},
        }
        if end == contents.len() {
            return Err(Error::UnknownModel);
        }
        assert(rest.subrange(end - start + 1, rest.len() as int) =~= contents@.subrange(
            end + 1,
            contents@.len() as int,
        ));
        start = end + 1;
    }
}

// ---------------------------------------------------------------------------
// /sys/firmware/devicetree/base/model

/// Models of the device tree model names, revision suffix removed.
pub open spec fn model_name_model(name: Seq<u8>) -> Option<Model> {
    if name == seq![82u8, 97, 115, 112, 98, 101, 114, 114, 121, 32, 80, 105, 32, 77, 111, 100, 101, 108, 32, 66, 32, 40, 110, 111, 32, 80, 53, 41] {
        // 'Raspberry Pi Model B (no P5)'
        Some(Model::RaspberryPiBRev1)
    } else if name == seq![82u8, 97, 115, 112, 98, 101, 114, 114, 121, 32, 80, 105, 32, 77, 111, 100, 101, 108, 32, 66] {
        // 'Raspberry Pi Model B'
        Some(Model::RaspberryPiBRev1)
    } else if name == seq![82u8, 97, 115, 112, 98, 101, 114, 114, 121, 32, 80, 105, 32, 77, 111, 100, 101, 108, 32, 65] {
        // 'Raspberry Pi Model A'
        Some(Model::RaspberryPiA)
    } else if name == seq![82u8, 97, 115, 112, 98, 101, 114, 114, 121, 32, 80, 105, 32, 77, 111, 100, 101, 108, 32, 66, 32, 114, 101, 118, 50] {
        // 'Raspberry Pi Model B rev2'
        Some(Model::RaspberryPiBRev2)
    } else if name == seq![82u8, 97, 115, 112, 98, 101, 114, 114, 121, 32, 80, 105, 32, 77, 111, 100, 101, 108, 32, 65, 43] {
        // 'Raspberry Pi Model A+'
        Some(Model::RaspberryPiAPlus)
    } else if name == seq![82u8, 97, 115, 112, 98, 101, 114, 114, 121, 32, 80, 105, 32, 77, 111, 100, 101, 108, 32, 65, 32, 80, 108, 117, 115] {
        // 'Raspberry Pi Model A Plus'
        Some(Model::RaspberryPiAPlus)
    } else if name == seq![82u8, 97, 115, 112, 98, 101, 114, 114, 121, 32, 80, 105, 32, 77, 111, 100, 101, 108, 32, 66, 43] {
        // 'Raspberry Pi Model B+'
        Some(Model::RaspberryPiBPlus)
    } else if name == seq![82u8, 97, 115, 112, 98, 101, 114, 114, 121, 32, 80, 105, 32, 77, 111, 100, 101, 108, 32, 66, 32, 80, 108, 117, 115] {
        // 'Raspberry Pi Model B Plus'
        Some(Model::RaspberryPiBPlus)
    } else if name == seq![82u8, 97, 115, 112, 98, 101, 114, 114, 121, 32, 80, 105, 32, 50, 32, 77, 111, 100, 101, 108, 32, 66] {
        // 'Raspberry Pi 2 Model B'
        Some(Model::RaspberryPi2B)
    } else if name == seq![82u8, 97, 115, 112, 98, 101, 114, 114, 121, 32, 80, 105, 32, 67, 111, 109, 112, 117, 116, 101, 32, 77, 111, 100, 117, 108, 101] {
        // 'Raspberry Pi Compute Module'
        Some(Model::RaspberryPiComputeModule)
    } else if name == seq![82u8, 97, 115, 112, 98, 101, 114, 114, 121, 32, 80, 105, 32, 51, 32, 77, 111, 100, 101, 108, 32, 66] {
        // 'Raspberry Pi 3 Model B'
        Some(Model::RaspberryPi3B)
    } else if name == seq![82u8, 97, 115, 112, 98, 101, 114, 114, 121, 32, 80, 105, 32, 90, 101, 114, 111] {
        // 'Raspberry Pi Zero'
        Some(Model::RaspberryPiZero)
    } else if name == seq![82u8, 97, 115, 112, 98, 101, 114, 114, 121, 32, 80, 105, 32, 67, 111, 109, 112, 117, 116, 101, 32, 77, 111, 100, 117, 108, 101, 32, 51] {
        // 'Raspberry Pi Compute Module 3'
        Some(Model::RaspberryPiComputeModule3)
    } else if name == seq![82u8, 97, 115, 112, 98, 101, 114, 114, 121, 32, 80, 105, 32, 67, 111, 109, 112, 117, 116, 101, 32, 77, 111, 100, 117, 108, 101, 32, 51, 32, 80, 108, 117, 115] {
        // 'Raspberry Pi Compute Module 3 Plus'
        Some(Model::RaspberryPiComputeModule3Plus)
    } else if name == seq![82u8, 97, 115, 112, 98, 101, 114, 114, 121, 32, 80, 105, 32, 90, 101, 114, 111, 32, 87] {
        // 'Raspberry Pi Zero W'
        Some(Model::RaspberryPiZeroW)
    } else if name == seq![82u8, 97, 115, 112, 98, 101, 114, 114, 121, 32, 80, 105, 32, 90, 101, 114, 111, 32, 50] {
        // 'Raspberry Pi Zero 2'
        Some(Model::RaspberryPiZero2W)
    } else if name == seq![82u8, 97, 115, 112, 98, 101, 114, 114, 121, 32, 80, 105, 32, 51, 32, 77, 111, 100, 101, 108, 32, 66, 43] {
        // 'Raspberry Pi 3 Model B+'
        Some(Model::RaspberryPi3BPlus)
    } else if name == seq![82u8, 97, 115, 112, 98, 101, 114, 114, 121, 32, 80, 105, 32, 51, 32, 77, 111, 100, 101, 108, 32, 66, 32, 80, 108, 117, 115] {
        // 'Raspberry Pi 3 Model B Plus'
        Some(Model::RaspberryPi3BPlus)
    } else if name == seq![82u8, 97, 115, 112, 98, 101, 114, 114, 121, 32, 80, 105, 32, 51, 32, 77, 111, 100, 101, 108, 32, 65, 32, 80, 108, 117, 115] {
        // 'Raspberry Pi 3 Model A Plus'
        Some(Model::RaspberryPi3APlus)
    } else if name == seq![82u8, 97, 115, 112, 98, 101, 114, 114, 121, 32, 80, 105, 32, 52, 32, 77, 111, 100, 101, 108, 32, 66] {
        // 'Raspberry Pi 4 Model B'
        Some(Model::RaspberryPi4B)
    } else if name == seq![82u8, 97, 115, 112, 98, 101, 114, 114, 121, 32, 80, 105, 32, 52, 48, 48] {
        // 'Raspberry Pi 400'
        Some(Model::RaspberryPi400)
    } else if name == seq![82u8, 97, 115, 112, 98, 101, 114, 114, 121, 32, 80, 105, 32, 67, 111, 109, 112, 117, 116, 101, 32, 77, 111, 100, 117, 108, 101, 32, 52] {
        // 'Raspberry Pi Compute Module 4'
        Some(Model::RaspberryPiComputeModule4)
    } else if name == seq![82u8, 97, 115, 112, 98, 101, 114, 114, 121, 32, 80, 105, 32, 67, 111, 109, 112, 117, 116, 101, 32, 77, 111, 100, 117, 108, 101, 32, 52, 83] {
        // 'Raspberry Pi Compute Module 4S'
        Some(Model::RaspberryPiComputeModule4S)
    } else {
        None
    }
}

/// Looks a device tree model name up.
fn model_name_lookup(name: &[u8]) -> (r: Option<Model>)
    ensures
        r == model_name_model(name@),
{
    if bytes_eq(name, &[82u8, 97, 115, 112, 98, 101, 114, 114, 121, 32, 80, 105, 32, 77, 111, 100, 101, 108, 32, 66, 32, 40, 110, 111, 32, 80, 53, 41]) {
        // 'Raspberry Pi Model B (no P5)'
        Some(Model::RaspberryPiBRev1)
    } else if bytes_eq(name, &[82u8, 97, 115, 112, 98, 101, 114, 114, 121, 32, 80, 105, 32, 77, 111, 100, 101, 108, 32, 66]) {
        // 'Raspberry Pi Model B'
        Some(Model::RaspberryPiBRev1)
    } else if bytes_eq(name, &[82u8, 97, 115, 112, 98, 101, 114, 114, 121, 32, 80, 105, 32, 77, 111, 100, 101, 108, 32, 65]) {
        // 'Raspberry Pi Model A'
        Some(Model::RaspberryPiA)
    } else if bytes_eq(name, &[82u8, 97, 115, 112, 98, 101, 114, 114, 121, 32, 80, 105, 32, 77, 111, 100, 101, 108, 32, 66, 32, 114, 101, 118, 50]) {
        // 'Raspberry Pi Model B rev2'
        Some(Model::RaspberryPiBRev2)
    } else if bytes_eq(name, &[82u8, 97, 115, 112, 98, 101, 114, 114, 121, 32, 80, 105, 32, 77, 111, 100, 101, 108, 32, 65, 43]) {
        // 'Raspberry Pi Model A+'
        Some(Model::RaspberryPiAPlus)
    } else if bytes_eq(name, &[82u8, 97, 115, 112, 98, 101, 114, 114, 121, 32, 80, 105, 32, 77, 111, 100, 101, 108, 32, 65, 32, 80, 108, 117, 115]) {
        // 'Raspberry Pi Model A Plus'
        Some(Model::RaspberryPiAPlus)
    } else if bytes_eq(name, &[82u8, 97, 115, 112, 98, 101, 114, 114, 121, 32, 80, 105, 32, 77, 111, 100, 101, 108, 32, 66, 43]) {
        // 'Raspberry Pi Model B+'
        Some(Model::RaspberryPiBPlus)
    } else if bytes_eq(name, &[82u8, 97, 115, 112, 98, 101, 114, 114, 121, 32, 80, 105, 32, 77, 111, 100, 101, 108, 32, 66, 32, 80, 108, 117, 115]) {
        // 'Raspberry Pi Model B Plus'
        Some(Model::RaspberryPiBPlus)
    } else if bytes_eq(name, &[82u8, 97, 115, 112, 98, 101, 114, 114, 121, 32, 80, 105, 32, 50, 32, 77, 111, 100, 101, 108, 32, 66]) {
        // 'Raspberry Pi 2 Model B'
        Some(Model::RaspberryPi2B)
    } else if bytes_eq(name, &[82u8, 97, 115, 112, 98, 101, 114, 114, 121, 32, 80, 105, 32, 67, 111, 109, 112, 117, 116, 101, 32, 77, 111, 100, 117, 108, 101]) {
        // 'Raspberry Pi Compute Module'
        Some(Model::RaspberryPiComputeModule)
    } else if bytes_eq(name, &[82u8, 97, 115, 112, 98, 101, 114, 114, 121, 32, 80, 105, 32, 51, 32, 77, 111, 100, 101, 108, 32, 66]) {
        // 'Raspberry Pi 3 Model B'
        Some(Model::RaspberryPi3B)
    } else if bytes_eq(name, &[82u8, 97, 115, 112, 98, 101, 114, 114, 121, 32, 80, 105, 32, 90, 101, 114, 111]) {
        // 'Raspberry Pi Zero'
        Some(Model::RaspberryPiZero)
    } else if bytes_eq(name, &[82u8, 97, 115, 112, 98, 101, 114, 114, 121, 32, 80, 105, 32, 67, 111, 109, 112, 117, 116, 101, 32, 77, 111, 100, 117, 108, 101, 32, 51]) {
        // 'Raspberry Pi Compute Module 3'
        Some(Model::RaspberryPiComputeModule3)
    } else if bytes_eq(name, &[82u8, 97, 115, 112, 98, 101, 114, 114, 121, 32, 80, 105, 32, 67, 111, 109, 112, 117, 116, 101, 32, 77, 111, 100, 117, 108, 101, 32, 51, 32, 80, 108, 117, 115]) {
        // 'Raspberry Pi Compute Module 3 Plus'
        Some(Model::RaspberryPiComputeModule3Plus)
    } else if bytes_eq(name, &[82u8, 97, 115, 112, 98, 101, 114, 114, 121, 32, 80, 105, 32, 90, 101, 114, 111, 32, 87]) {
        // 'Raspberry Pi Zero W'
        Some(Model::RaspberryPiZeroW)
    } else if bytes_eq(name, &[82u8, 97, 115, 112, 98, 101, 114, 114, 121, 32, 80, 105, 32, 90, 101, 114, 111, 32, 50]) {
        // 'Raspberry Pi Zero 2'
        Some(Model::RaspberryPiZero2W)
    } else if bytes_eq(name, &[82u8, 97, 115, 112, 98, 101, 114, 114, 121, 32, 80, 105, 32, 51, 32, 77, 111, 100, 101, 108, 32, 66, 43]) {
        // 'Raspberry Pi 3 Model B+'
        Some(Model::RaspberryPi3BPlus)
    } else if bytes_eq(name, &[82u8, 97, 115, 112, 98, 101, 114, 114, 121, 32, 80, 105, 32, 51, 32, 77, 111, 100, 101, 108, 32, 66, 32, 80, 108, 117, 115]) {
        // 'Raspberry Pi 3 Model B Plus'
        Some(Model::RaspberryPi3BPlus)
    } else if bytes_eq(name, &[82u8, 97, 115, 112, 98, 101, 114, 114, 121, 32, 80, 105, 32, 51, 32, 77, 111, 100, 101, 108, 32, 65, 32, 80, 108, 117, 115]) {
        // 'Raspberry Pi 3 Model A Plus'
        Some(Model::RaspberryPi3APlus)
    } else if bytes_eq(name, &[82u8, 97, 115, 112, 98, 101, 114, 114, 121, 32, 80, 105, 32, 52, 32, 77, 111, 100, 101, 108, 32, 66]) {
        // 'Raspberry Pi 4 Model B'
        Some(Model::RaspberryPi4B)
    } else if bytes_eq(name, &[82u8, 97, 115, 112, 98, 101, 114, 114, 121, 32, 80, 105, 32, 52, 48, 48]) {
        // 'Raspberry Pi 400'
        Some(Model::RaspberryPi400)
    } else if bytes_eq(name, &[82u8, 97, 115, 112, 98, 101, 114, 114, 121, 32, 80, 105, 32, 67, 111, 109, 112, 117, 116, 101, 32, 77, 111, 100, 117, 108, 101, 32, 52]) {
        // 'Raspberry Pi Compute Module 4'
        Some(Model::RaspberryPiComputeModule4)
    } else if bytes_eq(name, &[82u8, 97, 115, 112, 98, 101, 114, 114, 121, 32, 80, 105, 32, 67, 111, 109, 112, 117, 116, 101, 32, 77, 111, 100, 117, 108, 101, 32, 52, 83]) {
        // 'Raspberry Pi Compute Module 4S'
        Some(Model::RaspberryPiComputeModule4S)
    } else {
        None
    }
}

/// The model device tree `model` contents identify. The contents end at the
/// first NUL. The two names of a model B rev 2 that carry a PCB revision are
/// recognised first; otherwise everything from the first " Rev " on is
/// removed before the name is looked up.
pub open spec fn model_contents_model(contents: Seq<u8>) -> Result<Model, Error> {
    if !valid_utf8(contents) {
        Err(Error::UnknownModel)
    } else {
        let name = contents.subrange(0, first_index(contents, 0));
        if name == seq![82u8, 97, 115, 112, 98, 101, 114, 114, 121, 32, 80, 105, 32, 77, 111, 100, 101, 108, 32, 66, 32, 82, 101, 118, 32, 50, 46, 48] || name == seq![82u8, 97, 115, 112, 98, 101, 114, 114, 121, 32, 80, 105, 32, 77, 111, 100, 101, 108, 32, 66, 32, 114, 101, 118, 50, 32, 82, 101, 118, 32, 50, 46, 48] {
            Ok(Model::RaspberryPiBRev2)
        } else {
            let base = match find_subsequence(name, seq![32u8, 82, 101, 118, 32]) {
                Some(i) => name.subrange(0, i),
                None => name,
            };
            match model_name_model(base) {
                Some(model) => Ok(model),
                None => Err(Error::UnknownModel),
            }
        }
    }
}

/// Identifies the model from the contents of the device tree `model` file.
pub fn parse_base_model(contents: &[u8]) -> (r: Result<Model, Error>)
    ensures
        r == model_contents_model(contents@),
{
    if !is_valid_utf8(contents) {
        return Err(Error::UnknownModel);
    }
    assert(contents@.subrange(0, contents@.len() as int) =~= contents@);
    let end = find_byte(contents, 0, 0);
    let name = &contents[0..end];
    assert(name@ == contents@.subrange(0, first_index(contents@, 0)));
    if bytes_eq(name, &[82u8, 97, 115, 112, 98, 101, 114, 114, 121, 32, 80, 105, 32, 77, 111, 100, 101, 108, 32, 66, 32, 82, 101, 118, 32, 50, 46, 48]) || bytes_eq(name, &[82u8, 97, 115, 112, 98, 101, 114, 114, 121, 32, 80, 105, 32, 77, 111, 100, 101, 108, 32, 66, 32, 114, 101, 118, 50, 32, 82, 101, 118, 32, 50, 46, 48]) {
        return Ok(Model::RaspberryPiBRev2);
    }
    let sep: &[u8] = &[32u8, 82, 101, 118, 32];
    assert(sep@ == seq![32u8, 82, 101, 118, 32]);
    let base = match find_pattern(name, sep) {
        Some(i) => &name[0..i],
        None => name,
    };
    match model_name_lookup(base) {
        Some(model) => Ok(model),
        None => Err(Error::UnknownModel),
    }
}

// ---------------------------------------------------------------------------
// Device information

/// The SoC of a model.
pub open spec fn soc_of(model: Model) -> SoC {
    match model {
        Model::RaspberryPiA | Model::RaspberryPiAPlus | Model::RaspberryPiBRev1
        | Model::RaspberryPiBRev2 | Model::RaspberryPiBPlus | Model::RaspberryPiComputeModule
        | Model::RaspberryPiZero | Model::RaspberryPiZeroW => SoC::Bcm2835,
        Model::RaspberryPi2B => SoC::Bcm2836,
        Model::RaspberryPi3B | Model::RaspberryPiComputeModule3 | Model::RaspberryPiZero2W =>
            SoC::Bcm2837A1,
        Model::RaspberryPi3BPlus | Model::RaspberryPi3APlus
        | Model::RaspberryPiComputeModule3Plus => SoC::Bcm2837B0,
        Model::RaspberryPi4B | Model::RaspberryPi400 | Model::RaspberryPiComputeModule4
        | Model::RaspberryPiComputeModule4S => SoC::Bcm2711,
    }
}

/// The peripheral base address of a SoC.
pub open spec fn peripheral_base_of(soc: SoC) -> u32 {
    match soc {
        SoC::Bcm2835 => PERIPHERAL_BASE_RPI,
        SoC::Bcm2711 => PERIPHERAL_BASE_RPI4,
        _ => PERIPHERAL_BASE_RPI2,
    }
}

/// The number of GPIO lines of a SoC.
pub open spec fn gpio_lines_of(soc: SoC) -> u8 {
    match soc {
        SoC::Bcm2711 => GPIO_LINES_BCM2711,
        _ => GPIO_LINES_BCM283X,
    }
}

/// The model identified from the three system files, tried from the most
/// detailed to the least detailed; `None` stands for a file that couldn't be
/// read.
pub open spec fn identify(
    cpuinfo: Option<Seq<u8>>,
    compatible: Option<Seq<u8>>,
    base_model: Option<Seq<u8>>,
) -> Result<Model, Error> {
    let from_cpuinfo = match cpuinfo {
        Some(c) => cpuinfo_model(c),
        None => Err(Error::UnknownModel),
    };
    let from_compatible = match compatible {
        Some(c) => compatible_contents_model(c),
        None => Err(Error::UnknownModel),
    };
    let from_model = match base_model {
        Some(c) => model_contents_model(c),
        None => Err(Error::UnknownModel),
    };
    if from_cpuinfo is Ok {
        from_cpuinfo
    } else if from_compatible is Ok {
        from_compatible
    } else {
        from_model
    }
}

/// Raspberry Pi device information.
#[derive(Debug, Copy, Clone, PartialEq, Eq, Structural)]
pub struct DeviceInfo {
    model: Model,
    soc: SoC,
    peripheral_base: u32,
    gpio_offset: u32,
    gpio_lines: u8,
}

impl DeviceInfo {
    /// The model.
    pub closed spec fn model_spec(self) -> Model {
        self.model
    }

    /// The SoC.
    pub closed spec fn soc_spec(self) -> SoC {
        self.soc
    }

    /// The peripheral base memory address.
    pub closed spec fn peripheral_base_spec(self) -> u32 {
        self.peripheral_base
    }

    /// The offset of the GPIO block from the peripheral base address.
    pub closed spec fn gpio_offset_spec(self) -> u32 {
        self.gpio_offset
    }

    /// The number of GPIO lines.
    pub closed spec fn gpio_lines_spec(self) -> u8 {
        self.gpio_lines
    }

    /// Whether the information is what a model's SoC determines.
    pub open spec fn describes(self, model: Model) -> bool {
        &&& self.model_spec() == model
        &&& self.soc_spec() == soc_of(model)
        &&& self.peripheral_base_spec() == peripheral_base_of(soc_of(model))
        &&& self.gpio_offset_spec() == GPIO_OFFSET
        &&& self.gpio_lines_spec() == gpio_lines_of(soc_of(model))
    }

    /// The device information of a model.
    pub fn from_model(model: Model) -> (r: DeviceInfo)
        ensures
            r.describes(model),
    {
        let soc = match model {
            Model::RaspberryPiA | Model::RaspberryPiAPlus | Model::RaspberryPiBRev1
            | Model::RaspberryPiBRev2 | Model::RaspberryPiBPlus
            | Model::RaspberryPiComputeModule | Model::RaspberryPiZero
            | Model::RaspberryPiZeroW => SoC::Bcm2835,
            Model::RaspberryPi2B => SoC::Bcm2836,
            Model::RaspberryPi3B | Model::RaspberryPiComputeModule3
            | Model::RaspberryPiZero2W => SoC::Bcm2837A1,
            Model::RaspberryPi3BPlus | Model::RaspberryPi3APlus
            | Model::RaspberryPiComputeModule3Plus => SoC::Bcm2837B0,
            Model::RaspberryPi4B | Model::RaspberryPi400 | Model::RaspberryPiComputeModule4
            | Model::RaspberryPiComputeModule4S => SoC::Bcm2711,
        };
        let (peripheral_base, gpio_lines) = match soc {
            SoC::Bcm2835 => (PERIPHERAL_BASE_RPI, GPIO_LINES_BCM283X),
            SoC::Bcm2711 => (PERIPHERAL_BASE_RPI4, GPIO_LINES_BCM2711),
            _ => (PERIPHERAL_BASE_RPI2, GPIO_LINES_BCM283X),
        };
        DeviceInfo { model, soc, peripheral_base, gpio_offset: GPIO_OFFSET, gpio_lines }
    }

    /// Identifies the Raspberry Pi from the contents of `/proc/cpuinfo`,
    /// `/sys/firmware/devicetree/base/compatible` and
    /// `/sys/firmware/devicetree/base/model`, in that order; a file that
    /// couldn't be read is passed as `None`.
    pub fn new(
        cpuinfo: Option<&[u8]>,
        compatible: Option<&[u8]>,
        base_model: Option<&[u8]>,
    ) -> (r: Result<DeviceInfo, Error>)
        requires
            !(cpuinfo matches Some(c) && revision_slice_panics(c@)),
        ensures
            match identify(
                match cpuinfo { Some(c) => Some(c@), None => None },
                match compatible { Some(c) => Some(c@), None => None },
                match base_model { Some(c) => Some(c@), None => None },
            ) {
                Ok(model) => r matches Ok(info) && info.describes(model),
                Err(e) => r == Err::<DeviceInfo, Error>(e),
            },
    {
        let from_cpuinfo = match cpuinfo {
            Some(c) => parse_proc_cpuinfo(c),
            None => Err(Error::UnknownModel),
        };
        let model = match from_cpuinfo {
            Ok(m) => Ok(m),
            Err(_) => {
                let from_compatible = match compatible {
                    Some(c) => parse_base_compatible(c),
                    None => Err(Error::UnknownModel),
                };
                match from_compatible {
                    Ok(m) => Ok(m),
                    Err(_) => match base_model {
                        Some(c) => parse_base_model(c),
                        None => Err(Error::UnknownModel),
                    },
                }
            },
        };
        match model {
            Ok(m) => Ok(DeviceInfo::from_model(m)),
            Err(e) => Err(e),
        }
    }

    /// Identifies the Raspberry Pi as `new` does, or gives `None` for
    /// `/proc/cpuinfo` contents whose revision code can't be cut before its
    /// last four bytes.
    pub fn try_new(
        cpuinfo: Option<&[u8]>,
        compatible: Option<&[u8]>,
        base_model: Option<&[u8]>,
    ) -> (r: Option<Result<DeviceInfo, Error>>)
        ensures
            r is None <==> (cpuinfo matches Some(c) && revision_slice_panics(c@)),
            r matches Some(res) ==> match identify(
                match cpuinfo { Some(c) => Some(c@), None => None },
                match compatible { Some(c) => Some(c@), None => None },
                match base_model { Some(c) => Some(c@), None => None },
            ) {
                Ok(model) => res matches Ok(info) && info.describes(model),
                Err(e) => res == Err::<DeviceInfo, Error>(e),
            },
    {
        match cpuinfo {
            Some(c) => {
                if try_parse_proc_cpuinfo(c).is_none() {
                    return None;
                }
            },
            None => {},
        }
        Some(DeviceInfo::new(cpuinfo, compatible, base_model))
    }

    /// Returns the Raspberry Pi's model.
    pub fn model(&self) -> (r: Model)
        ensures
            r == self.model_spec(),
    {
        self.model
    }

    /// Returns the Raspberry Pi's SoC.
    pub fn soc(&self) -> (r: SoC)
        ensures
            r == self.soc_spec(),
    {
        self.soc
    }

    /// Returns the peripheral base memory address.
    pub fn peripheral_base(&self) -> (r: u32)
        ensures
            r == self.peripheral_base_spec(),
    {
        self.peripheral_base
    }

    /// Returns the offset of the GPIO block from the peripheral base address.
    pub fn gpio_offset(&self) -> (r: u32)
        ensures
            r == self.gpio_offset_spec(),
    {
        self.gpio_offset
    }

    /// Returns the number of GPIO lines available for this SoC.
    pub fn gpio_lines(&self) -> (r: u8)
        ensures
            r == self.gpio_lines_spec(),
    {
        self.gpio_lines
    }

    /// Returns the number of the PWM chip that drives the header's PWM
    /// channels.
    pub fn pwm_chip(&self) -> (r: u8)
        ensures
            r == pwm_chip_of(self.model_spec()),
    {
        0
    }
}

/// The PWM chip that drives a model's header PWM channels: `pwmchip0` on every
/// model identified here, all of which have the BCM283x/BCM2711 PWM block.
pub open spec fn pwm_chip_of(model: Model) -> u8 {
    0
}

/// The text `Model` is shown as.
pub open spec fn model_text(v: Model) -> &'static str {
    match v {
        Model::RaspberryPiA => "Raspberry Pi A",
        Model::RaspberryPiAPlus => "Raspberry Pi A+",
        Model::RaspberryPiBRev1 => "Raspberry Pi B Rev 1",
        Model::RaspberryPiBRev2 => "Raspberry Pi B Rev 2",
        Model::RaspberryPiBPlus => "Raspberry Pi B+",
        Model::RaspberryPi2B => "Raspberry Pi 2 B",
        Model::RaspberryPi3B => "Raspberry Pi 3 B",
        Model::RaspberryPi3BPlus => "Raspberry Pi 3 B+",
        Model::RaspberryPi3APlus => "Raspberry Pi 3 A+",
        Model::RaspberryPi4B => "Raspberry Pi 4 B",
        Model::RaspberryPi400 => "Raspberry Pi 400",
        Model::RaspberryPiComputeModule => "Raspberry Pi Compute Module",
        Model::RaspberryPiComputeModule3 => "Raspberry Pi Compute Module 3",
        Model::RaspberryPiComputeModule3Plus => "Raspberry Pi Compute Module 3+",
        Model::RaspberryPiComputeModule4 => "Raspberry Pi Compute Module 4",
        Model::RaspberryPiComputeModule4S => "Raspberry Pi Compute Module 4S",
        Model::RaspberryPiZero => "Raspberry Pi Zero",
        Model::RaspberryPiZeroW => "Raspberry Pi Zero W",
        Model::RaspberryPiZero2W => "Raspberry Pi Zero 2 W",
    }
}

impl Model {
    /// The text the value is shown as.
    pub fn as_str(&self) -> (r: &'static str)
        ensures
            r == model_text(*self),
    {
        match self {
            Model::RaspberryPiA => "Raspberry Pi A",
            Model::RaspberryPiAPlus => "Raspberry Pi A+",
            Model::RaspberryPiBRev1 => "Raspberry Pi B Rev 1",
            Model::RaspberryPiBRev2 => "Raspberry Pi B Rev 2",
            Model::RaspberryPiBPlus => "Raspberry Pi B+",
            Model::RaspberryPi2B => "Raspberry Pi 2 B",
            Model::RaspberryPi3B => "Raspberry Pi 3 B",
            Model::RaspberryPi3BPlus => "Raspberry Pi 3 B+",
            Model::RaspberryPi3APlus => "Raspberry Pi 3 A+",
            Model::RaspberryPi4B => "Raspberry Pi 4 B",
            Model::RaspberryPi400 => "Raspberry Pi 400",
            Model::RaspberryPiComputeModule => "Raspberry Pi Compute Module",
            Model::RaspberryPiComputeModule3 => "Raspberry Pi Compute Module 3",
            Model::RaspberryPiComputeModule3Plus => "Raspberry Pi Compute Module 3+",
            Model::RaspberryPiComputeModule4 => "Raspberry Pi Compute Module 4",
            Model::RaspberryPiComputeModule4S => "Raspberry Pi Compute Module 4S",
            Model::RaspberryPiZero => "Raspberry Pi Zero",
            Model::RaspberryPiZeroW => "Raspberry Pi Zero W",
            Model::RaspberryPiZero2W => "Raspberry Pi Zero 2 W",
        }
    }
}

/// The text `SoC` is shown as.
pub open spec fn soc_text(v: SoC) -> &'static str {
    match v {
        SoC::Bcm2835 => "BCM2835",
        SoC::Bcm2836 => "BCM2836",
        SoC::Bcm2837A1 => "BCM2837A1",
        SoC::Bcm2837B0 => "BCM2837B0",
        SoC::Bcm2711 => "BCM2711",
    }
}

impl SoC {
    /// The text the value is shown as.
    pub fn as_str(&self) -> (r: &'static str)
        ensures
            r == soc_text(*self),
    {
        match self {
            SoC::Bcm2835 => "BCM2835",
            SoC::Bcm2836 => "BCM2836",
            SoC::Bcm2837A1 => "BCM2837A1",
            SoC::Bcm2837B0 => "BCM2837B0",
            SoC::Bcm2711 => "BCM2711",
        }
    }
}

/// The text `Error` is shown as.
pub open spec fn error_text(v: Error) -> &'static str {
    match v {
        Error::UnknownModel => "Unknown Raspberry Pi model",
    }
}

impl Error {
    /// The text the value is shown as.
    pub fn as_str(&self) -> (r: &'static str)
        ensures
            r == error_text(*self),
    {
        match self {
            Error::UnknownModel => "Unknown Raspberry Pi model",
        }
    }
}


// ---------------------------------------------------------------------------
// The identification tables, stated against the documented codes and names

/// Device information that describes a model holds the model's SoC and the
/// BCM memory map for it: BCM2835 boards (A, A+, B, B+, Compute Module,
/// Zero, Zero W) have their peripherals at 0x2000_0000, the BCM2836/BCM2837
/// boards (2 B, 3 B, 3 B+, 3 A+, Compute Module 3 and 3+, Zero 2 W) at
/// 0x3f00_0000 and the BCM2711 boards (4 B, 400, Compute Module 4 and 4S) at
/// 0xfe00_0000; the GPIO block is 0x20_0000 past the base, with 58 lines on
/// the BCM2711 and 54 on the others.
pub proof fn lemma_memory_map(info: DeviceInfo, model: Model)
    requires
        info.describes(model),
    ensures
        info.gpio_offset_spec() == 0x20_0000,
        (model == Model::RaspberryPiA || model == Model::RaspberryPiAPlus || model
            == Model::RaspberryPiBRev1 || model == Model::RaspberryPiBRev2 || model
            == Model::RaspberryPiBPlus || model == Model::RaspberryPiComputeModule || model
            == Model::RaspberryPiZero || model == Model::RaspberryPiZeroW) ==> info.soc_spec()
            == SoC::Bcm2835 && info.peripheral_base_spec() == 0x2000_0000
            && info.gpio_lines_spec() == 54,
        model == Model::RaspberryPi2B ==> info.soc_spec() == SoC::Bcm2836
            && info.peripheral_base_spec() == 0x3f00_0000 && info.gpio_lines_spec() == 54,
        (model == Model::RaspberryPi3B || model == Model::RaspberryPiComputeModule3 || model
            == Model::RaspberryPiZero2W) ==> info.soc_spec() == SoC::Bcm2837A1
            && info.peripheral_base_spec() == 0x3f00_0000 && info.gpio_lines_spec() == 54,
        (model == Model::RaspberryPi3BPlus || model == Model::RaspberryPi3APlus || model
            == Model::RaspberryPiComputeModule3Plus) ==> info.soc_spec() == SoC::Bcm2837B0
            && info.peripheral_base_spec() == 0x3f00_0000 && info.gpio_lines_spec() == 54,
        (model == Model::RaspberryPi4B || model == Model::RaspberryPi400 || model
            == Model::RaspberryPiComputeModule4 || model == Model::RaspberryPiComputeModule4S)
            ==> info.soc_spec() == SoC::Bcm2711 && info.peripheral_base_spec() == 0xfe00_0000
            && info.gpio_lines_spec() == 58,
{
}

/// Each documented four-character revision code identifies its model.
pub proof fn lemma_old_revision_codes(rev: Seq<u8>)
    ensures
        // '0007'
        rev == seq![48u8, 48, 48, 55] ==> revision_model(rev) == Some(Model::RaspberryPiA),
        // '0008'
        rev == seq![48u8, 48, 48, 56] ==> revision_model(rev) == Some(Model::RaspberryPiA),
        // '0009'
        rev == seq![48u8, 48, 48, 57] ==> revision_model(rev) == Some(Model::RaspberryPiA),
        // '0015'
        rev == seq![48u8, 48, 49, 53] ==> revision_model(rev) == Some(Model::RaspberryPiA),
        // 'beta'
        rev == seq![98u8, 101, 116, 97] ==> revision_model(rev) == Some(Model::RaspberryPiBRev1),
        // '0002'
        rev == seq![48u8, 48, 48, 50] ==> revision_model(rev) == Some(Model::RaspberryPiBRev1),
        // '0003'
        rev == seq![48u8, 48, 48, 51] ==> revision_model(rev) == Some(Model::RaspberryPiBRev1),
        // '0004'
        rev == seq![48u8, 48, 48, 52] ==> revision_model(rev) == Some(Model::RaspberryPiBRev2),
        // '0005'
        rev == seq![48u8, 48, 48, 53] ==> revision_model(rev) == Some(Model::RaspberryPiBRev2),
        // '0006'
        rev == seq![48u8, 48, 48, 54] ==> revision_model(rev) == Some(Model::RaspberryPiBRev2),
        // '000d'
        rev == seq![48u8, 48, 48, 100] ==> revision_model(rev) == Some(Model::RaspberryPiBRev2),
        // '000e'
        rev == seq![48u8, 48, 48, 101] ==> revision_model(rev) == Some(Model::RaspberryPiBRev2),
        // '000f'
        rev == seq![48u8, 48, 48, 102] ==> revision_model(rev) == Some(Model::RaspberryPiBRev2),
        // '0012'
        rev == seq![48u8, 48, 49, 50] ==> revision_model(rev) == Some(Model::RaspberryPiAPlus),
        // '0010'
        rev == seq![48u8, 48, 49, 48] ==> revision_model(rev) == Some(Model::RaspberryPiBPlus),
        // '0013'
        rev == seq![48u8, 48, 49, 51] ==> revision_model(rev) == Some(Model::RaspberryPiBPlus),
        // '0011'
        rev == seq![48u8, 48, 49, 49] ==> revision_model(rev) == Some(Model::RaspberryPiComputeModule),
        // '0014'
        rev == seq![48u8, 48, 49, 52] ==> revision_model(rev) == Some(Model::RaspberryPiComputeModule),
{
    if rev.len() == 4 {
        assert(rev.subrange(0, 4) =~= rev);
    }
}

/// An over-volted board's eight-character code identifies the model its last
/// four characters do.
pub proof fn lemma_overvolted_revision(rev: Seq<u8>)
    requires
        rev.len() == 8,
    ensures
        revision_model(rev) == revision_model(rev.subrange(4, 8)),
{
    assert(rev.subrange(4, 8).subrange(0, 4) =~= rev.subrange(4, 8));
}

/// Each documented new-style revision code identifies its model.
pub proof fn lemma_new_revision_codes(rev: Seq<u8>)
    ensures
        // '900021'
        rev == seq![57u8, 48, 48, 48, 50, 49] ==> revision_model(rev) == Some(Model::RaspberryPiAPlus),
        // '900032'
        rev == seq![57u8, 48, 48, 48, 51, 50] ==> revision_model(rev) == Some(Model::RaspberryPiBPlus),
        // 'a01040'
        rev == seq![97u8, 48, 49, 48, 52, 48] ==> revision_model(rev) == Some(Model::RaspberryPi2B),
        // 'a01041'
        rev == seq![97u8, 48, 49, 48, 52, 49] ==> revision_model(rev) == Some(Model::RaspberryPi2B),
        // 'a21041'
        rev == seq![97u8, 50, 49, 48, 52, 49] ==> revision_model(rev) == Some(Model::RaspberryPi2B),
        // 'a02042'
        rev == seq![97u8, 48, 50, 48, 52, 50] ==> revision_model(rev) == Some(Model::RaspberryPi2B),
        // 'a22042'
        rev == seq![97u8, 50, 50, 48, 52, 50] ==> revision_model(rev) == Some(Model::RaspberryPi2B),
        // 'a02082'
        rev == seq![97u8, 48, 50, 48, 56, 50] ==> revision_model(rev) == Some(Model::RaspberryPi3B),
        // 'a22082'
        rev == seq![97u8, 50, 50, 48, 56, 50] ==> revision_model(rev) == Some(Model::RaspberryPi3B),
        // 'a22083'
        rev == seq![97u8, 50, 50, 48, 56, 51] ==> revision_model(rev) == Some(Model::RaspberryPi3B),
        // 'a32082'
        rev == seq![97u8, 51, 50, 48, 56, 50] ==> revision_model(rev) == Some(Model::RaspberryPi3B),
        // 'a52082'
        rev == seq![97u8, 53, 50, 48, 56, 50] ==> revision_model(rev) == Some(Model::RaspberryPi3B),
        // '900092'
        rev == seq![57u8, 48, 48, 48, 57, 50] ==> revision_model(rev) == Some(Model::RaspberryPiZero),
        // '900093'
        rev == seq![57u8, 48, 48, 48, 57, 51] ==> revision_model(rev) == Some(Model::RaspberryPiZero),
        // '920092'
        rev == seq![57u8, 50, 48, 48, 57, 50] ==> revision_model(rev) == Some(Model::RaspberryPiZero),
        // '920093'
        rev == seq![57u8, 50, 48, 48, 57, 51] ==> revision_model(rev) == Some(Model::RaspberryPiZero),
        // '900061'
        rev == seq![57u8, 48, 48, 48, 54, 49] ==> revision_model(rev) == Some(Model::RaspberryPiComputeModule),
        // 'a020a0'
        rev == seq![97u8, 48, 50, 48, 97, 48] ==> revision_model(rev) == Some(Model::RaspberryPiComputeModule3),
        // 'a220a0'
        rev == seq![97u8, 50, 50, 48, 97, 48] ==> revision_model(rev) == Some(Model::RaspberryPiComputeModule3),
        // '9000c1'
        rev == seq![57u8, 48, 48, 48, 99, 49] ==> revision_model(rev) == Some(Model::RaspberryPiZeroW),
        // 'a020d3'
        rev == seq![97u8, 48, 50, 48, 100, 51] ==> revision_model(rev) == Some(Model::RaspberryPi3BPlus),
        // '9020e0'
        rev == seq![57u8, 48, 50, 48, 101, 48] ==> revision_model(rev) == Some(Model::RaspberryPi3APlus),
        // 'a02100'
        rev == seq![97u8, 48, 50, 49, 48, 48] ==> revision_model(rev) == Some(Model::RaspberryPiComputeModule3Plus),
        // 'a03111'
        rev == seq![97u8, 48, 51, 49, 49, 49] ==> revision_model(rev) == Some(Model::RaspberryPi4B),
        // 'a03112'
        rev == seq![97u8, 48, 51, 49, 49, 50] ==> revision_model(rev) == Some(Model::RaspberryPi4B),
        // 'b03111'
        rev == seq![98u8, 48, 51, 49, 49, 49] ==> revision_model(rev) == Some(Model::RaspberryPi4B),
        // 'b03112'
        rev == seq![98u8, 48, 51, 49, 49, 50] ==> revision_model(rev) == Some(Model::RaspberryPi4B),
        // 'b03114'
        rev == seq![98u8, 48, 51, 49, 49, 52] ==> revision_model(rev) == Some(Model::RaspberryPi4B),
        // 'b03115'
        rev == seq![98u8, 48, 51, 49, 49, 53] ==> revision_model(rev) == Some(Model::RaspberryPi4B),
        // 'c03111'
        rev == seq![99u8, 48, 51, 49, 49, 49] ==> revision_model(rev) == Some(Model::RaspberryPi4B),
        // 'c03112'
        rev == seq![99u8, 48, 51, 49, 49, 50] ==> revision_model(rev) == Some(Model::RaspberryPi4B),
        // 'c03114'
        rev == seq![99u8, 48, 51, 49, 49, 52] ==> revision_model(rev) == Some(Model::RaspberryPi4B),
        // 'c03115'
        rev == seq![99u8, 48, 51, 49, 49, 53] ==> revision_model(rev) == Some(Model::RaspberryPi4B),
        // 'd03114'
        rev == seq![100u8, 48, 51, 49, 49, 52] ==> revision_model(rev) == Some(Model::RaspberryPi4B),
        // 'd03115'
        rev == seq![100u8, 48, 51, 49, 49, 53] ==> revision_model(rev) == Some(Model::RaspberryPi4B),
        // 'c03130'
        rev == seq![99u8, 48, 51, 49, 51, 48] ==> revision_model(rev) == Some(Model::RaspberryPi400),
        // 'a03140'
        rev == seq![97u8, 48, 51, 49, 52, 48] ==> revision_model(rev) == Some(Model::RaspberryPiComputeModule4),
        // 'b03140'
        rev == seq![98u8, 48, 51, 49, 52, 48] ==> revision_model(rev) == Some(Model::RaspberryPiComputeModule4),
        // 'c03140'
        rev == seq![99u8, 48, 51, 49, 52, 48] ==> revision_model(rev) == Some(Model::RaspberryPiComputeModule4),
        // 'c03141'
        rev == seq![99u8, 48, 51, 49, 52, 49] ==> revision_model(rev) == Some(Model::RaspberryPiComputeModule4),
        // 'd03140'
        rev == seq![100u8, 48, 51, 49, 52, 48] ==> revision_model(rev) == Some(Model::RaspberryPiComputeModule4),
        // 'a03150'
        rev == seq![97u8, 48, 51, 49, 53, 48] ==> revision_model(rev) == Some(Model::RaspberryPiComputeModule4S),
        // '902120'
        rev == seq![57u8, 48, 50, 49, 50, 48] ==> revision_model(rev) == Some(Model::RaspberryPiZero2W),
{
}

/// `/proc/cpuinfo` contents with a Raspberry Pi hardware line and a revision
/// code that reads "a020d3" in lowercase identify a Raspberry Pi 3 B+.
pub proof fn lemma_cpuinfo_3b_plus(contents: Seq<u8>)
    ensures
        ({
            let fields = cpuinfo_scan(contents, (seq![], seq![]));
            known_hardware(fields.0) && fields.1.map_values(|x: u8| ascii_lowercase_byte(x))
                == seq![97u8, 48, 50, 48, 100, 51] ==> cpuinfo_model_ascii(contents) == Ok::<
                Model,
                Error,
            >(Model::RaspberryPi3BPlus)
        }),
{
    lemma_new_revision_codes(seq![97u8, 48, 50, 48, 100, 51]);
}

/// Only the documented revision codes identify a model: the code itself, or
/// for four- and eight-character codes its last four characters.
pub proof fn lemma_revision_codes_complete(rev: Seq<u8>)
    ensures
        revision_model(rev) is Some ==> ({
            let last = rev.subrange(rev.len() - 4, rev.len() as int);
            ||| (rev.len() == 4 || rev.len() == 8) && ({
                ||| last == seq![48u8, 48, 48, 55]  // '0007'
                ||| last == seq![48u8, 48, 48, 56]  // '0008'
                ||| last == seq![48u8, 48, 48, 57]  // '0009'
                ||| last == seq![48u8, 48, 49, 53]  // '0015'
                ||| last == seq![98u8, 101, 116, 97]  // 'beta'
                ||| last == seq![48u8, 48, 48, 50]  // '0002'
                ||| last == seq![48u8, 48, 48, 51]  // '0003'
                ||| last == seq![48u8, 48, 48, 52]  // '0004'
                ||| last == seq![48u8, 48, 48, 53]  // '0005'
                ||| last == seq![48u8, 48, 48, 54]  // '0006'
                ||| last == seq![48u8, 48, 48, 100]  // '000d'
                ||| last == seq![48u8, 48, 48, 101]  // '000e'
                ||| last == seq![48u8, 48, 48, 102]  // '000f'
                ||| last == seq![48u8, 48, 49, 50]  // '0012'
                ||| last == seq![48u8, 48, 49, 48]  // '0010'
                ||| last == seq![48u8, 48, 49, 51]  // '0013'
                ||| last == seq![48u8, 48, 49, 49]  // '0011'
                ||| last == seq![48u8, 48, 49, 52]  // '0014'
            })
            ||| rev == seq![57u8, 48, 48, 48, 50, 49]  // '900021'
            ||| rev == seq![57u8, 48, 48, 48, 51, 50]  // '900032'
            ||| rev == seq![97u8, 48, 49, 48, 52, 48]  // 'a01040'
            ||| rev == seq![97u8, 48, 49, 48, 52, 49]  // 'a01041'
            ||| rev == seq![97u8, 50, 49, 48, 52, 49]  // 'a21041'
            ||| rev == seq![97u8, 48, 50, 48, 52, 50]  // 'a02042'
            ||| rev == seq![97u8, 50, 50, 48, 52, 50]  // 'a22042'
            ||| rev == seq![97u8, 48, 50, 48, 56, 50]  // 'a02082'
            ||| rev == seq![97u8, 50, 50, 48, 56, 50]  // 'a22082'
            ||| rev == seq![97u8, 50, 50, 48, 56, 51]  // 'a22083'
            ||| rev == seq![97u8, 51, 50, 48, 56, 50]  // 'a32082'
            ||| rev == seq![97u8, 53, 50, 48, 56, 50]  // 'a52082'
            ||| rev == seq![57u8, 48, 48, 48, 57, 50]  // '900092'
            ||| rev == seq![57u8, 48, 48, 48, 57, 51]  // '900093'
            ||| rev == seq![57u8, 50, 48, 48, 57, 50]  // '920092'
            ||| rev == seq![57u8, 50, 48, 48, 57, 51]  // '920093'
            ||| rev == seq![57u8, 48, 48, 48, 54, 49]  // '900061'
            ||| rev == seq![97u8, 48, 50, 48, 97, 48]  // 'a020a0'
            ||| rev == seq![97u8, 50, 50, 48, 97, 48]  // 'a220a0'
            ||| rev == seq![57u8, 48, 48, 48, 99, 49]  // '9000c1'
            ||| rev == seq![97u8, 48, 50, 48, 100, 51]  // 'a020d3'
            ||| rev == seq![57u8, 48, 50, 48, 101, 48]  // '9020e0'
            ||| rev == seq![97u8, 48, 50, 49, 48, 48]  // 'a02100'
            ||| rev == seq![97u8, 48, 51, 49, 49, 49]  // 'a03111'
            ||| rev == seq![97u8, 48, 51, 49, 49, 50]  // 'a03112'
            ||| rev == seq![98u8, 48, 51, 49, 49, 49]  // 'b03111'
            ||| rev == seq![98u8, 48, 51, 49, 49, 50]  // 'b03112'
            ||| rev == seq![98u8, 48, 51, 49, 49, 52]  // 'b03114'
            ||| rev == seq![98u8, 48, 51, 49, 49, 53]  // 'b03115'
            ||| rev == seq![99u8, 48, 51, 49, 49, 49]  // 'c03111'
            ||| rev == seq![99u8, 48, 51, 49, 49, 50]  // 'c03112'
            ||| rev == seq![99u8, 48, 51, 49, 49, 52]  // 'c03114'
            ||| rev == seq![99u8, 48, 51, 49, 49, 53]  // 'c03115'
            ||| rev == seq![100u8, 48, 51, 49, 49, 52]  // 'd03114'
            ||| rev == seq![100u8, 48, 51, 49, 49, 53]  // 'd03115'
            ||| rev == seq![99u8, 48, 51, 49, 51, 48]  // 'c03130'
            ||| rev == seq![97u8, 48, 51, 49, 52, 48]  // 'a03140'
            ||| rev == seq![98u8, 48, 51, 49, 52, 48]  // 'b03140'
            ||| rev == seq![99u8, 48, 51, 49, 52, 48]  // 'c03140'
            ||| rev == seq![99u8, 48, 51, 49, 52, 49]  // 'c03141'
            ||| rev == seq![100u8, 48, 51, 49, 52, 48]  // 'd03140'
            ||| rev == seq![97u8, 48, 51, 49, 53, 48]  // 'a03150'
            ||| rev == seq![57u8, 48, 50, 49, 50, 48]  // '902120'
        }),
{
}

/// Each documented device tree `compatible` identifier identifies its model.
#[verifier::rlimit(100)]
pub proof fn lemma_compatible_ids(id: Seq<u8>)
    ensures
        // 'raspberrypi,model-b-i2c0'
        id == seq![114u8, 97, 115, 112, 98, 101, 114, 114, 121, 112, 105, 44, 109, 111, 100, 101, 108, 45, 98, 45, 105, 50, 99, 48] ==> compatible_model(id) == Some(Model::RaspberryPiBRev1),
        // 'raspberrypi,model-b'
        id == seq![114u8, 97, 115, 112, 98, 101, 114, 114, 121, 112, 105, 44, 109, 111, 100, 101, 108, 45, 98] ==> compatible_model(id) == Some(Model::RaspberryPiBRev1),
        // 'raspberrypi,model-a'
        id == seq![114u8, 97, 115, 112, 98, 101, 114, 114, 121, 112, 105, 44, 109, 111, 100, 101, 108, 45, 97] ==> compatible_model(id) == Some(Model::RaspberryPiA),
        // 'raspberrypi,model-b-rev2'
        id == seq![114u8, 97, 115, 112, 98, 101, 114, 114, 121, 112, 105, 44, 109, 111, 100, 101, 108, 45, 98, 45, 114, 101, 118, 50] ==> compatible_model(id) == Some(Model::RaspberryPiBRev2),
        // 'raspberrypi,model-a-plus'
        id == seq![114u8, 97, 115, 112, 98, 101, 114, 114, 121, 112, 105, 44, 109, 111, 100, 101, 108, 45, 97, 45, 112, 108, 117, 115] ==> compatible_model(id) == Some(Model::RaspberryPiAPlus),
        // 'raspberrypi,model-b-plus'
        id == seq![114u8, 97, 115, 112, 98, 101, 114, 114, 121, 112, 105, 44, 109, 111, 100, 101, 108, 45, 98, 45, 112, 108, 117, 115] ==> compatible_model(id) == Some(Model::RaspberryPiBPlus),
        // 'raspberrypi,2-model-b'
        id == seq![114u8, 97, 115, 112, 98, 101, 114, 114, 121, 112, 105, 44, 50, 45, 109, 111, 100, 101, 108, 45, 98] ==> compatible_model(id) == Some(Model::RaspberryPi2B),
        // 'raspberrypi,compute-module'
        id == seq![114u8, 97, 115, 112, 98, 101, 114, 114, 121, 112, 105, 44, 99, 111, 109, 112, 117, 116, 101, 45, 109, 111, 100, 117, 108, 101] ==> compatible_model(id) == Some(Model::RaspberryPiComputeModule),
        // 'raspberrypi,3-model-b'
        id == seq![114u8, 97, 115, 112, 98, 101, 114, 114, 121, 112, 105, 44, 51, 45, 109, 111, 100, 101, 108, 45, 98] ==> compatible_model(id) == Some(Model::RaspberryPi3B),
        // 'raspberrypi,model-zero'
        id == seq![114u8, 97, 115, 112, 98, 101, 114, 114, 121, 112, 105, 44, 109, 111, 100, 101, 108, 45, 122, 101, 114, 111] ==> compatible_model(id) == Some(Model::RaspberryPiZero),
        // 'raspberrypi,3-compute-module'
        id == seq![114u8, 97, 115, 112, 98, 101, 114, 114, 121, 112, 105, 44, 51, 45, 99, 111, 109, 112, 117, 116, 101, 45, 109, 111, 100, 117, 108, 101] ==> compatible_model(id) == Some(Model::RaspberryPiComputeModule3),
        // 'raspberrypi,3-compute-module-plus'
        id == seq![114u8, 97, 115, 112, 98, 101, 114, 114, 121, 112, 105, 44, 51, 45, 99, 111, 109, 112, 117, 116, 101, 45, 109, 111, 100, 117, 108, 101, 45, 112, 108, 117, 115] ==> compatible_model(id) == Some(Model::RaspberryPiComputeModule3Plus),
        // 'raspberrypi,model-zero-w'
        id == seq![114u8, 97, 115, 112, 98, 101, 114, 114, 121, 112, 105, 44, 109, 111, 100, 101, 108, 45, 122, 101, 114, 111, 45, 119] ==> compatible_model(id) == Some(Model::RaspberryPiZeroW),
        // 'raspberrypi,model-zero-2'
        id == seq![114u8, 97, 115, 112, 98, 101, 114, 114, 121, 112, 105, 44, 109, 111, 100, 101, 108, 45, 122, 101, 114, 111, 45, 50] ==> compatible_model(id) == Some(Model::RaspberryPiZero2W),
        // 'raspberrypi,3-model-b-plus'
        id == seq![114u8, 97, 115, 112, 98, 101, 114, 114, 121, 112, 105, 44, 51, 45, 109, 111, 100, 101, 108, 45, 98, 45, 112, 108, 117, 115] ==> compatible_model(id) == Some(Model::RaspberryPi3BPlus),
        // 'raspberrypi,3-model-a-plus'
        id == seq![114u8, 97, 115, 112, 98, 101, 114, 114, 121, 112, 105, 44, 51, 45, 109, 111, 100, 101, 108, 45, 97, 45, 112, 108, 117, 115] ==> compatible_model(id) == Some(Model::RaspberryPi3APlus),
        // 'raspberrypi,4-model-b'
        id == seq![114u8, 97, 115, 112, 98, 101, 114, 114, 121, 112, 105, 44, 52, 45, 109, 111, 100, 101, 108, 45, 98] ==> compatible_model(id) == Some(Model::RaspberryPi4B),
        // 'raspberrypi,400'
        id == seq![114u8, 97, 115, 112, 98, 101, 114, 114, 121, 112, 105, 44, 52, 48, 48] ==> compatible_model(id) == Some(Model::RaspberryPi400),
        // 'raspberrypi,4-compute-module'
        id == seq![114u8, 97, 115, 112, 98, 101, 114, 114, 121, 112, 105, 44, 52, 45, 99, 111, 109, 112, 117, 116, 101, 45, 109, 111, 100, 117, 108, 101] ==> compatible_model(id) == Some(Model::RaspberryPiComputeModule4),
        // 'raspberrypi,4-compute-module-s'
        id == seq![114u8, 97, 115, 112, 98, 101, 114, 114, 121, 112, 105, 44, 52, 45, 99, 111, 109, 112, 117, 116, 101, 45, 109, 111, 100, 117, 108, 101, 45, 115] ==> compatible_model(id) == Some(Model::RaspberryPiComputeModule4S),
{
    // Entries of different lengths differ.
    assert(seq![114u8, 97, 115, 112, 98, 101, 114, 114, 121, 112, 105, 44, 109, 111, 100, 101, 108, 45, 98, 45, 105, 50, 99, 48].len() == 24);
    assert(seq![114u8, 97, 115, 112, 98, 101, 114, 114, 121, 112, 105, 44, 109, 111, 100, 101, 108, 45, 98].len() == 19);
    assert(seq![114u8, 97, 115, 112, 98, 101, 114, 114, 121, 112, 105, 44, 109, 111, 100, 101, 108, 45, 97].len() == 19);
    assert(seq![114u8, 97, 115, 112, 98, 101, 114, 114, 121, 112, 105, 44, 109, 111, 100, 101, 108, 45, 98, 45, 114, 101, 118, 50].len() == 24);
    assert(seq![114u8, 97, 115, 112, 98, 101, 114, 114, 121, 112, 105, 44, 109, 111, 100, 101, 108, 45, 97, 45, 112, 108, 117, 115].len() == 24);
    assert(seq![114u8, 97, 115, 112, 98, 101, 114, 114, 121, 112, 105, 44, 109, 111, 100, 101, 108, 45, 98, 45, 112, 108, 117, 115].len() == 24);
    assert(seq![114u8, 97, 115, 112, 98, 101, 114, 114, 121, 112, 105, 44, 50, 45, 109, 111, 100, 101, 108, 45, 98].len() == 21);
    assert(seq![114u8, 97, 115, 112, 98, 101, 114, 114, 121, 112, 105, 44, 99, 111, 109, 112, 117, 116, 101, 45, 109, 111, 100, 117, 108, 101].len() == 26);
    assert(seq![114u8, 97, 115, 112, 98, 101, 114, 114, 121, 112, 105, 44, 51, 45, 109, 111, 100, 101, 108, 45, 98].len() == 21);
    assert(seq![114u8, 97, 115, 112, 98, 101, 114, 114, 121, 112, 105, 44, 109, 111, 100, 101, 108, 45, 122, 101, 114, 111].len() == 22);
    assert(seq![114u8, 97, 115, 112, 98, 101, 114, 114, 121, 112, 105, 44, 51, 45, 99, 111, 109, 112, 117, 116, 101, 45, 109, 111, 100, 117, 108, 101].len() == 28);
    assert(seq![114u8, 97, 115, 112, 98, 101, 114, 114, 121, 112, 105, 44, 51, 45, 99, 111, 109, 112, 117, 116, 101, 45, 109, 111, 100, 117, 108, 101, 45, 112, 108, 117, 115].len() == 33);
    assert(seq![114u8, 97, 115, 112, 98, 101, 114, 114, 121, 112, 105, 44, 109, 111, 100, 101, 108, 45, 122, 101, 114, 111, 45, 119].len() == 24);
    assert(seq![114u8, 97, 115, 112, 98, 101, 114, 114, 121, 112, 105, 44, 109, 111, 100, 101, 108, 45, 122, 101, 114, 111, 45, 50].len() == 24);
    assert(seq![114u8, 97, 115, 112, 98, 101, 114, 114, 121, 112, 105, 44, 51, 45, 109, 111, 100, 101, 108, 45, 98, 45, 112, 108, 117, 115].len() == 26);
    assert(seq![114u8, 97, 115, 112, 98, 101, 114, 114, 121, 112, 105, 44, 51, 45, 109, 111, 100, 101, 108, 45, 97, 45, 112, 108, 117, 115].len() == 26);
    assert(seq![114u8, 97, 115, 112, 98, 101, 114, 114, 121, 112, 105, 44, 52, 45, 109, 111, 100, 101, 108, 45, 98].len() == 21);
    assert(seq![114u8, 97, 115, 112, 98, 101, 114, 114, 121, 112, 105, 44, 52, 48, 48].len() == 15);
    assert(seq![114u8, 97, 115, 112, 98, 101, 114, 114, 121, 112, 105, 44, 52, 45, 99, 111, 109, 112, 117, 116, 101, 45, 109, 111, 100, 117, 108, 101].len() == 28);
    assert(seq![114u8, 97, 115, 112, 98, 101, 114, 114, 121, 112, 105, 44, 52, 45, 99, 111, 109, 112, 117, 116, 101, 45, 109, 111, 100, 117, 108, 101, 45, 115].len() == 30);
}

/// Only the documented `compatible` identifiers identify a model.
pub proof fn lemma_compatible_ids_complete(id: Seq<u8>)
    ensures
        compatible_model(id) is Some ==> ({
            ||| id == seq![114u8, 97, 115, 112, 98, 101, 114, 114, 121, 112, 105, 44, 109, 111, 100, 101, 108, 45, 98, 45, 105, 50, 99, 48]  // 'raspberrypi,model-b-i2c0'
            ||| id == seq![114u8, 97, 115, 112, 98, 101, 114, 114, 121, 112, 105, 44, 109, 111, 100, 101, 108, 45, 98]  // 'raspberrypi,model-b'
            ||| id == seq![114u8, 97, 115, 112, 98, 101, 114, 114, 121, 112, 105, 44, 109, 111, 100, 101, 108, 45, 97]  // 'raspberrypi,model-a'
            ||| id == seq![114u8, 97, 115, 112, 98, 101, 114, 114, 121, 112, 105, 44, 109, 111, 100, 101, 108, 45, 98, 45, 114, 101, 118, 50]  // 'raspberrypi,model-b-rev2'
            ||| id == seq![114u8, 97, 115, 112, 98, 101, 114, 114, 121, 112, 105, 44, 109, 111, 100, 101, 108, 45, 97, 45, 112, 108, 117, 115]  // 'raspberrypi,model-a-plus'
            ||| id == seq![114u8, 97, 115, 112, 98, 101, 114, 114, 121, 112, 105, 44, 109, 111, 100, 101, 108, 45, 98, 45, 112, 108, 117, 115]  // 'raspberrypi,model-b-plus'
            ||| id == seq![114u8, 97, 115, 112, 98, 101, 114, 114, 121, 112, 105, 44, 50, 45, 109, 111, 100, 101, 108, 45, 98]  // 'raspberrypi,2-model-b'
            ||| id == seq![114u8, 97, 115, 112, 98, 101, 114, 114, 121, 112, 105, 44, 99, 111, 109, 112, 117, 116, 101, 45, 109, 111, 100, 117, 108, 101]  // 'raspberrypi,compute-module'
            ||| id == seq![114u8, 97, 115, 112, 98, 101, 114, 114, 121, 112, 105, 44, 51, 45, 109, 111, 100, 101, 108, 45, 98]  // 'raspberrypi,3-model-b'
            ||| id == seq![114u8, 97, 115, 112, 98, 101, 114, 114, 121, 112, 105, 44, 109, 111, 100, 101, 108, 45, 122, 101, 114, 111]  // 'raspberrypi,model-zero'
            ||| id == seq![114u8, 97, 115, 112, 98, 101, 114, 114, 121, 112, 105, 44, 51, 45, 99, 111, 109, 112, 117, 116, 101, 45, 109, 111, 100, 117, 108, 101]  // 'raspberrypi,3-compute-module'
            ||| id == seq![114u8, 97, 115, 112, 98, 101, 114, 114, 121, 112, 105, 44, 51, 45, 99, 111, 109, 112, 117, 116, 101, 45, 109, 111, 100, 117, 108, 101, 45, 112, 108, 117, 115]  // 'raspberrypi,3-compute-module-plus'
            ||| id == seq![114u8, 97, 115, 112, 98, 101, 114, 114, 121, 112, 105, 44, 109, 111, 100, 101, 108, 45, 122, 101, 114, 111, 45, 119]  // 'raspberrypi,model-zero-w'
            ||| id == seq![114u8, 97, 115, 112, 98, 101, 114, 114, 121, 112, 105, 44, 109, 111, 100, 101, 108, 45, 122, 101, 114, 111, 45, 50]  // 'raspberrypi,model-zero-2'
            ||| id == seq![114u8, 97, 115, 112, 98, 101, 114, 114, 121, 112, 105, 44, 51, 45, 109, 111, 100, 101, 108, 45, 98, 45, 112, 108, 117, 115]  // 'raspberrypi,3-model-b-plus'
            ||| id == seq![114u8, 97, 115, 112, 98, 101, 114, 114, 121, 112, 105, 44, 51, 45, 109, 111, 100, 101, 108, 45, 97, 45, 112, 108, 117, 115]  // 'raspberrypi,3-model-a-plus'
            ||| id == seq![114u8, 97, 115, 112, 98, 101, 114, 114, 121, 112, 105, 44, 52, 45, 109, 111, 100, 101, 108, 45, 98]  // 'raspberrypi,4-model-b'
            ||| id == seq![114u8, 97, 115, 112, 98, 101, 114, 114, 121, 112, 105, 44, 52, 48, 48]  // 'raspberrypi,400'
            ||| id == seq![114u8, 97, 115, 112, 98, 101, 114, 114, 121, 112, 105, 44, 52, 45, 99, 111, 109, 112, 117, 116, 101, 45, 109, 111, 100, 117, 108, 101]  // 'raspberrypi,4-compute-module'
            ||| id == seq![114u8, 97, 115, 112, 98, 101, 114, 114, 121, 112, 105, 44, 52, 45, 99, 111, 109, 112, 117, 116, 101, 45, 109, 111, 100, 117, 108, 101, 45, 115]  // 'raspberrypi,4-compute-module-s'
        }),
{
}

/// Each documented device tree model name identifies its model.
#[verifier::rlimit(100)]
pub proof fn lemma_model_names(name: Seq<u8>)
    ensures
        // 'Raspberry Pi Model B (no P5)'
        name == seq![82u8, 97, 115, 112, 98, 101, 114, 114, 121, 32, 80, 105, 32, 77, 111, 100, 101, 108, 32, 66, 32, 40, 110, 111, 32, 80, 53, 41] ==> model_name_model(name) == Some(Model::RaspberryPiBRev1),
        // 'Raspberry Pi Model B'
        name == seq![82u8, 97, 115, 112, 98, 101, 114, 114, 121, 32, 80, 105, 32, 77, 111, 100, 101, 108, 32, 66] ==> model_name_model(name) == Some(Model::RaspberryPiBRev1),
        // 'Raspberry Pi Model A'
        name == seq![82u8, 97, 115, 112, 98, 101, 114, 114, 121, 32, 80, 105, 32, 77, 111, 100, 101, 108, 32, 65] ==> model_name_model(name) == Some(Model::RaspberryPiA),
        // 'Raspberry Pi Model B rev2'
        name == seq![82u8, 97, 115, 112, 98, 101, 114, 114, 121, 32, 80, 105, 32, 77, 111, 100, 101, 108, 32, 66, 32, 114, 101, 118, 50] ==> model_name_model(name) == Some(Model::RaspberryPiBRev2),
        // 'Raspberry Pi Model A+'
        name == seq![82u8, 97, 115, 112, 98, 101, 114, 114, 121, 32, 80, 105, 32, 77, 111, 100, 101, 108, 32, 65, 43] ==> model_name_model(name) == Some(Model::RaspberryPiAPlus),
        // 'Raspberry Pi Model A Plus'
        name == seq![82u8, 97, 115, 112, 98, 101, 114, 114, 121, 32, 80, 105, 32, 77, 111, 100, 101, 108, 32, 65, 32, 80, 108, 117, 115] ==> model_name_model(name) == Some(Model::RaspberryPiAPlus),
        // 'Raspberry Pi Model B+'
        name == seq![82u8, 97, 115, 112, 98, 101, 114, 114, 121, 32, 80, 105, 32, 77, 111, 100, 101, 108, 32, 66, 43] ==> model_name_model(name) == Some(Model::RaspberryPiBPlus),
        // 'Raspberry Pi Model B Plus'
        name == seq![82u8, 97, 115, 112, 98, 101, 114, 114, 121, 32, 80, 105, 32, 77, 111, 100, 101, 108, 32, 66, 32, 80, 108, 117, 115] ==> model_name_model(name) == Some(Model::RaspberryPiBPlus),
        // 'Raspberry Pi 2 Model B'
        name == seq![82u8, 97, 115, 112, 98, 101, 114, 114, 121, 32, 80, 105, 32, 50, 32, 77, 111, 100, 101, 108, 32, 66] ==> model_name_model(name) == Some(Model::RaspberryPi2B),
        // 'Raspberry Pi Compute Module'
        name == seq![82u8, 97, 115, 112, 98, 101, 114, 114, 121, 32, 80, 105, 32, 67, 111, 109, 112, 117, 116, 101, 32, 77, 111, 100, 117, 108, 101] ==> model_name_model(name) == Some(Model::RaspberryPiComputeModule),
        // 'Raspberry Pi 3 Model B'
        name == seq![82u8, 97, 115, 112, 98, 101, 114, 114, 121, 32, 80, 105, 32, 51, 32, 77, 111, 100, 101, 108, 32, 66] ==> model_name_model(name) == Some(Model::RaspberryPi3B),
        // 'Raspberry Pi Zero'
        name == seq![82u8, 97, 115, 112, 98, 101, 114, 114, 121, 32, 80, 105, 32, 90, 101, 114, 111] ==> model_name_model(name) == Some(Model::RaspberryPiZero),
        // 'Raspberry Pi Compute Module 3'
        name == seq![82u8, 97, 115, 112, 98, 101, 114, 114, 121, 32, 80, 105, 32, 67, 111, 109, 112, 117, 116, 101, 32, 77, 111, 100, 117, 108, 101, 32, 51] ==> model_name_model(name) == Some(Model::RaspberryPiComputeModule3),
        // 'Raspberry Pi Compute Module 3 Plus'
        name == seq![82u8, 97, 115, 112, 98, 101, 114, 114, 121, 32, 80, 105, 32, 67, 111, 109, 112, 117, 116, 101, 32, 77, 111, 100, 117, 108, 101, 32, 51, 32, 80, 108, 117, 115] ==> model_name_model(name) == Some(Model::RaspberryPiComputeModule3Plus),
        // 'Raspberry Pi Zero W'
        name == seq![82u8, 97, 115, 112, 98, 101, 114, 114, 121, 32, 80, 105, 32, 90, 101, 114, 111, 32, 87] ==> model_name_model(name) == Some(Model::RaspberryPiZeroW),
        // 'Raspberry Pi Zero 2'
        name == seq![82u8, 97, 115, 112, 98, 101, 114, 114, 121, 32, 80, 105, 32, 90, 101, 114, 111, 32, 50] ==> model_name_model(name) == Some(Model::RaspberryPiZero2W),
        // 'Raspberry Pi 3 Model B+'
        name == seq![82u8, 97, 115, 112, 98, 101, 114, 114, 121, 32, 80, 105, 32, 51, 32, 77, 111, 100, 101, 108, 32, 66, 43] ==> model_name_model(name) == Some(Model::RaspberryPi3BPlus),
        // 'Raspberry Pi 3 Model B Plus'
        name == seq![82u8, 97, 115, 112, 98, 101, 114, 114, 121, 32, 80, 105, 32, 51, 32, 77, 111, 100, 101, 108, 32, 66, 32, 80, 108, 117, 115] ==> model_name_model(name) == Some(Model::RaspberryPi3BPlus),
        // 'Raspberry Pi 3 Model A Plus'
        name == seq![82u8, 97, 115, 112, 98, 101, 114, 114, 121, 32, 80, 105, 32, 51, 32, 77, 111, 100, 101, 108, 32, 65, 32, 80, 108, 117, 115] ==> model_name_model(name) == Some(Model::RaspberryPi3APlus),
        // 'Raspberry Pi 4 Model B'
        name == seq![82u8, 97, 115, 112, 98, 101, 114, 114, 121, 32, 80, 105, 32, 52, 32, 77, 111, 100, 101, 108, 32, 66] ==> model_name_model(name) == Some(Model::RaspberryPi4B),
        // 'Raspberry Pi 400'
        name == seq![82u8, 97, 115, 112, 98, 101, 114, 114, 121, 32, 80, 105, 32, 52, 48, 48] ==> model_name_model(name) == Some(Model::RaspberryPi400),
        // 'Raspberry Pi Compute Module 4'
        name == seq![82u8, 97, 115, 112, 98, 101, 114, 114, 121, 32, 80, 105, 32, 67, 111, 109, 112, 117, 116, 101, 32, 77, 111, 100, 117, 108, 101, 32, 52] ==> model_name_model(name) == Some(Model::RaspberryPiComputeModule4),
        // 'Raspberry Pi Compute Module 4S'
        name == seq![82u8, 97, 115, 112, 98, 101, 114, 114, 121, 32, 80, 105, 32, 67, 111, 109, 112, 117, 116, 101, 32, 77, 111, 100, 117, 108, 101, 32, 52, 83] ==> model_name_model(name) == Some(Model::RaspberryPiComputeModule4S),
{
    // Entries of different lengths differ.
    assert(seq![82u8, 97, 115, 112, 98, 101, 114, 114, 121, 32, 80, 105, 32, 77, 111, 100, 101, 108, 32, 66, 32, 40, 110, 111, 32, 80, 53, 41].len() == 28);
    assert(seq![82u8, 97, 115, 112, 98, 101, 114, 114, 121, 32, 80, 105, 32, 77, 111, 100, 101, 108, 32, 66].len() == 20);
    assert(seq![82u8, 97, 115, 112, 98, 101, 114, 114, 121, 32, 80, 105, 32, 77, 111, 100, 101, 108, 32, 65].len() == 20);
    assert(seq![82u8, 97, 115, 112, 98, 101, 114, 114, 121, 32, 80, 105, 32, 77, 111, 100, 101, 108, 32, 66, 32, 114, 101, 118, 50].len() == 25);
    assert(seq![82u8, 97, 115, 112, 98, 101, 114, 114, 121, 32, 80, 105, 32, 77, 111, 100, 101, 108, 32, 65, 43].len() == 21);
    assert(seq![82u8, 97, 115, 112, 98, 101, 114, 114, 121, 32, 80, 105, 32, 77, 111, 100, 101, 108, 32, 65, 32, 80, 108, 117, 115].len() == 25);
    assert(seq![82u8, 97, 115, 112, 98, 101, 114, 114, 121, 32, 80, 105, 32, 77, 111, 100, 101, 108, 32, 66, 43].len() == 21);
    assert(seq![82u8, 97, 115, 112, 98, 101, 114, 114, 121, 32, 80, 105, 32, 77, 111, 100, 101, 108, 32, 66, 32, 80, 108, 117, 115].len() == 25);
    assert(seq![82u8, 97, 115, 112, 98, 101, 114, 114, 121, 32, 80, 105, 32, 50, 32, 77, 111, 100, 101, 108, 32, 66].len() == 22);
    assert(seq![82u8, 97, 115, 112, 98, 101, 114, 114, 121, 32, 80, 105, 32, 67, 111, 109, 112, 117, 116, 101, 32, 77, 111, 100, 117, 108, 101].len() == 27);
    assert(seq![82u8, 97, 115, 112, 98, 101, 114, 114, 121, 32, 80, 105, 32, 51, 32, 77, 111, 100, 101, 108, 32, 66].len() == 22);
    assert(seq![82u8, 97, 115, 112, 98, 101, 114, 114, 121, 32, 80, 105, 32, 90, 101, 114, 111].len() == 17);
    assert(seq![82u8, 97, 115, 112, 98, 101, 114, 114, 121, 32, 80, 105, 32, 67, 111, 109, 112, 117, 116, 101, 32, 77, 111, 100, 117, 108, 101, 32, 51].len() == 29);
    assert(seq![82u8, 97, 115, 112, 98, 101, 114, 114, 121, 32, 80, 105, 32, 67, 111, 109, 112, 117, 116, 101, 32, 77, 111, 100, 117, 108, 101, 32, 51, 32, 80, 108, 117, 115].len() == 34);
    assert(seq![82u8, 97, 115, 112, 98, 101, 114, 114, 121, 32, 80, 105, 32, 90, 101, 114, 111, 32, 87].len() == 19);
    assert(seq![82u8, 97, 115, 112, 98, 101, 114, 114, 121, 32, 80, 105, 32, 90, 101, 114, 111, 32, 50].len() == 19);
    assert(seq![82u8, 97, 115, 112, 98, 101, 114, 114, 121, 32, 80, 105, 32, 51, 32, 77, 111, 100, 101, 108, 32, 66, 43].len() == 23);
    assert(seq![82u8, 97, 115, 112, 98, 101, 114, 114, 121, 32, 80, 105, 32, 51, 32, 77, 111, 100, 101, 108, 32, 66, 32, 80, 108, 117, 115].len() == 27);
    assert(seq![82u8, 97, 115, 112, 98, 101, 114, 114, 121, 32, 80, 105, 32, 51, 32, 77, 111, 100, 101, 108, 32, 65, 32, 80, 108, 117, 115].len() == 27);
    assert(seq![82u8, 97, 115, 112, 98, 101, 114, 114, 121, 32, 80, 105, 32, 52, 32, 77, 111, 100, 101, 108, 32, 66].len() == 22);
    assert(seq![82u8, 97, 115, 112, 98, 101, 114, 114, 121, 32, 80, 105, 32, 52, 48, 48].len() == 16);
    assert(seq![82u8, 97, 115, 112, 98, 101, 114, 114, 121, 32, 80, 105, 32, 67, 111, 109, 112, 117, 116, 101, 32, 77, 111, 100, 117, 108, 101, 32, 52].len() == 29);
    assert(seq![82u8, 97, 115, 112, 98, 101, 114, 114, 121, 32, 80, 105, 32, 67, 111, 109, 112, 117, 116, 101, 32, 77, 111, 100, 117, 108, 101, 32, 52, 83].len() == 30);
}

/// Only the documented model names identify a model.
pub proof fn lemma_model_names_complete(name: Seq<u8>)
    ensures
        model_name_model(name) is Some ==> ({
            ||| name == seq![82u8, 97, 115, 112, 98, 101, 114, 114, 121, 32, 80, 105, 32, 77, 111, 100, 101, 108, 32, 66, 32, 40, 110, 111, 32, 80, 53, 41]  // 'Raspberry Pi Model B (no P5)'
            ||| name == seq![82u8, 97, 115, 112, 98, 101, 114, 114, 121, 32, 80, 105, 32, 77, 111, 100, 101, 108, 32, 66]  // 'Raspberry Pi Model B'
            ||| name == seq![82u8, 97, 115, 112, 98, 101, 114, 114, 121, 32, 80, 105, 32, 77, 111, 100, 101, 108, 32, 65]  // 'Raspberry Pi Model A'
            ||| name == seq![82u8, 97, 115, 112, 98, 101, 114, 114, 121, 32, 80, 105, 32, 77, 111, 100, 101, 108, 32, 66, 32, 114, 101, 118, 50]  // 'Raspberry Pi Model B rev2'
            ||| name == seq![82u8, 97, 115, 112, 98, 101, 114, 114, 121, 32, 80, 105, 32, 77, 111, 100, 101, 108, 32, 65, 43]  // 'Raspberry Pi Model A+'
            ||| name == seq![82u8, 97, 115, 112, 98, 101, 114, 114, 121, 32, 80, 105, 32, 77, 111, 100, 101, 108, 32, 65, 32, 80, 108, 117, 115]  // 'Raspberry Pi Model A Plus'
            ||| name == seq![82u8, 97, 115, 112, 98, 101, 114, 114, 121, 32, 80, 105, 32, 77, 111, 100, 101, 108, 32, 66, 43]  // 'Raspberry Pi Model B+'
            ||| name == seq![82u8, 97, 115, 112, 98, 101, 114, 114, 121, 32, 80, 105, 32, 77, 111, 100, 101, 108, 32, 66, 32, 80, 108, 117, 115]  // 'Raspberry Pi Model B Plus'
            ||| name == seq![82u8, 97, 115, 112, 98, 101, 114, 114, 121, 32, 80, 105, 32, 50, 32, 77, 111, 100, 101, 108, 32, 66]  // 'Raspberry Pi 2 Model B'
            ||| name == seq![82u8, 97, 115, 112, 98, 101, 114, 114, 121, 32, 80, 105, 32, 67, 111, 109, 112, 117, 116, 101, 32, 77, 111, 100, 117, 108, 101]  // 'Raspberry Pi Compute Module'
            ||| name == seq![82u8, 97, 115, 112, 98, 101, 114, 114, 121, 32, 80, 105, 32, 51, 32, 77, 111, 100, 101, 108, 32, 66]  // 'Raspberry Pi 3 Model B'
            ||| name == seq![82u8, 97, 115, 112, 98, 101, 114, 114, 121, 32, 80, 105, 32, 90, 101, 114, 111]  // 'Raspberry Pi Zero'
            ||| name == seq![82u8, 97, 115, 112, 98, 101, 114, 114, 121, 32, 80, 105, 32, 67, 111, 109, 112, 117, 116, 101, 32, 77, 111, 100, 117, 108, 101, 32, 51]  // 'Raspberry Pi Compute Module 3'
            ||| name == seq![82u8, 97, 115, 112, 98, 101, 114, 114, 121, 32, 80, 105, 32, 67, 111, 109, 112, 117, 116, 101, 32, 77, 111, 100, 117, 108, 101, 32, 51, 32, 80, 108, 117, 115]  // 'Raspberry Pi Compute Module 3 Plus'
            ||| name == seq![82u8, 97, 115, 112, 98, 101, 114, 114, 121, 32, 80, 105, 32, 90, 101, 114, 111, 32, 87]  // 'Raspberry Pi Zero W'
            ||| name == seq![82u8, 97, 115, 112, 98, 101, 114, 114, 121, 32, 80, 105, 32, 90, 101, 114, 111, 32, 50]  // 'Raspberry Pi Zero 2'
            ||| name == seq![82u8, 97, 115, 112, 98, 101, 114, 114, 121, 32, 80, 105, 32, 51, 32, 77, 111, 100, 101, 108, 32, 66, 43]  // 'Raspberry Pi 3 Model B+'
            ||| name == seq![82u8, 97, 115, 112, 98, 101, 114, 114, 121, 32, 80, 105, 32, 51, 32, 77, 111, 100, 101, 108, 32, 66, 32, 80, 108, 117, 115]  // 'Raspberry Pi 3 Model B Plus'
            ||| name == seq![82u8, 97, 115, 112, 98, 101, 114, 114, 121, 32, 80, 105, 32, 51, 32, 77, 111, 100, 101, 108, 32, 65, 32, 80, 108, 117, 115]  // 'Raspberry Pi 3 Model A Plus'
            ||| name == seq![82u8, 97, 115, 112, 98, 101, 114, 114, 121, 32, 80, 105, 32, 52, 32, 77, 111, 100, 101, 108, 32, 66]  // 'Raspberry Pi 4 Model B'
            ||| name == seq![82u8, 97, 115, 112, 98, 101, 114, 114, 121, 32, 80, 105, 32, 52, 48, 48]  // 'Raspberry Pi 400'
            ||| name == seq![82u8, 97, 115, 112, 98, 101, 114, 114, 121, 32, 80, 105, 32, 67, 111, 109, 112, 117, 116, 101, 32, 77, 111, 100, 117, 108, 101, 32, 52]  // 'Raspberry Pi Compute Module 4'
            ||| name == seq![82u8, 97, 115, 112, 98, 101, 114, 114, 121, 32, 80, 105, 32, 67, 111, 109, 112, 117, 116, 101, 32, 77, 111, 100, 117, 108, 101, 32, 52, 83]  // 'Raspberry Pi Compute Module 4S'
        }),
{
}

/// The hardware names of the Raspberry Pi SoCs are exactly the documented ones.
pub proof fn lemma_known_hardware_names(h: Seq<u8>)
    ensures
        known_hardware(h) <==> ({
            ||| h == seq![66u8, 67, 77, 50, 55, 48, 56]  // 'BCM2708'
            ||| h == seq![66u8, 67, 77, 50, 56, 51, 53]  // 'BCM2835'
            ||| h == seq![66u8, 67, 77, 50, 55, 48, 57]  // 'BCM2709'
            ||| h == seq![66u8, 67, 77, 50, 56, 51, 54]  // 'BCM2836'
            ||| h == seq![66u8, 67, 77, 50, 55, 49, 48]  // 'BCM2710'
            ||| h == seq![66u8, 67, 77, 50, 56, 51, 55]  // 'BCM2837'
            ||| h == seq![66u8, 67, 77, 50, 56, 51, 55, 65, 49]  // 'BCM2837A1'
            ||| h == seq![66u8, 67, 77, 50, 56, 51, 55, 66, 48]  // 'BCM2837B0'
            ||| h == seq![82u8, 80, 51, 65, 48, 45, 65, 85]  // 'RP3A0-AU'
            ||| h == seq![66u8, 67, 77, 50, 55, 49, 48, 65, 49]  // 'BCM2710A1'
            ||| h == seq![66u8, 67, 77, 50, 55, 49, 49]  // 'BCM2711'
        }),
{
}

} // verus!
