use std::io::Write;
use vstd::prelude::*;

verus! {

/// hidapi's process-wide enumeration context; opaque here, carried through.
#[verifier::external_type_specification]
#[verifier::external_body]
pub struct ExHidApi(hidapi::HidApi);

/// One open hidapi handle to a peripheral; opaque here, carried through.
#[verifier::external_type_specification]
#[verifier::external_body]
pub struct ExHidDevice(hidapi::HidDevice);

/// hidapi's per-device enumeration record; opaque here, read through accessors.
#[verifier::external_type_specification]
#[verifier::external_body]
pub struct ExDeviceInfo(hidapi::DeviceInfo);

/// hidapi's error type; opaque here, rendered to text by `hid_error_message`.
#[verifier::external_type_specification]
#[verifier::external_body]
pub struct ExHidError(hidapi::HidError);

/// Relies on hidapi::HidApi::new: starts the host HID context; fails only
/// when the host subsystem itself is unavailable.
pub assume_specification[ hidapi::HidApi::new ]() -> hidapi::HidResult<hidapi::HidApi>;

/// Relies on hidapi::DeviceInfo::vendor_id: the record's vendor identifier.
pub assume_specification[ hidapi::DeviceInfo::vendor_id ](d: &hidapi::DeviceInfo) -> u16;

/// Relies on hidapi::DeviceInfo::product_id: the record's product identifier.
pub assume_specification[ hidapi::DeviceInfo::product_id ](d: &hidapi::DeviceInfo) -> u16;

/// Relies on hidapi::DeviceInfo::manufacturer_string: the manufacturer text,
/// when the device reported one that converts to a string.
pub assume_specification<'a>[ hidapi::DeviceInfo::manufacturer_string ](
    d: &'a hidapi::DeviceInfo,
) -> Option<&'a str>;

/// Relies on hidapi::DeviceInfo::product_string: the product text, when the
/// device reported one that converts to a string.
pub assume_specification<'a>[ hidapi::DeviceInfo::product_string ](
    d: &'a hidapi::DeviceInfo,
) -> Option<&'a str>;

/// Relies on hidapi::DeviceInfo::serial_number: the serial number text, when
/// the device reported one that converts to a string.
pub assume_specification<'a>[ hidapi::DeviceInfo::serial_number ](
    d: &'a hidapi::DeviceInfo,
) -> Option<&'a str>;

/// Relies on hidapi::DeviceInfo::open_device: opens the peripheral the record
/// describes, by path when one is known, else by identifiers and serial.
pub assume_specification[ hidapi::DeviceInfo::open_device ](
    d: &hidapi::DeviceInfo,
    api: &hidapi::HidApi,
) -> hidapi::HidResult<hidapi::HidDevice>;

/// Relies on hidapi::HidDevice::write: sends one report on the control
/// channel and returns the number of bytes actually written.
#[verifier::external_body]
pub(crate) fn write_report(dev: &hidapi::HidDevice, data: &[u8]) -> (r: Result<
    usize,
    hidapi::HidError,
>)
    ensures
        r matches Ok(n) ==> n <= data@.len(),
{
    dev.write(data)
}

/// Relies on hidapi::HidDevice::get_serial_number_string: asks the open
/// device for its serial number text.
pub assume_specification[ hidapi::HidDevice::get_serial_number_string ](
    d: &hidapi::HidDevice,
) -> hidapi::HidResult<Option<String>>;

/// Relies on hidapi::HidDevice::get_manufacturer_string: asks the open
/// device for its manufacturer text.
pub assume_specification[ hidapi::HidDevice::get_manufacturer_string ](
    d: &hidapi::HidDevice,
) -> hidapi::HidResult<Option<String>>;

/// Relies on hidapi::HidDevice::get_product_string: asks the open device for
/// its product text.
pub assume_specification[ hidapi::HidDevice::get_product_string ](
    d: &hidapi::HidDevice,
) -> hidapi::HidResult<Option<String>>;

/// Relies on hidapi::HidApi::device_list: one record per attached peripheral,
/// in the host's enumeration order.
#[verifier::external_body]
pub(crate) fn device_infos(api: &hidapi::HidApi) -> Vec<hidapi::DeviceInfo> {
    api.device_list().cloned().collect()
}

/// Relies on hidapi::DeviceInfo::path: the record's platform path as text,
/// when that path is valid UTF-8.
#[verifier::external_body]
pub(crate) fn device_path_text(d: &hidapi::DeviceInfo) -> Option<String> {
    d.path().to_str().ok().map(|s| s.to_owned())
}

/// Relies on hidapi::HidError's display implementation: a human-readable
/// description of the failure.
#[verifier::external_body]
pub(crate) fn hid_error_message(e: &hidapi::HidError) -> String {
    e.to_string()
}

/// Relies on hidapi::HidDevice::read: blocks for one incoming report on the
/// telemetry channel and fills at most `buf.len()` bytes; the buffer keeps
/// its length.
#[verifier::external_body]
pub(crate) fn read_report(dev: &hidapi::HidDevice, buf: &mut Vec<u8>) -> (r: Result<
    usize,
    hidapi::HidError,
>)
    ensures
        final(buf)@.len() == old(buf)@.len(),
        r matches Ok(n) ==> n <= final(buf)@.len(),
{
    dev.read(buf.as_mut_slice())
}

/// Relies on std::io::Stdout: writes one line of text to standard output.
#[verifier::external_body]
pub(crate) fn print_line(line: &str) {
    let _ = writeln!(std::io::stdout(), "{}", line);
}

} // verus!
