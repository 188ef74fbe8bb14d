use vstd::prelude::*;

verus! {

use vstd::string::StringExecFns;

use crate::hid;

/// Vendor identifier shared by all peripherals this library drives.
pub const NZXT_PID: u16 = 0x1e71;

/// What the host's enumeration reports of one attached peripheral, as plain
/// values: identifiers and best-effort textual descriptors.
#[derive(Clone, Debug)]
pub struct PeripheralIdentity {
    pub vendor_id: u16,
    pub product_id: u16,
    pub manufacturer: Option<String>,
    pub product: Option<String>,
    pub serial: Option<String>,
    pub path: Option<String>,
}

/// Whether an enumerated peripheral carries the vendor identifier and so
/// takes part in the scan.
pub open spec fn matches_vendor_spec(id: PeripheralIdentity) -> bool {
    id.vendor_id == NZXT_PID
}

pub fn matches_vendor(id: &PeripheralIdentity) -> (r: bool)
    ensures
        r == matches_vendor_spec(*id),
{
    id.vendor_id == NZXT_PID
}

/// The subsequence of identities that carry the vendor identifier, in
/// enumeration order.
pub open spec fn matching_ids(ids: Seq<PeripheralIdentity>) -> Seq<PeripheralIdentity>
    decreases ids.len(),
{
    if ids.len() == 0 {
        Seq::empty()
    } else {
        matching_ids(ids.drop_last()) + if matches_vendor_spec(ids.last()) {
            seq![ids.last()]
        } else {
            Seq::empty()
        }
    }
}

/// A scan over peripherals none of which carries the vendor identifier
/// yields no entries at all.
pub proof fn lemma_no_match_no_entries(ids: Seq<PeripheralIdentity>)
    requires
        forall|i: int| 0 <= i < ids.len() ==> !matches_vendor_spec(#[trigger] ids[i]),
    ensures
        matching_ids(ids).len() == 0,
    decreases ids.len(),
{
    if ids.len() > 0 {
        lemma_no_match_no_entries(ids.drop_last());
    }
}

/// A scan over peripherals all of which carry the vendor identifier yields
/// one entry per peripheral, in enumeration order: one failed open neither
/// drops its own entry nor anyone else's.
pub proof fn lemma_all_match_all_entries(ids: Seq<PeripheralIdentity>)
    requires
        forall|i: int| 0 <= i < ids.len() ==> matches_vendor_spec(#[trigger] ids[i]),
    ensures
        matching_ids(ids) == ids,
    decreases ids.len(),
{
    if ids.len() > 0 {
        lemma_all_match_all_entries(ids.drop_last());
        assert(matching_ids(ids) =~= ids);
    } else {
        assert(matching_ids(ids) =~= ids);
    }
}

/// A textual descriptor, or the fallback where the peripheral gave none.
pub open spec fn text_or_unknown(o: Option<String>) -> Seq<char> {
    match o {
        Some(s) => s@,
        None => "unknown"@,
    }
}

/// The peripheral's platform path, or the fallback where it has no textual form.
pub open spec fn path_or_fallback(o: Option<String>) -> Seq<char> {
    match o {
        Some(s) => s@,
        None => "<unparsable path>"@,
    }
}

/// The diagnostic message reported when a matching peripheral cannot be
/// opened: its location, its descriptors and the underlying cause.
pub open spec fn open_failure_message_spec(id: PeripheralIdentity, cause: Seq<char>) -> Seq<
    char,
> {
    "Couldn't open device at "@ + path_or_fallback(id.path) + " ("@ + text_or_unknown(
        id.manufacturer,
    ) + " by "@ + text_or_unknown(id.product) + "): "@ + cause
}

/// Builds the per-peripheral diagnostic message for a failed open.
pub fn open_failure_message(id: &PeripheralIdentity, cause: &str) -> (r: String)
    ensures
        r@ == open_failure_message_spec(*id, cause@),
{
    let mut m = String::new();
    m.append("Couldn't open device at ");
    match &id.path {
        Some(p) => m.append(p.as_str()),
        None => m.append("<unparsable path>"),
    }
    m.append(" (");
    match &id.manufacturer {
        Some(s) => m.append(s.as_str()),
        None => m.append("unknown"),
    }
    m.append(" by ");
    match &id.product {
        Some(s) => m.append(s.as_str()),
        None => m.append("unknown"),
    }
    m.append("): ");
    m.append(cause);
    proof {
        assert(m@ =~= open_failure_message_spec(*id, cause@));
    }
    m
}

/// The capability interface of any opened peripheral.
pub trait Device {
    /// The product identifier the peripheral was enumerated under.
    spec fn id_spec(&self) -> u16;

    /// Emits one human-readable identity line.
    fn print_info(&self);

    /// The peripheral's product identifier, used to select a protocol driver.
    fn device_id(&self) -> (r: u16)
        ensures
            r == self.id_spec(),
    ;

    /// Sends one report to the peripheral's control channel; `Ok` carries the
    /// number of bytes written. No retry is made here.
    fn write(&mut self, data: &[u8]) -> (r: Result<usize, String>)
        ensures
            r matches Ok(n) ==> n <= data@.len(),
    ;

    /// Blocks for one report from the peripheral's telemetry channel; `Ok`
    /// carries the number of bytes read. No retry is made here.
    fn read(&mut self, buf: &mut Vec<u8>) -> (r: Result<usize, String>)
        ensures
            final(buf)@.len() == old(buf)@.len(),
            r matches Ok(n) ==> n <= final(buf)@.len(),
    ;
}

/// One opened peripheral: exactly one open hidapi handle, together with the
/// product identifier it was enumerated under. The host HID report
/// abstraction owns the claim lifecycle of the underlying interface, so
/// `write` and `read` map directly to sending and receiving one fixed-size
/// report; the handle is closed when this value is dropped.
pub struct UsbDevice {
    device: hidapi::HidDevice,
    product_id: u16,
}

impl UsbDevice {
    /// The product identifier this transport was opened under.
    pub closed spec fn product_id_spec(&self) -> u16 {
        self.product_id
    }
}

impl Device for UsbDevice {
    open spec fn id_spec(&self) -> u16 {
        self.product_id_spec()
    }

    fn print_info(&self) {
        if self.product_id == crate::kraken::PRODUCT_ID || self.product_id
            == crate::smart_device::PRODUCT_ID {
            let serial = match self.device.get_serial_number_string() {
                Ok(Some(s)) => s,
                _ => String::from_str("unknown"),
            };
            let line = info_line(self.product_id, serial.as_str(), "", "");
            hid::print_line(line.as_str());
        } else {
            let manufacturer = match self.device.get_manufacturer_string() {
                Ok(Some(s)) => s,
                _ => String::from_str("unknown"),
            };
            let product = match self.device.get_product_string() {
                Ok(Some(s)) => s,
                _ => String::from_str("unknown"),
            };
            let line = info_line(self.product_id, "", manufacturer.as_str(), product.as_str());
            hid::print_line(line.as_str());
        }
    }

    fn device_id(&self) -> (r: u16) {
        self.product_id
    }

    fn write(&mut self, data: &[u8]) -> (r: Result<usize, String>) {
        match hid::write_report(&self.device, data) {
            Ok(n) => Ok(n),
            Err(e) => Err(hid::hid_error_message(&e)),
        }
    }

    fn read(&mut self, buf: &mut Vec<u8>) -> (r: Result<usize, String>) {
        match hid::read_report(&self.device, buf) {
            Ok(n) => Ok(n),
            Err(e) => Err(hid::hid_error_message(&e)),
        }
    }
}

/// One hexadecimal digit as text.
pub open spec fn hex_digit_seq(d: u8) -> Seq<char>
    recommends
        d < 16,
{
    if d == 0 {
        "0"@
    } else if d == 1 {
        "1"@
    } else if d == 2 {
        "2"@
    } else if d == 3 {
        "3"@
    } else if d == 4 {
        "4"@
    } else if d == 5 {
        "5"@
    } else if d == 6 {
        "6"@
    } else if d == 7 {
        "7"@
    } else if d == 8 {
        "8"@
    } else if d == 9 {
        "9"@
    } else if d == 10 {
        "a"@
    } else if d == 11 {
        "b"@
    } else if d == 12 {
        "c"@
    } else if d == 13 {
        "d"@
    } else if d == 14 {
        "e"@
    } else {
        "f"@
    }
}

/// A 16-bit value as four lower-case hexadecimal digits.
pub open spec fn hex16_seq(v: u16) -> Seq<char> {
    hex_digit_seq(((v >> 12) & 0xf) as u8) + hex_digit_seq(((v >> 8) & 0xf) as u8) + hex_digit_seq(
        ((v >> 4) & 0xf) as u8,
    ) + hex_digit_seq((v & 0xf) as u8)
}

fn hex_digit(d: u8) -> (r: &'static str)
    requires
        d < 16,
    ensures
        r@ == hex_digit_seq(d),
{
    if d == 0 {
        "0"
    } else if d == 1 {
        "1"
    } else if d == 2 {
        "2"
    } else if d == 3 {
        "3"
    } else if d == 4 {
        "4"
    } else if d == 5 {
        "5"
    } else if d == 6 {
        "6"
    } else if d == 7 {
        "7"
    } else if d == 8 {
        "8"
    } else if d == 9 {
        "9"
    } else if d == 10 {
        "a"
    } else if d == 11 {
        "b"
    } else if d == 12 {
        "c"
    } else if d == 13 {
        "d"
    } else if d == 14 {
        "e"
    } else {
        "f"
    }
}

/// Formats a 16-bit identifier as four lower-case hexadecimal digits.
pub fn hex16(v: u16) -> (r: String)
    ensures
        r@ == hex16_seq(v),
{
    assert((v >> 12) & 0xf < 16) by (bit_vector);
    assert((v >> 8) & 0xf < 16) by (bit_vector);
    assert((v >> 4) & 0xf < 16) by (bit_vector);
    assert(v & 0xf < 16) by (bit_vector);
    let mut s = String::new();
    s.append(hex_digit(((v >> 12) & 0xf) as u8));
    s.append(hex_digit(((v >> 8) & 0xf) as u8));
    s.append(hex_digit(((v >> 4) & 0xf) as u8));
    s.append(hex_digit((v & 0xf) as u8));
    proof {
        assert(s@ =~= hex16_seq(v));
    }
    s
}

/// The identity line a peripheral is listed under: vendor-known display text
/// for recognized product identifiers, else a generic description with the
/// raw product identifier and best-effort descriptors.
pub open spec fn info_line_spec(
    product_id: u16,
    serial: Seq<char>,
    manufacturer: Seq<char>,
    product: Seq<char>,
) -> Seq<char> {
    if product_id == crate::kraken::PRODUCT_ID {
        "NZXT Kraken X62 [s/n: "@ + serial + "]"@
    } else if product_id == crate::smart_device::PRODUCT_ID {
        "NZXT Smart Device [s/n: "@ + serial + "]"@
    } else {
        "Unknown "@ + manufacturer + " Device: "@ + hex16_seq(product_id) + " (product: "@
            + product + ")"@
    }
}

/// Builds the identity line a peripheral is listed under.
pub fn info_line(product_id: u16, serial: &str, manufacturer: &str, product: &str) -> (r: String)
    ensures
        r@ == info_line_spec(product_id, serial@, manufacturer@, product@),
{
    let mut line = String::new();
    if product_id == crate::kraken::PRODUCT_ID {
        line.append("NZXT Kraken X62 [s/n: ");
        line.append(serial);
        line.append("]");
    } else if product_id == crate::smart_device::PRODUCT_ID {
        line.append("NZXT Smart Device [s/n: ");
        line.append(serial);
        line.append("]");
    } else {
        line.append("Unknown ");
        line.append(manufacturer);
        line.append(" Device: ");
        let hex = hex16(product_id);
        line.append(hex.as_str());
        line.append(" (product: ");
        line.append(product);
        line.append(")");
    }
    proof {
        assert(line@ =~= info_line_spec(product_id, serial@, manufacturer@, product@));
    }
    line
}

fn option_text(o: Option<&str>) -> (r: Option<String>)
    ensures
        o is None ==> r is None,
        o matches Some(s) ==> (r matches Some(t) && t@ == s@),
{
    match o {
        Some(s) => Some(s.to_owned()),
        None => None,
    }
}

/// Reads one enumeration record out into plain values.
fn identity_of(info: &hidapi::DeviceInfo) -> (id: PeripheralIdentity) {
    PeripheralIdentity {
        vendor_id: info.vendor_id(),
        product_id: info.product_id(),
        manufacturer: option_text(info.manufacturer_string()),
        product: option_text(info.product_string()),
        serial: option_text(info.serial_number()),
        path: hid::device_path_text(info),
    }
}

/// The identities of a batch of enumerated peripherals, in order.
pub open spec fn ids_of(pairs: Seq<(hidapi::DeviceInfo, PeripheralIdentity)>) -> Seq<
    PeripheralIdentity,
> {
    pairs.map_values(|p: (hidapi::DeviceInfo, PeripheralIdentity)| p.1)
}

/// Whether `entry` is a scan outcome for a peripheral with identity `id`: an
/// opened transport under the identity's product identifier, or the
/// diagnostic message built for some cause of failure.
pub open spec fn scan_entry_matches(
    id: PeripheralIdentity,
    entry: Result<UsbDevice, String>,
) -> bool {
    match entry {
        Ok(dev) => dev.product_id_spec() == id.product_id,
        Err(msg) => exists|cause: Seq<char>| msg@ == open_failure_message_spec(id, cause),
    }
}

/// Walks a batch of enumerated peripherals, attempts to open every one that
/// carries the vendor identifier, and reports one entry per match, in
/// enumeration order: a failed open yields its diagnostic entry and never
/// aborts the walk.
pub fn scan_devices(
    api: &hidapi::HidApi,
    pairs: Vec<(hidapi::DeviceInfo, PeripheralIdentity)>,
) -> (r: Vec<Result<UsbDevice, String>>)
    ensures
        r@.len() == matching_ids(ids_of(pairs@)).len(),
        forall|j: int|
            0 <= j < r@.len() ==> scan_entry_matches(
                matching_ids(ids_of(pairs@))[j],
                #[trigger] r@[j],
            ),
{
    let ghost ids = ids_of(pairs@);
    let mut out: Vec<Result<UsbDevice, String>> = Vec::new();
    let mut k: usize = 0;
    while k < pairs.len()
        invariant
            k <= pairs@.len(),
            ids == ids_of(pairs@),
            out@.len() == matching_ids(ids.take(k as int)).len(),
            forall|j: int|
                0 <= j < out@.len() ==> scan_entry_matches(
                    matching_ids(ids.take(k as int))[j],
                    #[trigger] out@[j],
                ),
        decreases pairs@.len() - k,
    {
        let pair = &pairs[k];
        let id = &pair.1;
        proof {
            assert(ids[k as int] == pairs@[k as int].1);
        }
        if matches_vendor(id) {
            match pair.0.open_device(api) {
                Ok(handle) => {
                    out.push(Ok(UsbDevice { device: handle, product_id: id.product_id }));
                },
                Err(e) => {
                    let cause = hid::hid_error_message(&e);
                    let msg = open_failure_message(id, cause.as_str());
                    proof {
                        assert(msg@ == open_failure_message_spec(*id, cause@));
                    }
                    out.push(Err(msg));
                },
            }
        }
        k = k + 1;
        proof {
            assert(ids.take(k as int).drop_last() =~= ids.take(k - 1));
            assert(ids.take(k as int).last() == ids[k - 1]);
        }
    }
    proof {
        assert(ids.take(pairs@.len() as int) =~= ids);
    }
    out
}

/// Holds the host enumeration context; all transports are opened through it
/// and live no longer than it does.
pub struct DeviceManager {
    context: hidapi::HidApi,
}

impl DeviceManager {
    /// Starts the host HID enumeration context. Fails only when the host
    /// subsystem itself is unavailable.
    pub fn new() -> (r: Result<DeviceManager, String>) {
        match hidapi::HidApi::new() {
            Ok(context) => Ok(DeviceManager { context }),
            Err(err) => Err(hid::hid_error_message(&err)),
        }
    }

    /// Enumerates every attached peripheral that carries the vendor
    /// identifier and attempts to open each, reporting per-peripheral
    /// successes and failures in enumeration order; see `scan_devices` for
    /// the shape of the result.
    pub fn all(&self) -> (r: Vec<Result<UsbDevice, String>>) {
        let mut infos = hid::device_infos(&self.context);
        let mut pairs: Vec<(hidapi::DeviceInfo, PeripheralIdentity)> = Vec::new();
        while infos.len() > 0
            decreases infos@.len(),
        {
            let info = infos.remove(0);
            let id = identity_of(&info);
            pairs.push((info, id));
        }
        scan_devices(&self.context, pairs)
    }
}

} // verus!
