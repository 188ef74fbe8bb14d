use vstd::prelude::*;

verus! {

use vstd::string::StringExecFns;

use crate::device::Device;
use crate::device::UsbDevice;
use crate::status::CHANNEL_COUNT;
use crate::status::STATUS_REPORT_LEN;
use crate::status::Status;
use crate::status::decode_status_reports;

/// Product identifier of the Smart Device / H500i controller.
pub const PRODUCT_ID: u16 = 0x1714;

/// An RGB color. Five presets cover the colors the command line offers.
#[derive(Clone, Copy, Debug, PartialEq, Eq, Structural)]
pub struct Color {
    pub r: u8,
    pub g: u8,
    pub b: u8,
}

impl Color {
    pub fn off() -> (c: Color)
        ensures
            c == (Color { r: 0x00, g: 0x00, b: 0x00 }),
    {
        Color { r: 0, g: 0, b: 0 }
    }

    pub fn white() -> (c: Color)
        ensures
            c == (Color { r: 0xff, g: 0xff, b: 0xff }),
    {
        Color { r: 0xff, g: 0xff, b: 0xff }
    }

    pub fn red() -> (c: Color)
        ensures
            c == (Color { r: 0xff, g: 0x00, b: 0x00 }),
    {
        Color { r: 0xff, g: 0x00, b: 0x00 }
    }

    pub fn green() -> (c: Color)
        ensures
            c == (Color { r: 0x00, g: 0xff, b: 0x00 }),
    {
        Color { r: 0x00, g: 0xff, b: 0x00 }
    }

    pub fn blue() -> (c: Color)
        ensures
            c == (Color { r: 0x00, g: 0x00, b: 0xff }),
    {
        Color { r: 0x00, g: 0x00, b: 0xff }
    }
}

/// One byte of a GRB triple: position `k` counts bytes from the start of a zone.
pub open spec fn grb_at(c: Color, k: int) -> u8 {
    if k % 3 == 0 {
        c.g
    } else if k % 3 == 1 {
        c.r
    } else {
        c.b
    }
}

/// The byte at offset `i` of the 128-byte LED control report for color `c`:
/// command bytes at offsets 0-4, GRB triples in the zones [5,35), [35,62) and
/// [65,68), fixed trailer bytes at 63-64, and zero everywhere else.
pub open spec fn led_report_byte(c: Color, i: int) -> u8 {
    if i == 0 {
        0x02
    } else if i == 1 {
        0x4b
    } else if i == 4 {
        0x02
    } else if 5 <= i && i < 35 {
        grb_at(c, i - 5)
    } else if 35 <= i && i < 62 {
        grb_at(c, i - 35)
    } else if i == 64 {
        0x03
    } else if 65 <= i && i < 68 {
        grb_at(c, i - 65)
    } else {
        0x00
    }
}

/// The whole 128-byte LED control report for color `c`.
pub open spec fn led_report_spec(c: Color) -> Seq<u8> {
    Seq::new(128, |i: int| led_report_byte(c, i))
}

/// The report bytes once the payload is written up to (excluding) offset `upto`:
/// filled positions already carry the color, the rest still read as an
/// all-zero payload.
spec fn led_partial_byte(c: Color, upto: int, i: int) -> u8 {
    if i < upto {
        led_report_byte(c, i)
    } else {
        led_report_byte(Color { r: 0, g: 0, b: 0 }, i)
    }
}

/// The base LED control report: command and trailer bytes set, payload zero.
/// It equals the report for the `off` color, whose payload is all zero.
pub fn led_message() -> (data: Vec<u8>)
    ensures
        data@ == led_report_spec(Color { r: 0, g: 0, b: 0 }),
{
    let mut data: Vec<u8> = vec![0u8; 128];
    data[0] = 0x02;
    data[1] = 0x4b;
    data[4] = 0x02;
    data[64] = 0x03;
    proof {
        assert(data@ =~= led_report_spec(Color { r: 0, g: 0, b: 0 }));
    }
    data
}

/// Builds the LED control report that sets every zone to `color`.
pub fn led_report(color: &Color) -> (data: Vec<u8>)
    ensures
        data@ == led_report_spec(*color),
{
    let mut data = led_message();
    let ghost c = *color;

    let mut i: usize = 5;
    while i < 35
        invariant
            5 <= i <= 35,
            (i - 5) % 3 == 0,
            data@.len() == 128,
            forall|j: int| 0 <= j < 128 ==> data@[j] == led_partial_byte(c, i as int, j),
            c == *color,
        decreases 35 - i,
    {
        data[i] = color.g;
        data[i + 1] = color.r;
        data[i + 2] = color.b;
        i = i + 3;
    }

    let mut i: usize = 35;
    while i < 62
        invariant
            35 <= i <= 62,
            (i - 35) % 3 == 0,
            data@.len() == 128,
            forall|j: int| 0 <= j < 128 ==> data@[j] == led_partial_byte(c, i as int, j),
            c == *color,
        decreases 62 - i,
    {
        data[i] = color.g;
        data[i + 1] = color.r;
        data[i + 2] = color.b;
        i = i + 3;
    }

    let mut i: usize = 65;
    while i < 68
        invariant
            65 <= i <= 68,
            (i - 65) % 3 == 0,
            data@.len() == 128,
            forall|j: int| 0 <= j < 128 ==> data@[j] == led_partial_byte(c, i as int, j),
            c == *color,
        decreases 68 - i,
    {
        data[i] = color.g;
        data[i + 1] = color.r;
        data[i + 2] = color.b;
        i = i + 3;
    }

    proof {
        assert(data@ =~= led_report_spec(*color));
    }
    data
}

/// Every LED slot of every zone of the control report carries the color's
/// G, R, B bytes, and every byte outside the three payload zones is the
/// fixed command, trailer or padding byte, whatever the color.
pub proof fn lemma_led_report_zones(c: Color)
    ensures
        led_report_spec(c).len() == 128,
        forall|s: int|
            0 <= s < 10 ==> #[trigger] led_report_spec(c)[5 + 3 * s] == c.g && led_report_spec(
                c,
            )[6 + 3 * s] == c.r && led_report_spec(c)[7 + 3 * s] == c.b,
        forall|s: int|
            0 <= s < 9 ==> #[trigger] led_report_spec(c)[35 + 3 * s] == c.g && led_report_spec(
                c,
            )[36 + 3 * s] == c.r && led_report_spec(c)[37 + 3 * s] == c.b,
        led_report_spec(c)[65] == c.g && led_report_spec(c)[66] == c.r && led_report_spec(c)[67]
            == c.b,
        led_report_spec(c)[0] == 0x02 && led_report_spec(c)[1] == 0x4b && led_report_spec(c)[2]
            == 0x00 && led_report_spec(c)[3] == 0x00 && led_report_spec(c)[4] == 0x02,
        led_report_spec(c)[62] == 0x00 && led_report_spec(c)[63] == 0x00 && led_report_spec(
            c,
        )[64] == 0x03,
        forall|i: int| 68 <= i < 128 ==> led_report_spec(c)[i] == 0x00,
{
    assert forall|s: int| 0 <= s < 10 implies #[trigger] led_report_spec(c)[5 + 3 * s] == c.g
        && led_report_spec(c)[6 + 3 * s] == c.r && led_report_spec(c)[7 + 3 * s] == c.b by {
        assert((3 * s) % 3 == 0 && (3 * s + 1) % 3 == 1 && (3 * s + 2) % 3 == 2) by (nonlinear_arith)
            requires 0 <= s;
    }
    assert forall|s: int| 0 <= s < 9 implies #[trigger] led_report_spec(c)[35 + 3 * s] == c.g
        && led_report_spec(c)[36 + 3 * s] == c.r && led_report_spec(c)[37 + 3 * s] == c.b by {
        assert((3 * s) % 3 == 0 && (3 * s + 1) % 3 == 1 && (3 * s + 2) % 3 == 2) by (nonlinear_arith)
            requires 0 <= s;
    }
}

/// The report for the `off` color is the base report: zero everywhere but
/// the fixed command and trailer bytes, which stay as for any color.
pub proof fn lemma_led_report_off()
    ensures
        forall|i: int|
            0 <= i < 128 && i != 0 && i != 1 && i != 4 && i != 64 ==> led_report_spec(
                Color { r: 0, g: 0, b: 0 },
            )[i] == 0x00,
        led_report_spec(Color { r: 0, g: 0, b: 0 })[0] == 0x02,
        led_report_spec(Color { r: 0, g: 0, b: 0 })[1] == 0x4b,
        led_report_spec(Color { r: 0, g: 0, b: 0 })[4] == 0x02,
        led_report_spec(Color { r: 0, g: 0, b: 0 })[64] == 0x03,
{
}

/// The Smart Device protocol driver: wraps exactly one opened transport and
/// keeps no other state.
pub struct SmartDevice {
    usb_device: UsbDevice,
}

impl SmartDevice {
    /// The transport this driver drives.
    pub closed spec fn transport_spec(&self) -> UsbDevice {
        self.usb_device
    }

    pub fn new(usb_device: UsbDevice) -> (d: SmartDevice)
        ensures
            d.transport_spec() == usb_device,
    {
        SmartDevice { usb_device }
    }

    /// Sets every LED zone to `color` by one write of the control report
    /// `led_report_spec(color)`; turning off is `leds(Color::off())`.
    pub fn leds(&mut self, color: Color) -> (r: Result<(), String>) {
        let data = led_report(&color);
        match self.usb_device.write(data.as_slice()) {
            Ok(_) => Ok(()),
            Err(e) => Err(e),
        }
    }

    /// Performs one telemetry cycle: one blocking read per fan channel, each
    /// into a fresh report buffer, then decodes the batch as
    /// `status_list_spec` says: firmware and noise from the first report,
    /// then the three fan statuses in channel order. A read that fails or
    /// hands back a short report ends the cycle with its error; an undefined
    /// fan mode encoding is reported, never coerced to a default.
    pub fn status(&mut self) -> (r: Result<Vec<Status>, String>)
        ensures
            r matches Ok(v) ==> v@.len() == 5 && v@[0] is Firmware && v@[1] is Noise && (forall|
                i: int,
            |
                2 <= i < 5 ==> (#[trigger] v@[i] is Fan || v@[i] is UnpoweredFan)),
    {
        let mut reports: Vec<Vec<u8>> = Vec::new();
        let mut ch: usize = 0;
        while ch < CHANNEL_COUNT
            invariant
                ch <= CHANNEL_COUNT,
                reports@.len() == ch,
                forall|i: int|
                    0 <= i < ch ==> (#[trigger] reports@[i])@.len() == STATUS_REPORT_LEN,
            decreases CHANNEL_COUNT - ch,
        {
            let mut buf: Vec<u8> = vec![0u8; STATUS_REPORT_LEN];
            match self.usb_device.read(&mut buf) {
                Ok(n) => {
                    if n != STATUS_REPORT_LEN {
                        return Err(String::from_str("truncated telemetry report"));
                    }
                },
                Err(e) => {
                    return Err(e);
                },
            }
            reports.push(buf);
            ch = ch + 1;
        }
        match decode_status_reports(&reports) {
            Ok(v) => Ok(v),
            Err(_) => Err(String::from_str("protocol violation: undefined fan mode encoding")),
        }
    }
}

} // verus!
