use vstd::prelude::*;

verus! {

/// Number of bytes in one telemetry report.
pub const STATUS_REPORT_LEN: usize = 21;

/// Number of physical fan channels the peripheral reports on.
pub const CHANNEL_COUNT: usize = 3;

/// How a fan channel is driven.
#[derive(Clone, Copy, Debug, PartialEq, Eq, Structural)]
pub enum FanPower {
    Dc,
    Pwm,
}

/// Speed and electrical readings of one fan channel.
#[derive(Clone, Copy, Debug, PartialEq, Eq, Structural)]
pub struct FanStatus {
    pub power: FanPower,
    pub rpm: u16,
    pub mv: u16,
    pub ma: u16,
}

/// Ambient noise reading.
#[derive(Clone, Copy, Debug, PartialEq, Eq, Structural)]
pub struct NoiseStatus {
    pub db: u8,
}

/// Firmware version of the peripheral.
#[derive(Clone, Copy, Debug, PartialEq, Eq, Structural)]
pub struct FirmwareStatus {
    pub major: u16,
    pub minor: u16,
    pub patch: u16,
}

/// One decoded telemetry entry.
#[derive(Clone, Copy, Debug, PartialEq, Eq, Structural)]
pub enum Status {
    UnpoweredFan,
    Fan(FanStatus),
    Noise(NoiseStatus),
    Firmware(FirmwareStatus),
}

/// An incoming report's discriminant byte matches no known encoding.
#[derive(Clone, Copy, Debug, PartialEq, Eq, Structural)]
pub enum DecodeError {
    ProtocolViolation,
}

/// The two low bits of byte 15 select how the fan channel is driven.
pub open spec fn fan_mode_bits(rep: Seq<u8>) -> u8 {
    rep[15] & 0x03
}

/// The fan channel status encoded in a report whose mode bits are 0, 1 or 2:
/// rpm from bytes 3-4 (big endian), millivolts as byte 7 times 100 plus
/// byte 8, milliamperes as byte 10 times 10.
pub open spec fn fan_status_spec(rep: Seq<u8>) -> Status {
    let bits = fan_mode_bits(rep);
    if bits == 0 {
        Status::UnpoweredFan
    } else {
        Status::Fan(
            FanStatus {
                power: if bits == 1 {
                    FanPower::Dc
                } else {
                    FanPower::Pwm
                },
                rpm: (rep[3] as int * 256 + rep[4] as int) as u16,
                mv: (rep[7] as int * 100 + rep[8] as int) as u16,
                ma: (rep[10] as int * 10) as u16,
            },
        )
    }
}

/// Fan channel decode including the rejection of the undefined encoding 3.
pub open spec fn fan_channel_spec(rep: Seq<u8>) -> Result<Status, DecodeError> {
    if fan_mode_bits(rep) == 3 {
        Err(DecodeError::ProtocolViolation)
    } else {
        Ok(fan_status_spec(rep))
    }
}

/// The firmware version carried by a report: major from byte 11, minor from
/// bytes 12-13 (big endian), patch from byte 14.
pub open spec fn firmware_spec(rep: Seq<u8>) -> FirmwareStatus {
    FirmwareStatus {
        major: rep[11] as u16,
        minor: (rep[12] as int * 256 + rep[13] as int) as u16,
        patch: rep[14] as u16,
    }
}

/// The ambient noise level carried by a report: decibels from byte 1.
pub open spec fn noise_spec(rep: Seq<u8>) -> NoiseStatus {
    NoiseStatus { db: rep[1] }
}

/// The views of a batch of telemetry reports.
pub open spec fn views_of(reps: Seq<Vec<u8>>) -> Seq<Seq<u8>> {
    reps.map_values(|v: Vec<u8>| v@)
}

/// The decode of one enumeration cycle: firmware and noise from the first
/// report, then one fan status per channel in channel order; an undefined fan
/// encoding on any channel fails the whole cycle.
pub open spec fn status_list_spec(reps: Seq<Seq<u8>>) -> Result<Seq<Status>, DecodeError>
    recommends
        reps.len() == CHANNEL_COUNT,
{
    if fan_mode_bits(reps[0]) == 3 || fan_mode_bits(reps[1]) == 3 || fan_mode_bits(reps[2]) == 3 {
        Err(DecodeError::ProtocolViolation)
    } else {
        Ok(
            seq![
                Status::Firmware(firmware_spec(reps[0])),
                Status::Noise(noise_spec(reps[0])),
                fan_status_spec(reps[0]),
                fan_status_spec(reps[1]),
                fan_status_spec(reps[2]),
            ],
        )
    }
}

/// Decodes the fan channel status of one telemetry report.
pub fn decode_fan_channel(report: &[u8]) -> (r: Result<Status, DecodeError>)
    requires
        report@.len() == STATUS_REPORT_LEN,
    ensures
        r == fan_channel_spec(report@),
{
    let b15 = report[15];
    let bits = b15 & 0x03;
    assert(b15 & 0x03 <= 3) by (bit_vector);
    if bits == 3 {
        Err(DecodeError::ProtocolViolation)
    } else if bits == 0 {
        Ok(Status::UnpoweredFan)
    } else {
        let rpm: u16 = (report[3] as u16) * 256 + (report[4] as u16);
        let mv: u16 = (report[7] as u16) * 100 + (report[8] as u16);
        let ma: u16 = (report[10] as u16) * 10;
        let power = if bits == 1 {
            FanPower::Dc
        } else {
            FanPower::Pwm
        };
        Ok(Status::Fan(FanStatus { power, rpm, mv, ma }))
    }
}

/// Decodes the firmware version from a telemetry report.
pub fn decode_firmware(report: &[u8]) -> (r: FirmwareStatus)
    requires
        report@.len() == STATUS_REPORT_LEN,
    ensures
        r == firmware_spec(report@),
{
    FirmwareStatus {
        major: report[11] as u16,
        minor: (report[12] as u16) * 256 + (report[13] as u16),
        patch: report[14] as u16,
    }
}

/// Decodes the ambient noise level from a telemetry report.
pub fn decode_noise(report: &[u8]) -> (r: NoiseStatus)
    requires
        report@.len() == STATUS_REPORT_LEN,
    ensures
        r == noise_spec(report@),
{
    NoiseStatus { db: report[1] }
}

/// Decodes one enumeration cycle of telemetry reports, one per fan channel.
/// A report carries no trustworthy channel number, so the channel order of
/// the result is the order the reports arrived in.
pub fn decode_status_reports(reports: &Vec<Vec<u8>>) -> (r: Result<Vec<Status>, DecodeError>)
    requires
        reports@.len() == CHANNEL_COUNT,
        forall|i: int|
            0 <= i < CHANNEL_COUNT ==> (#[trigger] reports@[i])@.len() == STATUS_REPORT_LEN,
    ensures
        r is Ok <==> status_list_spec(views_of(reports@)) is Ok,
        r matches Ok(v) ==> Ok::<Seq<Status>, DecodeError>(v@) == status_list_spec(
            views_of(reports@),
        ),
        r matches Err(e) ==> e == DecodeError::ProtocolViolation,
{
    let s0 = match decode_fan_channel(reports[0].as_slice()) {
        Ok(s) => s,
        Err(e) => {
            return Err(e);
        },
    };
    let s1 = match decode_fan_channel(reports[1].as_slice()) {
        Ok(s) => s,
        Err(e) => {
            return Err(e);
        },
    };
    let s2 = match decode_fan_channel(reports[2].as_slice()) {
        Ok(s) => s,
        Err(e) => {
            return Err(e);
        },
    };
    let firmware = decode_firmware(reports[0].as_slice());
    let noise = decode_noise(reports[0].as_slice());
    let mut out: Vec<Status> = Vec::new();
    out.push(Status::Firmware(firmware));
    out.push(Status::Noise(noise));
    out.push(s0);
    out.push(s1);
    out.push(s2);
    proof {
        assert(views_of(reports@)[0] == reports@[0]@);
        assert(views_of(reports@)[1] == reports@[1]@);
        assert(views_of(reports@)[2] == reports@[2]@);
        assert(out@ =~= status_list_spec(views_of(reports@))->Ok_0);
    }
    Ok(out)
}

} // verus!
