use krake::status::{
    decode_fan_channel, decode_firmware, decode_noise, decode_status_reports, DecodeError,
    FanPower, FanStatus, FirmwareStatus, NoiseStatus, Status,
};

fn report(bytes: &[(usize, u8)]) -> Vec<u8> {
    let mut r = vec![0u8; 21];
    for &(i, v) in bytes {
        r[i] = v;
    }
    r
}

#[test]
fn pwm_fan_decode() {
    let r = report(&[(15, 0x02), (3, 0x01), (4, 0x2c), (7, 0x0c), (8, 0x00), (10, 0x05)]);
    assert_eq!(
        decode_fan_channel(&r),
        Ok(Status::Fan(FanStatus { power: FanPower::Pwm, rpm: 300, mv: 1200, ma: 50 }))
    );
}

#[test]
fn dc_fan_decode() {
    let r = report(&[(15, 0x01), (3, 0x02), (4, 0x00), (7, 0x05), (8, 0x32), (10, 0x0a)]);
    assert_eq!(
        decode_fan_channel(&r),
        Ok(Status::Fan(FanStatus { power: FanPower::Dc, rpm: 512, mv: 550, ma: 100 }))
    );
}

#[test]
fn unpowered_fan_ignores_other_bytes() {
    // Low two bits of byte 15 are zero: unpowered, whatever else the report
    // carries.
    let r = report(&[(15, 0xfc), (3, 0xff), (4, 0xff), (7, 0xff), (8, 0xff), (10, 0xff)]);
    assert_eq!(decode_fan_channel(&r), Ok(Status::UnpoweredFan));
    let plain = report(&[]);
    assert_eq!(decode_fan_channel(&plain), Ok(Status::UnpoweredFan));
}

#[test]
fn undefined_fan_mode_is_a_protocol_violation() {
    let r = report(&[(15, 0x03)]);
    assert_eq!(decode_fan_channel(&r), Err(DecodeError::ProtocolViolation));
    // High bits do not rescue an undefined low-bit encoding.
    let r2 = report(&[(15, 0x07)]);
    assert_eq!(decode_fan_channel(&r2), Err(DecodeError::ProtocolViolation));
}

#[test]
fn firmware_decode() {
    let r = report(&[(11, 0x04), (12, 0x01), (13, 0x02), (14, 0x07)]);
    assert_eq!(
        decode_firmware(&r),
        FirmwareStatus { major: 4, minor: 0x0102, patch: 7 }
    );
}

#[test]
fn noise_decode() {
    let r = report(&[(1, 0x23)]);
    assert_eq!(decode_noise(&r), NoiseStatus { db: 0x23 });
}

#[test]
fn status_batch_order() {
    let first = report(&[
        (1, 0x2a),
        (11, 0x01),
        (12, 0x00),
        (13, 0x05),
        (14, 0x02),
        (15, 0x02),
        (3, 0x01),
        (4, 0x2c),
        (7, 0x0c),
        (10, 0x05),
    ]);
    let second = report(&[(15, 0x01), (3, 0x00), (4, 0x64), (7, 0x07), (8, 0x08), (10, 0x02)]);
    let third = report(&[(15, 0x00)]);
    let batch = vec![first, second, third];
    let statuses = decode_status_reports(&batch).unwrap();
    assert_eq!(statuses.len(), 5);
    assert_eq!(
        statuses[0],
        Status::Firmware(FirmwareStatus { major: 1, minor: 5, patch: 2 })
    );
    assert_eq!(statuses[1], Status::Noise(NoiseStatus { db: 42 }));
    assert_eq!(
        statuses[2],
        Status::Fan(FanStatus { power: FanPower::Pwm, rpm: 300, mv: 1200, ma: 50 })
    );
    assert_eq!(
        statuses[3],
        Status::Fan(FanStatus { power: FanPower::Dc, rpm: 100, mv: 708, ma: 20 })
    );
    assert_eq!(statuses[4], Status::UnpoweredFan);
}

#[test]
fn status_batch_with_violating_channel_fails() {
    let good = report(&[(15, 0x02)]);
    let bad = report(&[(15, 0x03)]);
    let batch = vec![good.clone(), bad, good];
    assert_eq!(
        decode_status_reports(&batch),
        Err(DecodeError::ProtocolViolation)
    );
}
