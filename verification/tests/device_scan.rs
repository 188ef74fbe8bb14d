use krake::device::{
    hex16, info_line, matches_vendor, open_failure_message, PeripheralIdentity, NZXT_PID,
};

fn identity(vendor_id: u16, product_id: u16) -> PeripheralIdentity {
    PeripheralIdentity {
        vendor_id,
        product_id,
        manufacturer: Some("NZXT".to_owned()),
        product: Some("Smart Device".to_owned()),
        serial: Some("SN123".to_owned()),
        path: Some("/dev/hidraw3".to_owned()),
    }
}

#[test]
fn vendor_filter() {
    assert!(matches_vendor(&identity(NZXT_PID, 0x1714)));
    assert!(!matches_vendor(&identity(0x046d, 0x1714)));
    assert!(!matches_vendor(&identity(0x0000, 0x0000)));
}

#[test]
fn scan_with_no_matching_peripheral_adds_no_entry() {
    // A host with zero matching peripherals: the scan filters every record
    // out and reports an empty sequence, not an error.
    let attached = vec![
        identity(0x046d, 0xc332),
        identity(0x1532, 0x0067),
        identity(0x04d9, 0xa052),
    ];
    let mut entries: Vec<Result<u16, String>> = Vec::new();
    for id in &attached {
        if matches_vendor(id) {
            entries.push(Ok(id.product_id));
        }
    }
    assert!(entries.is_empty());
}

#[test]
fn scan_keeps_going_past_one_failed_open() {
    // Three matching peripherals, the second of which fails to open: three
    // entries in enumeration order, exactly one of them an error.
    let attached = vec![
        identity(NZXT_PID, 0x1714),
        identity(NZXT_PID, 0x170e),
        identity(NZXT_PID, 0x1714),
    ];
    let outcomes: Vec<Result<(), String>> =
        vec![Ok(()), Err("Permission denied".to_owned()), Ok(())];
    let mut entries: Vec<Result<u16, String>> = Vec::new();
    for (id, outcome) in attached.iter().zip(outcomes) {
        if matches_vendor(id) {
            match outcome {
                Ok(()) => entries.push(Ok(id.product_id)),
                Err(cause) => entries.push(Err(open_failure_message(id, &cause))),
            }
        }
    }
    assert_eq!(entries.len(), 3);
    assert_eq!(entries[0], Ok(0x1714));
    assert_eq!(
        entries[1],
        Err("Couldn't open device at /dev/hidraw3 (NZXT by Smart Device): Permission denied"
            .to_owned())
    );
    assert_eq!(entries[2], Ok(0x1714));
    assert_eq!(entries.iter().filter(|e| e.is_err()).count(), 1);
}

#[test]
fn open_failure_message_text() {
    let id = identity(NZXT_PID, 0x1714);
    assert_eq!(
        open_failure_message(&id, "busy"),
        "Couldn't open device at /dev/hidraw3 (NZXT by Smart Device): busy"
    );
}

#[test]
fn open_failure_message_fallbacks() {
    let id = PeripheralIdentity {
        vendor_id: NZXT_PID,
        product_id: 0x1714,
        manufacturer: None,
        product: None,
        serial: None,
        path: None,
    };
    assert_eq!(
        open_failure_message(&id, "busy"),
        "Couldn't open device at <unparsable path> (unknown by unknown): busy"
    );
}

#[test]
fn hex_formatting() {
    assert_eq!(hex16(0x1714), "1714");
    assert_eq!(hex16(0x0000), "0000");
    assert_eq!(hex16(0xabcd), "abcd");
    assert_eq!(hex16(0x00ff), "00ff");
}

#[test]
fn info_lines() {
    assert_eq!(
        info_line(0x1714, "SN123", "", ""),
        "NZXT Smart Device [s/n: SN123]"
    );
    assert_eq!(
        info_line(0x170e, "SN9", "", ""),
        "NZXT Kraken X62 [s/n: SN9]"
    );
    assert_eq!(
        info_line(0x2433, "", "Foo Corp", "Widget"),
        "Unknown Foo Corp Device: 2433 (product: Widget)"
    );
}
