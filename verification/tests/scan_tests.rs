//! Tests that run a detection pass against the real native USB stack. The
//! host running the tests may have no matching device attached — or no USB
//! subsystem at all — so they check the shape of whatever comes back.

use zmk_usb_monitor::scan::{
    detect_zmk_devices, get_zmk_devices, hotplug_rescan, scan_raw, RawDeviceInfo,
};

fn raw(vid: u16, pid: u16, product: Option<&str>) -> RawDeviceInfo {
    RawDeviceInfo {
        vid,
        pid,
        manufacturer: None,
        product: product.map(String::from),
        serial: None,
    }
}

#[test]
fn raw_scan_filters_orders_and_numbers() {
    let gathered = vec![
        raw(0x1111, 0x2222, None),
        raw(0x1d50, 0x615e, Some("ZMK Left")),
        raw(0x0000, 0x0000, None),
        raw(0x2886, 0x0045, None),
    ];
    let out = scan_raw(&gathered);
    assert_eq!(out.len(), 2);
    assert_eq!(out[0].name, "ZMK Left");
    assert_eq!(out[0].id, "1d50:615e_0");
    assert_eq!(out[0].vid, "0x1D50");
    assert_eq!(out[1].name, "Seeed Studio XIAO nRF52840");
    assert_eq!(out[1].id, "2886:0045_1");
    assert_eq!(out[1].pid, "0x0045");
}

#[test]
fn raw_scan_keeps_unopenable_matching_device() {
    // A matching device with no readable strings is degraded to the family
    // label, never dropped.
    let out = scan_raw(&vec![raw(0x1d50, 0x615e, None)]);
    assert_eq!(out.len(), 1);
    assert_eq!(out[0].name, "ZMK Project");
    assert_eq!(out[0].side, None);
    assert_eq!(out[0].manufacturer, None);
    assert_eq!(out[0].product, None);
    assert_eq!(out[0].serial, None);
}

#[test]
fn raw_scan_of_nothing_is_empty() {
    assert!(scan_raw(&Vec::new()).is_empty());
}

#[test]
fn detection_pass_yields_well_formed_records() {
    match get_zmk_devices() {
        Ok(devices) => {
            for (index, device) in devices.iter().enumerate() {
                assert_eq!(device.vid.len(), 6);
                assert!(device.vid.starts_with("0x"));
                assert_eq!(device.pid.len(), 6);
                assert!(device.pid.starts_with("0x"));
                assert!(device.id.ends_with(&format!("_{}", index)));
                assert!(!device.name.is_empty());
            }
            // The ids are pairwise distinct within the pass.
            for a in 0..devices.len() {
                for b in 0..devices.len() {
                    if a != b {
                        assert_ne!(devices[a].id, devices[b].id);
                    }
                }
            }
        }
        Err(e) => {
            assert!(matches!(e, zmk_usb_monitor::errors::UsbError::Scan(_)));
        }
    }
}

#[test]
fn detection_error_renders_as_message() {
    match detect_zmk_devices() {
        Ok(_) => {}
        Err(message) => assert!(message.starts_with("device detection error: ")),
    }
}

#[test]
fn rescan_filters_unknown_identifiers() {
    // An event for identifiers outside the table is dropped before any
    // native work happens.
    assert!(hotplug_rescan(0x0000, 0x0000).is_none());
    assert!(hotplug_rescan(0x1d50, 0x0045).is_none());
}
