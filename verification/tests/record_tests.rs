//! Tests of the identifier table, the text utilities, and the record
//! construction.

use zmk_usb_monitor::device::{build_record, infer_side, resolve_name};
use zmk_usb_monitor::errors::UsbError;
use zmk_usb_monitor::ids::{is_known_device, zmk_device_label};
use zmk_usb_monitor::text::{
    format_decimal, format_device_id, format_hex_display, str_contains, str_contains_nocase,
    str_eq,
};

#[test]
fn table_holds_reference_entries() {
    assert_eq!(zmk_device_label(0x1d50, 0x615e), Some("ZMK Project"));
    assert_eq!(
        zmk_device_label(0x2886, 0x0045),
        Some("Seeed Studio XIAO nRF52840")
    );
    assert_eq!(zmk_device_label(0x1d50, 0x0045), None);
    assert_eq!(zmk_device_label(0x0000, 0x0000), None);
    assert!(is_known_device(0x2886, 0x0045));
    assert!(!is_known_device(0xffff, 0xffff));
}

#[test]
fn hex_display_reference_value() {
    assert_eq!(format_hex_display(0x1d50), "0x1D50");
}

#[test]
fn hex_display_extremes() {
    assert_eq!(format_hex_display(0x0000), "0x0000");
    assert_eq!(format_hex_display(0xffff), "0xFFFF");
}

#[test]
fn hex_display_mixed_digits() {
    assert_eq!(format_hex_display(0x615e), "0x615E");
    assert_eq!(format_hex_display(0x00a9), "0x00A9");
}

#[test]
fn decimal_rendering() {
    assert_eq!(format_decimal(0), "0");
    assert_eq!(format_decimal(9), "9");
    assert_eq!(format_decimal(10), "10");
    assert_eq!(format_decimal(907), "907");
}

#[test]
fn device_id_rendering() {
    assert_eq!(format_device_id(0x1d50, 0x615e, 0), "1d50:615e_0");
    assert_eq!(format_device_id(0x2886, 0x0045, 12), "2886:0045_12");
    assert_eq!(format_device_id(0x0000, 0xffff, 3), "0000:ffff_3");
}

#[test]
fn substring_search() {
    assert!(str_contains("ZMK Project", "ZMK"));
    assert!(!str_contains("zmk project", "ZMK"));
    assert!(str_contains("abc", ""));
    assert!(!str_contains("ab", "abc"));
}

#[test]
fn substring_search_ignoring_case() {
    assert!(str_contains_nocase("Corne LEFT", "left"));
    assert!(str_contains_nocase("CORNE", "corne"));
    assert!(!str_contains_nocase("Corne", "left"));
}

#[test]
fn string_equality() {
    assert!(str_eq("Adafruit nRF52840", "Adafruit nRF52840"));
    assert!(!str_eq("Adafruit nRF52840", "Adafruit nrf52840"));
    assert!(!str_eq("ab", "abc"));
}

#[test]
fn side_inference() {
    assert_eq!(infer_side("Corne Left"), Some("left"));
    assert_eq!(infer_side("Corne Right"), Some("right"));
    assert_eq!(infer_side("Corne"), None);
    assert_eq!(infer_side("CORNE LEFT"), Some("left"));
    assert_eq!(infer_side("corne rIgHt"), Some("right"));
}

#[test]
fn side_prefers_left_over_right() {
    assert_eq!(infer_side("Left and Right"), Some("left"));
}

#[test]
fn name_resolution_precedence() {
    // The family label stands when no strings were read.
    assert_eq!(resolve_name("ZMK Project", &None, &None), "ZMK Project");
    // A non-empty product string overrides the family label.
    assert_eq!(
        resolve_name("ZMK Project", &None, &Some(String::from("ZMK Left"))),
        "ZMK Left"
    );
    // An empty product string does not.
    assert_eq!(
        resolve_name("ZMK Project", &Some(String::from("Acme")), &Some(String::new())),
        "ZMK Project"
    );
    // The canonical label applies only when the name equals the sentinel
    // and the manufacturer carries the firmware marker.
    assert_eq!(
        resolve_name(
            "ZMK Project",
            &Some(String::from("ZMK Contributors")),
            &Some(String::from("Adafruit nRF52840")),
        ),
        "ZMK Keyboard"
    );
    assert_eq!(
        resolve_name(
            "ZMK Project",
            &Some(String::from("Acme")),
            &Some(String::from("Adafruit nRF52840")),
        ),
        "Adafruit nRF52840"
    );
}

#[test]
fn end_to_end_record() {
    let record = build_record(
        0x1d50,
        0x615e,
        "ZMK Project",
        None,
        Some(String::from("ZMK Left")),
        None,
        0,
    );
    assert_eq!(record.name, "ZMK Left");
    assert_eq!(record.side, Some(String::from("left")));
    assert_eq!(record.vid, "0x1D50");
    assert_eq!(record.pid, "0x615E");
    assert_eq!(record.id, "1d50:615e_0");
    assert_eq!(record.manufacturer, None);
    assert_eq!(record.product, Some(String::from("ZMK Left")));
    assert_eq!(record.serial, None);
}

#[test]
fn degraded_record_keeps_family_label() {
    let record = build_record(0x2886, 0x0045, "Seeed Studio XIAO nRF52840", None, None, None, 1);
    assert_eq!(record.name, "Seeed Studio XIAO nRF52840");
    assert_eq!(record.side, None);
    assert_eq!(record.vid, "0x2886");
    assert_eq!(record.pid, "0x0045");
    assert_eq!(record.id, "2886:0045_1");
}

#[test]
fn error_messages() {
    assert_eq!(
        UsbError::Scan(String::from("Access denied (insufficient permissions)")).message(),
        "device detection error: Access denied (insufficient permissions)"
    );
    assert_eq!(
        UsbError::HotplugUnsupported.message(),
        "USB hotplug is not supported on this system"
    );
    assert_eq!(
        UsbError::Registration(String::from("boom")).message(),
        "USB hotplug registration error: boom"
    );
    assert_eq!(
        UsbError::ShutdownSignal.message(),
        "failed to send the stop request to the USB monitor"
    );
}
