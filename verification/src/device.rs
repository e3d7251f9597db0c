//! The detected-device record: the output value of a detection pass, and the
//! verified construction of one record from the raw values read off a device.

use vstd::prelude::*;
use vstd::string::*;

use crate::ids::zmk_label_spec;
use crate::text::{
    contains_nocase, contains_sub, format_device_id, format_hex_display, hex_display, id_seq,
    str_contains, str_contains_nocase, str_eq,
};

verus! {

/// A device found by a detection pass. Records are immutable value objects,
/// built fresh on every pass; `id` is unique only within one pass.
#[derive(Clone, Debug)]
pub struct UsbDevice {
    /// Synthesized identifier: vendor and product digits plus the record's
    /// 0-based position within the pass.
    pub id: String,
    /// Best-available human label for the device.
    pub name: String,
    /// Inferred keyboard half, `"left"` or `"right"`, if the product string
    /// names one.
    pub side: Option<String>,
    /// The vendor id, rendered `0x`-prefixed, zero-padded, uppercase.
    pub vid: String,
    /// The product id, rendered `0x`-prefixed, zero-padded, uppercase.
    pub pid: String,
    /// The manufacturer string, if its descriptor read succeeded.
    pub manufacturer: Option<String>,
    /// The product string, if its descriptor read succeeded.
    pub product: Option<String>,
    /// The serial number string, if its descriptor read succeeded.
    pub serial: Option<String>,
}

/// The view of an optional string.
pub open spec fn opt_view(o: Option<String>) -> Option<Seq<char>> {
    match o {
        Some(s) => Some(s@),
        None => None,
    }
}

/// The name a record resolves to: the family label, overridden by a
/// non-empty product string, further overridden to the canonical label when
/// the manufacturer string carries the firmware marker and the name equals
/// the sentinel label.
pub open spec fn resolved_name(
    label: Seq<char>,
    mfg: Option<Seq<char>>,
    prod: Option<Seq<char>>,
) -> Seq<char> {
    let base = match prod {
        Some(p) => if p.len() > 0 {
            p
        } else {
            label
        },
        None => label,
    };
    match mfg {
        Some(m) => if contains_sub(m, "ZMK"@) && base == "Adafruit nRF52840"@ {
            "ZMK Keyboard"@
        } else {
            base
        },
        None => base,
    }
}

/// The side a record infers from the product string: `"left"` if the product
/// string contains it ignoring ASCII case, else `"right"` likewise, else none.
pub open spec fn side_spec(prod: Option<Seq<char>>) -> Option<Seq<char>> {
    match prod {
        Some(p) => if contains_nocase(p, "left"@) {
            Some("left"@)
        } else if contains_nocase(p, "right"@) {
            Some("right"@)
        } else {
            None
        },
        None => None,
    }
}

/// What a record holds for a device with the given identifiers and string
/// descriptors, standing at position `idx` of the pass's result list.
pub open spec fn record_spec(
    d: UsbDevice,
    vid: u16,
    pid: u16,
    mfg: Option<Seq<char>>,
    prod: Option<Seq<char>>,
    ser: Option<Seq<char>>,
    idx: nat,
) -> bool {
    &&& zmk_label_spec(vid, pid) is Some
    &&& d.id@ == id_seq(vid, pid, idx)
    &&& d.name@ == resolved_name(zmk_label_spec(vid, pid).unwrap(), mfg, prod)
    &&& opt_view(d.side) == side_spec(prod)
    &&& d.vid@ == hex_display(vid)
    &&& d.pid@ == hex_display(pid)
    &&& opt_view(d.manufacturer) == mfg
    &&& opt_view(d.product) == prod
    &&& opt_view(d.serial) == ser
}

/// Law: the side inference is insensitive to ASCII case — two product
/// strings equal up to case infer the same side.
pub proof fn lemma_side_insensitive(p1: Seq<char>, p2: Seq<char>)
    requires
        p1.len() == p2.len(),
        forall|i: int| 0 <= i < p1.len() ==> crate::text::chars_ieq(p1[i], p2[i]),
    ensures
        side_spec(Some(p1)) == side_spec(Some(p2)),
{
    crate::text::lemma_contains_nocase_insensitive(p1, p2, "left"@);
    crate::text::lemma_contains_nocase_insensitive(p1, p2, "right"@);
}

/// Infers the keyboard half from a product string: `"left"` wins over
/// `"right"`, both matched as substrings ignoring ASCII case.
pub fn infer_side(product: &str) -> (r: Option<&'static str>)
    ensures
        match r {
            Some(s) => Some(s@) == side_spec(Some(product@)),
            None => side_spec(Some(product@)) is None,
        },
{
    if str_contains_nocase(product, "left") {
        Some("left")
    } else if str_contains_nocase(product, "right") {
        Some("right")
    } else {
        None
    }
}

/// Resolves the record's name from the family label and the optional
/// manufacturer and product strings.
pub fn resolve_name(label: &str, manufacturer: &Option<String>, product: &Option<String>) -> (r:
    String)
    ensures
        r@ == resolved_name(label@, opt_view(*manufacturer), opt_view(*product)),
{
    let base: String = match product {
        Some(p) => if !p.as_str().is_empty() {
            p.clone()
        } else {
            String::from_str(label)
        },
        None => String::from_str(label),
    };
    match manufacturer {
        Some(m) => {
            if str_contains(m.as_str(), "ZMK") && str_eq(base.as_str(), "Adafruit nRF52840") {
                String::from_str("ZMK Keyboard")
            } else {
                base
            }
        },
        None => base,
    }
}

/// Builds the record for a matching device from the raw values read off it:
/// the identifiers, the family label the identifier table assigns to them,
/// the string descriptors that could be read, and the record's position in
/// the result list.
pub fn build_record(
    vid: u16,
    pid: u16,
    label: &str,
    manufacturer: Option<String>,
    product: Option<String>,
    serial: Option<String>,
    index: usize,
) -> (d: UsbDevice)
    requires
        zmk_label_spec(vid, pid) == Some(label@),
    ensures
        record_spec(
            d,
            vid,
            pid,
            opt_view(manufacturer),
            opt_view(product),
            opt_view(serial),
            index as nat,
        ),
{
    let name = resolve_name(label, &manufacturer, &product);
    let side: Option<String> = match &product {
        Some(p) => match infer_side(p.as_str()) {
            Some(s) => Some(String::from_str(s)),
            None => None,
        },
        None => None,
    };
    UsbDevice {
        id: format_device_id(vid, pid, index),
        name,
        side,
        vid: format_hex_display(vid),
        pid: format_hex_display(pid),
        manufacturer,
        product,
        serial,
    }
}

} // verus!
