//! The identifier table: the static mapping from (vendor id, product id)
//! pairs to a human-readable device-family label. It is the single point of
//! truth for "is this device relevant".

use vstd::prelude::*;

verus! {

/// The family label, if any, that the identifier table assigns to a
/// (vendor id, product id) pair.
pub open spec fn zmk_label_spec(vid: u16, pid: u16) -> Option<Seq<char>> {
    if vid == 0x1d50 && pid == 0x615e {
        Some("ZMK Project"@)
    } else if vid == 0x2886 && pid == 0x0045 {
        Some("Seeed Studio XIAO nRF52840"@)
    } else {
        None
    }
}

/// Looks a (vendor id, product id) pair up in the identifier table.
pub fn zmk_device_label(vid: u16, pid: u16) -> (r: Option<&'static str>)
    ensures
        match r {
            Some(label) => zmk_label_spec(vid, pid) == Some(label@),
            None => zmk_label_spec(vid, pid) is None,
        },
{
    if vid == 0x1d50 && pid == 0x615e {
        Some("ZMK Project")
    } else if vid == 0x2886 && pid == 0x0045 {
        Some("Seeed Studio XIAO nRF52840")
    } else {
        None
    }
}

/// Whether a (vendor id, product id) pair is present in the identifier table.
pub fn is_known_device(vid: u16, pid: u16) -> (b: bool)
    ensures
        b == (zmk_label_spec(vid, pid) is Some),
{
    zmk_device_label(vid, pid).is_some()
}

} // verus!
