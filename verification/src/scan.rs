//! The device inspector: one detection pass over the attached USB devices.
//! A pass has two halves: a gathering step that reads the raw values off
//! each device through the trusted boundary, and a pure verified core that
//! filters and enumerates those values into records. The filtering, the
//! graceful degradation of per-device reads, and the record construction
//! are all verified; only the native reads themselves are trusted.

use vstd::prelude::*;

use crate::device::{build_record, opt_view, record_spec, UsbDevice};
use crate::errors::{message_spec, UsbError};
use crate::ids::{is_known_device, zmk_device_label, zmk_label_spec};
use crate::text::lemma_id_seq_distinct;
use crate::usb;

verus! {

/// The raw values a pass reads off one attached device: the identifiers
/// always, and the string descriptors where they could be read — absent
/// for a device that could not be opened, reported no language, failed the
/// individual read, or is not in the identifier table at all.
pub struct RawDeviceInfo {
    pub vid: u16,
    pub pid: u16,
    pub manufacturer: Option<String>,
    pub product: Option<String>,
    pub serial: Option<String>,
}

/// Whether the identifier table holds this device's identifiers.
pub open spec fn raw_matches(info: RawDeviceInfo) -> bool {
    zmk_label_spec(info.vid, info.pid) is Some
}

/// How many of the first `k` gathered devices match the identifier table.
pub open spec fn match_count(raw: Seq<RawDeviceInfo>, k: int) -> nat
    decreases k,
{
    if k <= 0 {
        0
    } else {
        match_count(raw, k - 1) + (if raw_matches(raw[k - 1]) {
            1nat
        } else {
            0nat
        })
    }
}

/// The match count grows by at most one per device.
proof fn lemma_match_count_mono(raw: Seq<RawDeviceInfo>, a: int, b: int)
    requires
        0 <= a <= b,
    ensures
        match_count(raw, a) <= match_count(raw, b),
        match_count(raw, b) - match_count(raw, a) <= b - a,
    decreases b,
{
    if a < b {
        lemma_match_count_mono(raw, a, b - 1);
    }
}

/// What a pass owes for gathered raw values: every device of the
/// identifier table contributes exactly one record, in enumeration order,
/// numbered by its position among the matches — a device that could not be
/// opened is degraded, never dropped — devices outside the table contribute
/// nothing, and nothing else appears.
pub open spec fn scan_of_raw(raw: Seq<RawDeviceInfo>, out: Seq<UsbDevice>) -> bool {
    &&& out.len() == match_count(raw, raw.len() as int)
    &&& forall|k: int|
        0 <= k < raw.len() && raw_matches(#[trigger] raw[k]) ==> record_spec(
            out[match_count(raw, k) as int],
            raw[k].vid,
            raw[k].pid,
            opt_view(raw[k].manufacturer),
            opt_view(raw[k].product),
            opt_view(raw[k].serial),
            match_count(raw, k),
        )
}

/// The record at position `k` of a scan result belongs to some device of
/// the identifier table and is fully formed for its position.
pub open spec fn record_ok_at(d: UsbDevice, k: int) -> bool {
    exists|
        vid: u16,
        pid: u16,
        mfg: Option<Seq<char>>,
        prod: Option<Seq<char>>,
        ser: Option<Seq<char>>,
    |
        #[trigger] record_spec(d, vid, pid, mfg, prod, ser, k as nat)
}

/// A well-formed scan result: only devices of the identifier table appear,
/// each record is fully formed for its position, and the synthesized ids
/// are pairwise distinct within the pass.
pub open spec fn scan_ok(out: Seq<UsbDevice>) -> bool {
    &&& forall|k: int| 0 <= k < out.len() ==> record_ok_at(#[trigger] out[k], k)
    &&& forall|k: int, l: int|
        #![trigger out[k], out[l]]
        0 <= k < out.len() && 0 <= l < out.len() && k != l ==> out[k].id@ != out[l].id@
}

/// Law: within one scan result, the `id` fields are pairwise distinct —
/// each record carries the decimal rendering of its own position, and
/// distinct positions render distinctly, whatever the identifiers are.
pub proof fn lemma_scan_ids_distinct(out: Seq<UsbDevice>)
    requires
        forall|k: int| 0 <= k < out.len() ==> record_ok_at(#[trigger] out[k], k),
    ensures
        forall|k: int, l: int|
            #![trigger out[k], out[l]]
            0 <= k < out.len() && 0 <= l < out.len() && k != l ==> out[k].id@ != out[l].id@,
{
    assert forall|k: int, l: int|
        #![trigger out[k], out[l]]
        0 <= k < out.len() && 0 <= l < out.len() && k != l implies out[k].id@ != out[l].id@ by {
        let (v1, p1, m1, q1, s1) = choose|
            v: u16,
            p: u16,
            m: Option<Seq<char>>,
            q: Option<Seq<char>>,
            s: Option<Seq<char>>,
        | #[trigger] record_spec(out[k], v, p, m, q, s, k as nat);
        let (v2, p2, m2, q2, s2) = choose|
            v: u16,
            p: u16,
            m: Option<Seq<char>>,
            q: Option<Seq<char>>,
            s: Option<Seq<char>>,
        | #[trigger] record_spec(out[l], v, p, m, q, s, l as nat);
        lemma_id_seq_distinct(v1, p1, k as nat, v2, p2, l as nat);
    }
}

/// Clones an optional string, keeping its view.
fn clone_opt(o: &Option<String>) -> (r: Option<String>)
    ensures
        opt_view(r) == opt_view(*o),
{
    match o {
        Some(s) => Some(s.clone()),
        None => None,
    }
}

/// The pure verified core of a pass: filters and enumerates gathered raw
/// device values into records. Its contract is exact — the result is
/// determined, record by record, by the raw values alone.
pub fn scan_raw(raw: &Vec<RawDeviceInfo>) -> (out: Vec<UsbDevice>)
    ensures
        scan_of_raw(raw@, out@),
        scan_ok(out@),
        out@.len() <= raw@.len(),
{
    let mut out: Vec<UsbDevice> = Vec::new();
    let mut i: usize = 0;
    while i < raw.len()
        invariant
            i <= raw@.len(),
            out@.len() == match_count(raw@, i as int),
            forall|k: int|
                0 <= k < i && raw_matches(#[trigger] raw@[k]) ==> record_spec(
                    out@[match_count(raw@, k) as int],
                    raw@[k].vid,
                    raw@[k].pid,
                    opt_view(raw@[k].manufacturer),
                    opt_view(raw@[k].product),
                    opt_view(raw@[k].serial),
                    match_count(raw@, k),
                ),
            forall|k: int| 0 <= k < out@.len() ==> record_ok_at(#[trigger] out@[k], k),
        decreases raw@.len() - i,
    {
        let info = &raw[i];
        match zmk_device_label(info.vid, info.pid) {
            None => {
                proof {
                    assert(!raw_matches(raw@[i as int]));
                    assert(match_count(raw@, i + 1) == match_count(raw@, i as int));
                }
            },
            Some(label) => {
                let index = out.len();
                let manufacturer = clone_opt(&info.manufacturer);
                let product = clone_opt(&info.product);
                let serial = clone_opt(&info.serial);
                let ghost prev = out@;
                let record = build_record(
                    info.vid,
                    info.pid,
                    label,
                    manufacturer,
                    product,
                    serial,
                    index,
                );
                out.push(record);
                proof {
                    assert(raw_matches(raw@[i as int]));
                    assert(match_count(raw@, i + 1) == index + 1);
                    assert(record_spec(
                        record,
                        raw@[i as int].vid,
                        raw@[i as int].pid,
                        opt_view(raw@[i as int].manufacturer),
                        opt_view(raw@[i as int].product),
                        opt_view(raw@[i as int].serial),
                        index as nat,
                    ));
                    assert forall|k: int|
                        0 <= k < i + 1 && raw_matches(#[trigger] raw@[k]) implies record_spec(
                        out@[match_count(raw@, k) as int],
                        raw@[k].vid,
                        raw@[k].pid,
                        opt_view(raw@[k].manufacturer),
                        opt_view(raw@[k].product),
                        opt_view(raw@[k].serial),
                        match_count(raw@, k),
                    ) by {
                        if k < i {
                            lemma_match_count_mono(raw@, k + 1, i as int);
                            assert(match_count(raw@, k) < prev.len());
                            assert(out@[match_count(raw@, k) as int] == prev[match_count(
                                raw@,
                                k,
                            ) as int]);
                        } else {
                            assert(k == i);
                            assert(match_count(raw@, k) == index as nat);
                            assert(out@[match_count(raw@, k) as int] == record);
                        }
                    }
                    assert forall|k: int| 0 <= k < out@.len() implies record_ok_at(
                        #[trigger] out@[k],
                        k,
                    ) by {
                        if k < index as int {
                            assert(out@[k] == prev[k]);
                            assert(record_ok_at(prev[k], k));
                            assert(record_ok_at(out@[k], k));
                        } else {
                            assert(out@[k] == record);
                            assert(record_spec(
                                out@[k],
                                raw@[i as int].vid,
                                raw@[i as int].pid,
                                opt_view(raw@[i as int].manufacturer),
                                opt_view(raw@[i as int].product),
                                opt_view(raw@[i as int].serial),
                                k as nat,
                            ));
                            assert(record_ok_at(out@[k], k));
                        }
                    }
                }
            },
        }
        i += 1;
    }
    proof {
        lemma_scan_ids_distinct(out@);
        lemma_match_count_mono(raw@, 0, raw@.len() as int);
    }
    out
}

/// Reads the raw values off every attached device, in enumeration order:
/// the identifiers always; the string descriptors only for devices of the
/// identifier table that could be opened and report a language, each read
/// degrading to absence on failure. Only a failing basic-descriptor read
/// is fatal for the pass.
fn gather_device_info(devices: &Vec<usb::UsbDeviceRef>) -> (r: Result<Vec<RawDeviceInfo>, UsbError>)
    ensures
        r matches Ok(raw) ==> raw@.len() == devices@.len(),
        devices@.len() == 0 ==> (r matches Ok(raw) && raw@.len() == 0),
        r matches Err(e) ==> e is Scan,
{
    let mut raw: Vec<RawDeviceInfo> = Vec::new();
    let mut i: usize = 0;
    while i < devices.len()
        invariant
            i <= devices@.len(),
            raw@.len() == i,
        decreases devices@.len() - i,
    {
        let device = &devices[i];
        let descriptor = match usb::device_descriptor(device) {
            Ok(d) => d,
            Err(e) => return Err(UsbError::Scan(usb::error_message(&e))),
        };
        let vid = usb::vendor_id(&descriptor);
        let pid = usb::product_id(&descriptor);
        let mut manufacturer: Option<String> = None;
        let mut product: Option<String> = None;
        let mut serial: Option<String> = None;
        if is_known_device(vid, pid) {
            match usb::open_device(device) {
                Err(_) => {},
                Ok(handle) => {
                    match usb::read_languages(&handle) {
                        Err(_) => {},
                        Ok(languages) => {
                            if languages.len() > 0 {
                                let language = &languages[0];
                                manufacturer = match usb::read_manufacturer(
                                    &handle,
                                    language,
                                    &descriptor,
                                ) {
                                    Ok(m) => Some(m),
                                    Err(_) => None,
                                };
                                product = match usb::read_product(&handle, language, &descriptor) {
                                    Ok(p) => Some(p),
                                    Err(_) => None,
                                };
                                serial = match usb::read_serial(&handle, language, &descriptor) {
                                    Ok(s) => Some(s),
                                    Err(_) => None,
                                };
                            }
                        },
                    }
                },
            }
        }
        raw.push(RawDeviceInfo { vid, pid, manufacturer, product, serial });
        i += 1;
    }
    Ok(raw)
}

/// Scans a list of attached devices: gathers the raw values off each, then
/// runs the pure core over them. An empty device list always succeeds with
/// an empty result — failure can only come out of a native descriptor
/// read. A successful result is the filter-and-enumerate of some raw
/// assignment covering every device of the list, so a matching device is
/// never dropped and the result holds at most one record per attached
/// device.
pub fn scan_device_list(devices: &Vec<usb::UsbDeviceRef>) -> (r: Result<Vec<UsbDevice>, UsbError>)
    ensures
        devices@.len() == 0 ==> (r matches Ok(out) && out@.len() == 0),
        r matches Ok(out) ==> scan_ok(out@) && out@.len() <= devices@.len() && (exists|
            raw: Seq<RawDeviceInfo>,
        |
            raw.len() == devices@.len() && #[trigger] scan_of_raw(raw, out@)),
        r matches Err(e) ==> e is Scan,
{
    let raw = match gather_device_info(devices) {
        Ok(gathered) => gathered,
        Err(e) => return Err(e),
    };
    let out = scan_raw(&raw);
    proof {
        assert(raw@.len() == devices@.len() && scan_of_raw(raw@, out@));
    }
    Ok(out)
}

/// One detection pass: opens a fresh native context, enumerates the
/// attached devices, and scans them. A failure to create the context or to
/// enumerate is a fatal scan error carrying the native stack's description
/// of the cause.
pub fn get_zmk_devices() -> (r: Result<Vec<UsbDevice>, UsbError>)
    ensures
        r matches Ok(out) ==> scan_ok(out@) && (exists|raw: Seq<RawDeviceInfo>|
            #[trigger] scan_of_raw(raw, out@)),
        r matches Err(e) ==> e is Scan,
{
    let ctx = match usb::new_context() {
        Ok(c) => c,
        Err(e) => return Err(UsbError::Scan(usb::error_message(&e))),
    };
    let devices = match usb::list_devices(&ctx) {
        Ok(d) => d,
        Err(e) => return Err(UsbError::Scan(usb::error_message(&e))),
    };
    scan_device_list(&devices)
}

/// The command-surface form of a detection pass: the same result, with a
/// fatal scan error rendered as its human-readable message.
pub fn detect_zmk_devices() -> (r: Result<Vec<UsbDevice>, String>)
    ensures
        r matches Ok(out) ==> scan_ok(out@),
        r matches Err(m) ==> exists|e: UsbError| e is Scan && m@ == #[trigger] message_spec(e),
{
    match get_zmk_devices() {
        Ok(devices) => Ok(devices),
        Err(e) => {
            let msg = e.message();
            proof {
                assert(e is Scan && msg@ == message_spec(e));
            }
            Err(msg)
        },
    }
}

/// The hotplug bridge's re-scan: on an arrival or removal event for the
/// given identifiers, does nothing unless the identifier table holds them
/// (the cheap filter), then re-runs a full detection pass; a failing pass
/// is swallowed, a missed update being preferable to ending the polling
/// thread.
pub fn hotplug_rescan(vid: u16, pid: u16) -> (r: Option<Vec<UsbDevice>>)
    ensures
        r matches Some(out) ==> zmk_label_spec(vid, pid) is Some && scan_ok(out@),
        zmk_label_spec(vid, pid) is None ==> r is None,
{
    if !is_known_device(vid, pid) {
        return None;
    }
    match get_zmk_devices() {
        Ok(devices) => Some(devices),
        Err(_) => None,
    }
}

} // verus!
