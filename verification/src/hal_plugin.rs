//! Installed CoreAudio HAL audio server plug-ins (`.driver` bundles).
//!
//! Scanning the plug-in folders and running `plutil` is the caller's work; this
//! module reads the JSON that `plutil -convert json` makes of a bundle's
//! Info.plist, builds a driver description from its keys, and matches virtual
//! devices against the installed drivers.
use crate::output_device::{first_where, lemma_first_where, lemma_first_where_at};
use crate::json::{json_get, parse_json, spec_get, spec_parse_json, JsonValue};
use crate::system_default::HalDriverInfo;
use crate::text::{contains, eq_ignore_ascii_case, eq_ignore_case, lower, seq_contains, str_eq, to_lower};
use vstd::prelude::*;

verus! {

/// Parsed `codesign -dv` authority line for a driver bundle.
#[derive(Debug, Clone, PartialEq, Eq)]
pub enum DriverBundleSignature {
    Unsigned,
    AdHoc,
    Authority(String),
}

/// One Info.plist key as read from the bundle.
#[derive(Debug, Clone)]
pub enum PlistValue {
    Missing,
    Text(String),
    /// Present, but not a string.
    Other,
}

impl PlistValue {
    pub open spec fn text(self) -> Option<Seq<char>> {
        match self {
            PlistValue::Text(s) => Some(s@),
            _ => None,
        }
    }
}

/// `primary`, or `secondary` when `primary` is missing altogether.
pub open spec fn first_present(primary: PlistValue, secondary: PlistValue) -> PlistValue {
    match primary {
        PlistValue::Missing => secondary,
        _ => primary,
    }
}

/// The Info.plist keys a driver description is built from.
#[derive(Debug, Clone)]
pub struct DriverPlist {
    pub bundle_identifier: PlistValue,
    pub bundle_name: PlistValue,
    pub bundle_display_name: PlistValue,
    pub short_version: PlistValue,
    pub bundle_version: PlistValue,
}

/// What a bundle's keys describe: nothing without a string bundle id; the
/// name from `CFBundleName` (or `CFBundleDisplayName` when that key is absent),
/// falling back to the bundle id; the version likewise from
/// `CFBundleShortVersionString`, then `CFBundleVersion`.
pub open spec fn spec_driver_info(plist: DriverPlist, install_path: Seq<char>) -> Option<
    (Seq<char>, Seq<char>, Option<Seq<char>>, Seq<char>),
> {
    match plist.bundle_identifier.text() {
        None => None,
        Some(id) => {
            let name = match first_present(plist.bundle_name, plist.bundle_display_name).text() {
                Some(n) => n,
                None => id,
            };
            let version = first_present(plist.short_version, plist.bundle_version).text();
            Some((name, id, version, install_path))
        },
    }
}

pub open spec fn info_view(d: HalDriverInfo) -> (Seq<char>, Seq<char>, Option<Seq<char>>, Seq<char>) {
    (
        d.name@,
        d.bundle_id@,
        match d.version {
            Some(v) => Some(v@),
            None => None,
        },
        d.install_path@,
    )
}

fn present_text(primary: &PlistValue, secondary: &PlistValue) -> (r: Option<String>)
    ensures
        match r {
            Some(s) => first_present(*primary, *secondary).text() == Some(s@),
            None => first_present(*primary, *secondary).text() is None,
        },
{
    let chosen = match primary {
        PlistValue::Missing => secondary,
        _ => primary,
    };
    match chosen {
        PlistValue::Text(s) => Some(s.clone()),
        _ => None,
    }
}

/// An Info.plist key read from the JSON form of the plist: missing, a string,
/// or present but not a string.
pub open spec fn plist_value_from(p: PlistValue, v: Option<JsonValue>) -> bool {
    match v {
        None => p is Missing,
        Some(JsonValue::Text(s)) => p == PlistValue::Text(s),
        Some(_) => p is Other,
    }
}

fn plist_value(doc: &JsonValue, key: &str) -> (r: PlistValue)
    ensures
        plist_value_from(r, spec_get(*doc, key@)),
{
    match json_get(doc, key) {
        None => PlistValue::Missing,
        Some(JsonValue::Text(s)) => PlistValue::Text(s.clone()),
        Some(_) => PlistValue::Other,
    }
}

/// The bundle keys of an Info.plist in JSON form (`plutil -convert json`).
pub fn driver_plist_from_json(doc: &JsonValue) -> (r: DriverPlist)
    ensures
        plist_value_from(r.bundle_identifier, spec_get(*doc, "CFBundleIdentifier"@)),
        plist_value_from(r.bundle_name, spec_get(*doc, "CFBundleName"@)),
        plist_value_from(r.bundle_display_name, spec_get(*doc, "CFBundleDisplayName"@)),
        plist_value_from(r.short_version, spec_get(*doc, "CFBundleShortVersionString"@)),
        plist_value_from(r.bundle_version, spec_get(*doc, "CFBundleVersion"@)),
{
    DriverPlist {
        bundle_identifier: plist_value(doc, "CFBundleIdentifier"),
        bundle_name: plist_value(doc, "CFBundleName"),
        bundle_display_name: plist_value(doc, "CFBundleDisplayName"),
        short_version: plist_value(doc, "CFBundleShortVersionString"),
        bundle_version: plist_value(doc, "CFBundleVersion"),
    }
}

/// Describe the driver bundle at `install_path` from the JSON form of its
/// Info.plist (`plist_json`, parsed with serde_json): nothing when that is not
/// JSON or has no string bundle id.
pub fn parse_driver_bundle(plist_json: &[u8], install_path: &str) -> (r: Option<HalDriverInfo>)
    ensures
        match spec_parse_json(plist_json@) {
            None => r is None,
            Some(doc) => exists|plist: DriverPlist|
                #![trigger spec_driver_info(plist, install_path@)]
                {
                    &&& plist_value_from(plist.bundle_identifier, spec_get(doc, "CFBundleIdentifier"@))
                    &&& plist_value_from(plist.bundle_name, spec_get(doc, "CFBundleName"@))
                    &&& plist_value_from(plist.bundle_display_name, spec_get(doc, "CFBundleDisplayName"@))
                    &&& plist_value_from(plist.short_version, spec_get(doc, "CFBundleShortVersionString"@))
                    &&& plist_value_from(plist.bundle_version, spec_get(doc, "CFBundleVersion"@))
                    &&& match r {
                        Some(d) => spec_driver_info(plist, install_path@) == Some(info_view(d))
                            && d.stage is None,
                        None => spec_driver_info(plist, install_path@) is None,
                    }
                },
        },
{
    match parse_json(plist_json) {
        None => None,
        Some(doc) => {
            let plist = driver_plist_from_json(&doc);
            let r = driver_bundle_info(&plist, install_path);
            assert(spec_driver_info(plist, install_path@) == spec_driver_info(plist, install_path@));
            r
        },
    }
}

/// Describe a driver bundle from its Info.plist keys.
pub fn driver_bundle_info(plist: &DriverPlist, install_path: &str) -> (r: Option<HalDriverInfo>)
    ensures
        match r {
            Some(d) => spec_driver_info(*plist, install_path@) == Some(info_view(d)) && d.stage
                is None,
            None => spec_driver_info(*plist, install_path@) is None,
        },
{
    let bundle_id = match &plist.bundle_identifier {
        PlistValue::Text(s) => s.clone(),
        _ => {
            return None;
        },
    };
    let name = match present_text(&plist.bundle_name, &plist.bundle_display_name) {
        Some(n) => n,
        None => bundle_id.clone(),
    };
    let version = present_text(&plist.short_version, &plist.bundle_version);
    Some(
        HalDriverInfo {
            name,
            bundle_id,
            version,
            stage: None,
            install_path: crate::text::owned(install_path),
        },
    )
}

pub open spec fn bundle_pred(bundle_id: Seq<char>) -> spec_fn(HalDriverInfo) -> bool {
    |d: HalDriverInfo| d.bundle_id@ == bundle_id
}

pub open spec fn eqmac_pred() -> spec_fn(HalDriverInfo) -> bool {
    |d: HalDriverInfo|
        d.bundle_id@ == "com.bitgapp.eqmac.driver"@ || eq_ignore_case(d.name@, "eqMac"@)
}

pub open spec fn blackhole_pred() -> spec_fn(HalDriverInfo) -> bool {
    |d: HalDriverInfo|
        seq_contains(lower(d.bundle_id@), "blackhole"@) || seq_contains(lower(d.name@), "blackhole"@)
}

pub open spec fn zoom_pred() -> spec_fn(HalDriverInfo) -> bool {
    |d: HalDriverInfo| seq_contains(d.bundle_id@, "zoom"@) || seq_contains(lower(d.name@), "zoom"@)
}

/// The first driver satisfying `p`.
pub open spec fn first_driver(drivers: Seq<HalDriverInfo>, p: spec_fn(HalDriverInfo) -> bool) -> Option<
    HalDriverInfo,
> {
    match first_where(drivers, p) {
        Some(k) => Some(drivers[k]),
        None => None,
    }
}

pub open spec fn spec_eqmac_device(uid: Seq<char>, name: Seq<char>, manufacturer: Option<Seq<char>>) -> bool {
    seq_contains(uid, "EQM"@) || seq_contains(name, "(eqMac)"@) || (manufacturer matches Some(m)
        && seq_contains(m, "Bitgapp"@))
}

pub open spec fn spec_blackhole_device(uid: Seq<char>, name: Seq<char>) -> bool {
    seq_contains(lower(uid), "blackhole"@) || seq_contains(lower(name), "blackhole"@)
}

pub open spec fn spec_zoom_device(uid: Seq<char>, name: Seq<char>) -> bool {
    seq_contains(uid, "zoom.us"@) || seq_contains(name, "ZoomAudio"@)
}

/// The driver behind a virtual device: the one with the device's plug-in
/// bundle id when installed, else by the router family its UID, name or
/// manufacturer names (eqMac, BlackHole, Zoom).
pub open spec fn spec_match_driver(
    uid: Seq<char>,
    name: Seq<char>,
    manufacturer: Option<Seq<char>>,
    plugin_bundle_id: Option<Seq<char>>,
    drivers: Seq<HalDriverInfo>,
) -> Option<HalDriverInfo> {
    let by_bundle = match plugin_bundle_id {
        Some(b) => first_driver(drivers, bundle_pred(b)),
        None => None,
    };
    if by_bundle is Some {
        by_bundle
    } else if spec_eqmac_device(uid, name, manufacturer) {
        first_driver(drivers, eqmac_pred())
    } else if spec_blackhole_device(uid, name) {
        first_driver(drivers, blackhole_pred())
    } else if spec_zoom_device(uid, name) {
        first_driver(drivers, zoom_pred())
    } else {
        None
    }
}

/// Which family of drivers a search is for.
enum DriverFamily {
    Bundle,
    EqMac,
    BlackHole,
    Zoom,
}

spec fn family_pred(family: DriverFamily, bundle_id: Seq<char>) -> spec_fn(HalDriverInfo) -> bool {
    match family {
        DriverFamily::Bundle => bundle_pred(bundle_id),
        DriverFamily::EqMac => eqmac_pred(),
        DriverFamily::BlackHole => blackhole_pred(),
        DriverFamily::Zoom => zoom_pred(),
    }
}

fn driver_in_family(d: &HalDriverInfo, family: &DriverFamily, bundle_id: &str) -> (r: bool)
    ensures
        r == (family_pred(*family, bundle_id@))(*d),
{
    match family {
        DriverFamily::Bundle => str_eq(d.bundle_id.as_str(), bundle_id),
        DriverFamily::EqMac => str_eq(d.bundle_id.as_str(), "com.bitgapp.eqmac.driver")
            || eq_ignore_ascii_case(d.name.as_str(), "eqMac"),
        DriverFamily::BlackHole => {
            let id = to_lower(d.bundle_id.as_str());
            let nm = to_lower(d.name.as_str());
            contains(id.as_str(), "blackhole") || contains(nm.as_str(), "blackhole")
        },
        DriverFamily::Zoom => {
            let nm = to_lower(d.name.as_str());
            contains(d.bundle_id.as_str(), "zoom") || contains(nm.as_str(), "zoom")
        },
    }
}

fn find_driver(drivers: &[HalDriverInfo], family: DriverFamily, bundle_id: &str) -> (r: Option<
    HalDriverInfo,
>)
    ensures
        r == first_driver(drivers@, family_pred(family, bundle_id@)),
{
    let ghost p = family_pred(family, bundle_id@);
    let mut i: usize = 0;
    while i < drivers.len()
        invariant
            i <= drivers@.len(),
            p == family_pred(family, bundle_id@),
            forall|j: int| 0 <= j < i ==> !p(drivers@[j]),
        decreases drivers@.len() - i,
    {
        if driver_in_family(&drivers[i], &family, bundle_id) {
            proof {
                lemma_first_where_at(drivers@, p, i as int);
            }
            return Some(drivers[i].duplicate());
        }
        i = i + 1;
    }
    proof {
        lemma_first_where(drivers@, p);
    }
    None
}

pub open spec fn opt_text(o: Option<&str>) -> Option<Seq<char>> {
    match o {
        Some(s) => Some(s@),
        None => None,
    }
}

/// Match a virtual device to an installed HAL driver bundle.
pub fn match_hal_driver(
    uid: &str,
    name: &str,
    manufacturer: Option<&str>,
    plugin_bundle_id: Option<&str>,
    drivers: &[HalDriverInfo],
) -> (r: Option<HalDriverInfo>)
    ensures
        r == spec_match_driver(uid@, name@, opt_text(manufacturer), opt_text(plugin_bundle_id), drivers@),
{
    if let Some(bundle_id) = plugin_bundle_id {
        let found = find_driver(drivers, DriverFamily::Bundle, bundle_id);
        if found.is_some() {
            return found;
        }
    }
    let by_maker = match manufacturer {
        Some(m) => contains(m, "Bitgapp"),
        None => false,
    };
    if contains(uid, "EQM") || contains(name, "(eqMac)") || by_maker {
        return find_driver(drivers, DriverFamily::EqMac, "");
    }
    let uid_lower = to_lower(uid);
    let name_lower = to_lower(name);
    if contains(uid_lower.as_str(), "blackhole") || contains(name_lower.as_str(), "blackhole") {
        return find_driver(drivers, DriverFamily::BlackHole, "");
    }
    if contains(uid, "zoom.us") || contains(name, "ZoomAudio") {
        return find_driver(drivers, DriverFamily::Zoom, "");
    }
    None
}

} // verus!
