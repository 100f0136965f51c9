//! Device list snapshot and virtual system-default description.
use crate::hal_plugin::{match_hal_driver, opt_text, spec_match_driver};
use crate::output_device::{
    clone_opt_string, find_uid, index_of_uid, spec_excluded_by_name, OutputDevice,
};
use crate::policy::opt_seq;
use crate::text::{contains, owned, seq_contains};
use crate::transport::TransportKind;
use vstd::prelude::*;

verus! {

/// An installed CoreAudio HAL driver bundle.
#[derive(Debug)]
pub struct HalDriverInfo {
    pub name: String,
    pub bundle_id: String,
    pub version: Option<String>,
    /// Development stage stamped into the bundle, when present.
    pub stage: Option<String>,
    pub install_path: String,
}

impl HalDriverInfo {
    /// A field-by-field copy.
    pub fn duplicate(&self) -> (r: HalDriverInfo)
        ensures
            r == *self,
    {
        HalDriverInfo {
            name: self.name.clone(),
            bundle_id: self.bundle_id.clone(),
            version: clone_opt_string(&self.version),
            stage: clone_opt_string(&self.stage),
            install_path: self.install_path.clone(),
        }
    }
}

/// The system default output when it is a virtual router omitted from the device list.
#[derive(Debug)]
pub struct SystemDefaultInfo {
    pub uid: String,
    pub name: String,
    pub transport: TransportKind,
    pub manufacturer: Option<String>,
    pub model_uid: Option<String>,
    pub router: Option<String>,
    pub driver: Option<HalDriverInfo>,
    pub routed_to_uid: Option<String>,
    pub routed_to_label: Option<String>,
}

/// Output devices plus the (possibly virtual) system default.
#[derive(Debug)]
pub struct DeviceList {
    pub devices: Vec<OutputDevice>,
    pub system_default: Option<SystemDefaultInfo>,
}

/// The router a virtual default stands for: eqMac by its UID, name or maker,
/// else the name of the HAL driver it belongs to.
pub open spec fn spec_identify_router(
    uid: Seq<char>,
    name: Seq<char>,
    manufacturer: Option<Seq<char>>,
    driver: Option<HalDriverInfo>,
) -> Option<Seq<char>> {
    if seq_contains(uid, "EQM"@) || seq_contains(name, "(eqMac)"@) || (manufacturer matches Some(m)
        && seq_contains(m, "Bitgapp"@)) {
        Some("eqMac"@)
    } else {
        match driver {
            Some(d) => Some(d.name@),
            None => None,
        }
    }
}

/// Name the router behind a virtual default output.
pub fn identify_router(
    uid: &str,
    name: &str,
    manufacturer: Option<&str>,
    driver: &Option<HalDriverInfo>,
) -> (r: Option<String>)
    ensures
        opt_seq(r) == spec_identify_router(uid@, name@, opt_text(manufacturer), *driver),
{
    let by_maker = match manufacturer {
        Some(m) => contains(m, "Bitgapp"),
        None => false,
    };
    if contains(uid, "EQM") || contains(name, "(eqMac)") || by_maker {
        return Some(owned("eqMac"));
    }
    match driver {
        Some(d) => Some(d.name.clone()),
        None => None,
    }
}

/// Label of the listed device with UID `uid`, when it is listed.
pub open spec fn spec_routed_to_label(devices: Seq<OutputDevice>, uid: Seq<char>) -> Option<Seq<char>> {
    match index_of_uid(devices, uid) {
        Some(k) => Some(devices[k].spec_friendly_label()),
        None => None,
    }
}

/// Label of the device audio is routed to, when it is listed.
pub fn routed_to_label(devices: &[OutputDevice], uid: &str) -> (r: Option<String>)
    ensures
        opt_seq(r) == spec_routed_to_label(devices@, uid@),
{
    proof {
        crate::output_device::lemma_index_of_uid(devices@, uid@);
    }
    match find_uid(devices, uid) {
        Some(k) => Some(devices[k].friendly_label()),
        None => None,
    }
}

/// Whether the default output is virtual: a virtual transport, a known HAL
/// driver or router, an eqMac UID or name, or a name the device list excludes.
pub open spec fn spec_default_is_virtual(
    uid: Seq<char>,
    name: Seq<char>,
    transport: TransportKind,
    driver: Option<HalDriverInfo>,
    router: Option<Seq<char>>,
) -> bool {
    ||| transport == TransportKind::Virtual
    ||| driver is Some
    ||| router is Some
    ||| seq_contains(uid, "EQM"@)
    ||| seq_contains(name, "(eqMac)"@)
    ||| spec_excluded_by_name(name)
}

/// The active output, when it is not the default itself.
pub open spec fn spec_routed_to_uid(active_uid: Option<Seq<char>>, uid: Seq<char>) -> Option<
    Seq<char>,
> {
    match active_uid {
        Some(a) => if a != uid {
            Some(a)
        } else {
            None
        },
        None => None,
    }
}

/// Describe the system default output (`uid`, `name` and the properties read
/// for it) when it is a virtual router left out of `devices`: which driver and
/// router it belongs to, and which listed output it routes to.
pub fn system_default_info(
    devices: &[OutputDevice],
    active_uid: Option<&str>,
    uid: &str,
    name: &str,
    transport: TransportKind,
    manufacturer: Option<&str>,
    model_uid: Option<&str>,
    plugin_bundle_id: Option<&str>,
    drivers: &[HalDriverInfo],
) -> (r: Option<SystemDefaultInfo>)
    ensures
        ({
            let driver = spec_match_driver(
                uid@,
                name@,
                opt_text(manufacturer),
                opt_text(plugin_bundle_id),
                drivers@,
            );
            let router = spec_identify_router(uid@, name@, opt_text(manufacturer), driver);
            let routed = spec_routed_to_uid(opt_text(active_uid), uid@);
            &&& r is None == (index_of_uid(devices@, uid@) is Some || !spec_default_is_virtual(
                uid@,
                name@,
                transport,
                driver,
                router,
            ))
            &&& r matches Some(info) ==> {
                &&& info.uid@ == uid@ && info.name@ == name@ && info.transport == transport
                &&& opt_seq(info.manufacturer) == opt_text(manufacturer)
                &&& opt_seq(info.model_uid) == opt_text(model_uid)
                &&& info.driver == driver
                &&& opt_seq(info.router) == router
                &&& opt_seq(info.routed_to_uid) == routed
                &&& opt_seq(info.routed_to_label) == match routed {
                    Some(u) => spec_routed_to_label(devices@, u),
                    None => None,
                }
            }
        }),
{
    let driver = match_hal_driver(uid, name, manufacturer, plugin_bundle_id, drivers);
    let router = identify_router(uid, name, manufacturer, &driver);
    let is_virtual = match transport {
        TransportKind::Virtual => true,
        _ => false,
    } || driver.is_some() || router.is_some() || contains(uid, "EQM") || contains(name, "(eqMac)")
        || OutputDevice::is_excluded_by_name(name);
    if find_uid(devices, uid).is_some() {
        return None;
    }
    if !is_virtual {
        return None;
    }
    let routed_to_uid: Option<String> = match active_uid {
        Some(a) => if crate::text::str_eq(a, uid) {
            None
        } else {
            Some(owned(a))
        },
        None => None,
    };
    let routed_to_label = match &routed_to_uid {
        Some(u) => routed_to_label(devices, u.as_str()),
        None => None,
    };
    let manufacturer_owned: Option<String> = match manufacturer {
        Some(m) => Some(owned(m)),
        None => None,
    };
    let model_owned: Option<String> = match model_uid {
        Some(m) => Some(owned(m)),
        None => None,
    };
    Some(
        SystemDefaultInfo {
            uid: owned(uid),
            name: owned(name),
            transport,
            manufacturer: manufacturer_owned,
            model_uid: model_owned,
            router,
            driver,
            routed_to_uid,
            routed_to_label,
        },
    )
}

} // verus!
