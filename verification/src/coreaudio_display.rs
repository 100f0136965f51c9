//! Connected display metadata used to name HDMI/DisplayPort audio outputs.
//!
//! CoreAudio names every display-backed port generically ("HDMI",
//! "DisplayPort"); its UID ends in `{VVVV-PPPP-SSSSSSSS}`, the EDID vendor,
//! product and serial of the monitor behind it. The monitor list itself is read
//! by the caller; here we parse the identity and match it against that list.
use crate::text::{
    contains, last_index_of, owned, parse_hex, parse_hex_str, rsplit_once_char, seq_contains,
    split_once, split_once_str, strip_suffix, strip_suffix_str,
};
use crate::transport::TransportKind;
use vstd::prelude::*;

verus! {

/// EDID identity embedded in a display-backed audio UID.
#[derive(Debug, Clone, Copy, PartialEq, Eq, Structural)]
pub struct AudioDisplayIdentity {
    pub vendor: u16,
    pub product: u32,
    pub serial: u32,
}

/// One online display as CoreGraphics reports it.
#[derive(Debug, Clone)]
pub struct DisplayInfo {
    pub vendor: u32,
    pub product: u32,
    pub serial: u32,
    pub name: Option<String>,
}

/// The identity that `uid` carries in its trailing `{vendor-product-serial}`
/// group (hex fields, exactly three).
pub open spec fn spec_parse_identity(uid: Seq<char>) -> Option<AudioDisplayIdentity> {
    match last_index_of(uid, '{') {
        None => None,
        Some(k) => match strip_suffix(uid.subrange(k + 1, uid.len() as int), "}"@) {
            None => None,
            Some(body) => match split_once(body, "-"@) {
                None => None,
                Some((a, rest)) => match split_once(rest, "-"@) {
                    None => None,
                    Some((b, c)) => if seq_contains(c, "-"@) {
                        None
                    } else {
                        match (
                            parse_hex(a, 0xffff),
                            parse_hex(b, 0xffff_ffff),
                            parse_hex(c, 0xffff_ffff),
                        ) {
                            (Some(v), Some(p), Some(s)) => Some(
                                AudioDisplayIdentity {
                                    vendor: v as u16,
                                    product: p as u32,
                                    serial: s as u32,
                                },
                            ),
                            _ => None,
                        }
                    },
                },
            },
        },
    }
}

/// Parse the EDID identity out of a display-backed audio UID.
pub fn parse_audio_display_identity(uid: &str) -> (r: Option<AudioDisplayIdentity>)
    ensures
        r == spec_parse_identity(uid@),
{
    proof {
        crate::text::lemma_last_index_of_bounds(uid@, '{');
    }
    let (_, tail) = match rsplit_once_char(uid, '{') {
        Some(parts) => parts,
        None => {
            return None;
        },
    };
    let body = match strip_suffix_str(tail, "}") {
        Some(b) => b,
        None => {
            return None;
        },
    };
    let (a, rest) = match split_once_str(body, "-") {
        Some(parts) => parts,
        None => {
            return None;
        },
    };
    let (b, c) = match split_once_str(rest, "-") {
        Some(parts) => parts,
        None => {
            return None;
        },
    };
    if contains(c, "-") {
        return None;
    }
    let vendor = match parse_hex_str(a, 0xffff) {
        Some(v) => v,
        None => {
            return None;
        },
    };
    let product = match parse_hex_str(b, 0xffff_ffff) {
        Some(v) => v,
        None => {
            return None;
        },
    };
    let serial = match parse_hex_str(c, 0xffff_ffff) {
        Some(v) => v,
        None => {
            return None;
        },
    };
    Some(AudioDisplayIdentity { vendor: vendor as u16, product: product as u32, serial: serial as u32 })
}

/// `v` with its two bytes exchanged (`u16::swap_bytes`).
pub open spec fn swapped(v: u16) -> int {
    (v % 256) * 256 + v / 256
}

/// CoreGraphics reports the vendor in the low 16 bits, in either byte order.
pub open spec fn spec_vendor_matches(display_vendor: u32, audio_vendor: u16) -> bool {
    let low = display_vendor % 0x10000;
    low == audio_vendor || low == swapped(audio_vendor)
}

pub fn display_vendor_matches_audio(display_vendor: u32, audio_vendor: u16) -> (r: bool)
    ensures
        r == spec_vendor_matches(display_vendor, audio_vendor),
{
    let low = display_vendor & 0xffff;
    assert(display_vendor & 0xffff == display_vendor % 0x10000) by (bit_vector);
    let a = audio_vendor as u32;
    let swapped_vendor: u32 = (a % 256) * 256 + a / 256;
    low == a || low == swapped_vendor
}

/// Same monitor: vendor (either byte order), product, and serial unless
/// either side reports none (zero).
pub open spec fn spec_display_matches(display: DisplayInfo, identity: AudioDisplayIdentity) -> bool {
    &&& spec_vendor_matches(display.vendor, identity.vendor)
    &&& display.product == identity.product
    &&& (display.serial == 0 || identity.serial == 0 || display.serial == identity.serial)
}

pub fn display_matches_audio_identity(display: &DisplayInfo, identity: AudioDisplayIdentity) -> (r:
    bool)
    ensures
        r == spec_display_matches(*display, identity),
{
    display_vendor_matches_audio(display.vendor, identity.vendor) && display.product
        == identity.product && (display.serial == 0 || identity.serial == 0 || display.serial
        == identity.serial)
}

/// Index of the first display that is the monitor `identity` names.
pub open spec fn first_matching_display(
    displays: Seq<DisplayInfo>,
    identity: AudioDisplayIdentity,
) -> Option<int>
    decreases displays.len(),
{
    if displays.len() == 0 {
        None
    } else {
        match first_matching_display(displays.drop_last(), identity) {
            Some(k) => Some(k),
            None => if spec_display_matches(displays.last(), identity) {
                Some(displays.len() - 1)
            } else {
                None
            },
        }
    }
}

proof fn lemma_first_matching(displays: Seq<DisplayInfo>, identity: AudioDisplayIdentity)
    ensures
        match first_matching_display(displays, identity) {
            Some(k) => 0 <= k < displays.len() && spec_display_matches(displays[k], identity)
                && forall|j: int| 0 <= j < k ==> !spec_display_matches(displays[j], identity),
            None => forall|j: int|
                0 <= j < displays.len() ==> !spec_display_matches(displays[j], identity),
        },
    decreases displays.len(),
{
    if displays.len() > 0 {
        let d = displays.drop_last();
        lemma_first_matching(d, identity);
        assert(forall|j: int| 0 <= j < d.len() ==> d[j] == displays[j]);
    }
}

pub open spec fn opt_name(o: Option<String>) -> Option<Seq<char>> {
    match o {
        Some(s) => Some(s@),
        None => None,
    }
}

/// The product name of the online display behind `uid`: the first display
/// that matches its identity, and that display's name (if it reports one).
pub open spec fn spec_connected_name(uid: Seq<char>, displays: Seq<DisplayInfo>) -> Option<
    Seq<char>,
> {
    match spec_parse_identity(uid) {
        None => None,
        Some(identity) => match first_matching_display(displays, identity) {
            None => None,
            Some(k) => opt_name(displays[k].name),
        },
    }
}

pub fn connected_display_name_for_audio_uid(uid: &str, displays: &[DisplayInfo]) -> (r: Option<
    String,
>)
    ensures
        opt_name(r) == spec_connected_name(uid@, displays@),
{
    let identity = match parse_audio_display_identity(uid) {
        Some(id) => id,
        None => {
            return None;
        },
    };
    proof {
        lemma_first_matching(displays@, identity);
    }
    let mut i: usize = 0;
    while i < displays.len()
        invariant
            i <= displays@.len(),
            spec_parse_identity(uid@) == Some(identity),
            forall|j: int| 0 <= j < i ==> !spec_display_matches(displays@[j], identity),
        decreases displays@.len() - i,
    {
        if display_matches_audio_identity(&displays[i], identity) {
            proof {
                lemma_first_matching(displays@, identity);
                if let Some(k) = first_matching_display(displays@, identity) {
                    assert(k == i);
                }
            }
            let found = match &displays[i].name {
                Some(n) => Some(n.clone()),
                None => None,
            };
            return found;
        }
        i = i + 1;
    }
    None
}

/// Prefer the connected monitor's model name for a live display-backed port;
/// otherwise keep CoreAudio's own name.
pub open spec fn spec_preferred_output_name(
    uid: Seq<char>,
    coreaudio_name: Seq<char>,
    transport: TransportKind,
    is_alive: bool,
    displays: Seq<DisplayInfo>,
) -> Seq<char> {
    if is_alive && transport.spec_is_hdmi_class() && spec_connected_name(uid, displays) is Some {
        spec_connected_name(uid, displays).unwrap()
    } else {
        coreaudio_name
    }
}

/// Name to show for an output, given the displays that are online now.
pub fn preferred_output_name(
    uid: &str,
    coreaudio_name: &str,
    transport: TransportKind,
    is_alive: bool,
    displays: &[DisplayInfo],
) -> (r: String)
    ensures
        r@ == spec_preferred_output_name(uid@, coreaudio_name@, transport, is_alive, displays@),
{
    if is_alive && transport.is_hdmi_class() {
        if let Some(name) = connected_display_name_for_audio_uid(uid, displays) {
            return name;
        }
    }
    owned(coreaudio_name)
}

} // verus!
