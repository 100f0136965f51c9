//! Online monitor names, matched to HDMI/DP audio device UIDs.
//!
//! The monitor list comes from `system_profiler SPDisplaysDataType -json`: the
//! caller runs the tool, and this module reads its JSON output into
//! [`ProfilerDisplay`] records, keeps the complete entries, normalises their hex
//! fields, and matches an Apple HDA engine UID against them.
use crate::text::{
    last_index_of, lower, owned, split_once, split_once_str, str_eq, strip_prefix,
    strip_prefix_str, strip_suffix, strip_suffix_str, to_lower, trim, trim_str,
};
use crate::json::{json_get, json_get_text, parse_json, spec_get, spec_get_text, spec_parse_json, JsonValue};
use vstd::prelude::*;

verus! {

/// One display entry as `system_profiler` lists it under a GPU; a field is
/// `None` when the key is missing or not a string.
#[derive(Debug, Clone)]
pub struct ProfilerDisplay {
    pub name: Option<String>,
    pub vendor_id: Option<String>,
    pub product_id: Option<String>,
    pub serial_number: Option<String>,
}

/// A monitor with normalised (trimmed, lower-case) hex identifiers.
#[derive(Debug, Clone)]
pub struct MonitorEntry {
    pub name: String,
    pub vendor_id: String,
    pub product_id: String,
    pub serial_number: Option<String>,
}

/// A monitor entry as plain text.
pub struct MonitorView {
    pub name: Seq<char>,
    pub vendor_id: Seq<char>,
    pub product_id: Seq<char>,
    pub serial_number: Option<Seq<char>>,
}

pub open spec fn opt_view(o: Option<String>) -> Option<Seq<char>> {
    match o {
        Some(s) => Some(s@),
        None => None,
    }
}

impl MonitorEntry {
    pub open spec fn view_of(self) -> MonitorView {
        MonitorView {
            name: self.name@,
            vendor_id: self.vendor_id@,
            product_id: self.product_id@,
            serial_number: opt_view(self.serial_number),
        }
    }
}

pub open spec fn spec_normalize_hex(s: Seq<char>) -> Seq<char> {
    lower(trim(s))
}

/// Trimmed, ASCII-lower-cased hex text.
pub fn normalize_hex(s: &str) -> (r: String)
    ensures
        r@ == spec_normalize_hex(s@),
{
    to_lower(trim_str(s))
}

/// The monitor a profiler entry describes, when it has a name, a vendor and a
/// product.
pub open spec fn spec_entry(d: ProfilerDisplay) -> Option<MonitorView> {
    match (d.name, d.vendor_id, d.product_id) {
        (Some(n), Some(v), Some(p)) => Some(
            MonitorView {
                name: n@,
                vendor_id: spec_normalize_hex(v@),
                product_id: spec_normalize_hex(p@),
                serial_number: match d.serial_number {
                    Some(s) => Some(spec_normalize_hex(s@)),
                    None => None,
                },
            },
        ),
        _ => None,
    }
}

/// The complete entries of one GPU, in order.
pub open spec fn spec_gpu_monitors(ds: Seq<ProfilerDisplay>) -> Seq<MonitorView>
    decreases ds.len(),
{
    if ds.len() == 0 {
        seq![]
    } else {
        match spec_entry(ds.last()) {
            Some(m) => spec_gpu_monitors(ds.drop_last()).push(m),
            None => spec_gpu_monitors(ds.drop_last()),
        }
    }
}

/// The complete entries of all GPUs, GPU by GPU.
pub open spec fn spec_monitors(gpus: Seq<Vec<ProfilerDisplay>>) -> Seq<MonitorView>
    decreases gpus.len(),
{
    if gpus.len() == 0 {
        seq![]
    } else {
        spec_monitors(gpus.drop_last()) + spec_gpu_monitors(gpus.last()@)
    }
}

pub open spec fn views(ms: Seq<MonitorEntry>) -> Seq<MonitorView> {
    ms.map_values(|m: MonitorEntry| m.view_of())
}

fn entry_from(d: &ProfilerDisplay) -> (r: Option<MonitorEntry>)
    ensures
        match r {
            Some(m) => spec_entry(*d) == Some(m.view_of()),
            None => spec_entry(*d) is None,
        },
{
    match (&d.name, &d.vendor_id, &d.product_id) {
        (Some(n), Some(v), Some(p)) => {
            let serial = match &d.serial_number {
                Some(s) => Some(normalize_hex(s.as_str())),
                None => None,
            };
            Some(
                MonitorEntry {
                    name: n.clone(),
                    vendor_id: normalize_hex(v.as_str()),
                    product_id: normalize_hex(p.as_str()),
                    serial_number: serial,
                },
            )
        },
        _ => None,
    }
}

/// Keep the complete display entries of every GPU, normalising their ids.
pub fn monitors_from_profiler(gpus: &[Vec<ProfilerDisplay>]) -> (r: Vec<MonitorEntry>)
    ensures
        views(r@) == spec_monitors(gpus@),
{
    let mut out: Vec<MonitorEntry> = Vec::new();
    let mut g: usize = 0;
    while g < gpus.len()
        invariant
            g <= gpus@.len(),
            views(out@) == spec_monitors(gpus@.subrange(0, g as int)),
        decreases gpus@.len() - g,
    {
        let ds = &gpus[g];
        let ghost before = out@;
        let mut i: usize = 0;
        while i < ds.len()
            invariant
                i <= ds@.len(),
                views(out@) == views(before) + spec_gpu_monitors(ds@.subrange(0, i as int)),
            decreases ds@.len() - i,
        {
            let ghost prev = out@;
            assert(ds@.subrange(0, i + 1).drop_last() =~= ds@.subrange(0, i as int));
            match entry_from(&ds[i]) {
                Some(m) => {
                    out.push(m);
                    assert(views(out@) =~= views(prev).push(m.view_of()));
                },
                None => {},
            }
            i = i + 1;
        }
        assert(ds@.subrange(0, ds@.len() as int) =~= ds@);
        assert(gpus@.subrange(0, g + 1).drop_last() =~= gpus@.subrange(0, g as int));
        g = g + 1;
    }
    assert(gpus@.subrange(0, gpus@.len() as int) =~= gpus@);
    out
}

/// The elements of an array value; nothing for anything else or a missing value.
pub open spec fn spec_json_array(v: Option<JsonValue>) -> Seq<JsonValue> {
    match v {
        Some(JsonValue::Array(a)) => a@,
        _ => seq![],
    }
}

/// The GPUs listed under `SPDisplaysDataType` in a `system_profiler` document.
pub open spec fn profiler_gpus(doc: JsonValue) -> Seq<JsonValue> {
    spec_json_array(spec_get(doc, "SPDisplaysDataType"@))
}

/// The displays listed under `spdisplays_ndrvs` for one GPU.
pub open spec fn profiler_gpu_displays(gpu: JsonValue) -> Seq<JsonValue> {
    spec_json_array(spec_get(gpu, "spdisplays_ndrvs"@))
}

/// A display record read from its JSON entry: each field is the entry's text
/// under the matching key, or `None`.
pub open spec fn display_from_json(d: ProfilerDisplay, j: JsonValue) -> bool {
    &&& opt_view(d.name) == spec_get_text(j, "_name"@)
    &&& opt_view(d.vendor_id) == spec_get_text(j, "_spdisplays_display-vendor-id"@)
    &&& opt_view(d.product_id) == spec_get_text(j, "_spdisplays_display-product-id"@)
    &&& opt_view(d.serial_number) == spec_get_text(j, "_spdisplays_display-serial-number"@)
}

/// The display records of every GPU of a `system_profiler` document, GPU by GPU.
pub open spec fn profiler_from_json(gpus: Seq<Vec<ProfilerDisplay>>, doc: JsonValue) -> bool {
    &&& gpus.len() == profiler_gpus(doc).len()
    &&& forall|g: int|
        0 <= g < gpus.len() ==> #[trigger] gpus[g]@.len() == profiler_gpu_displays(
            profiler_gpus(doc)[g],
        ).len() && forall|i: int|
            0 <= i < gpus[g]@.len() ==> display_from_json(
                #[trigger] gpus[g]@[i],
                profiler_gpu_displays(profiler_gpus(doc)[g])[i],
            )
}

fn json_array<'a>(v: Option<&'a JsonValue>) -> (r: Option<&'a Vec<JsonValue>>)
    ensures
        match r {
            Some(a) => a@ == spec_json_array(
                match v {
                    Some(x) => Some(*x),
                    None => None,
                },
            ),
            None => spec_json_array(
                match v {
                    Some(x) => Some(*x),
                    None => None,
                },
            ) == Seq::<JsonValue>::empty(),
        },
{
    match v {
        Some(JsonValue::Array(a)) => Some(a),
        _ => None,
    }
}

fn display_record(j: &JsonValue) -> (r: ProfilerDisplay)
    ensures
        display_from_json(r, *j),
{
    ProfilerDisplay {
        name: json_get_text(j, "_name"),
        vendor_id: json_get_text(j, "_spdisplays_display-vendor-id"),
        product_id: json_get_text(j, "_spdisplays_display-product-id"),
        serial_number: json_get_text(j, "_spdisplays_display-serial-number"),
    }
}

/// The display records of a `system_profiler SPDisplaysDataType -json`
/// document: for each GPU under `SPDisplaysDataType`, one record per entry of
/// its `spdisplays_ndrvs`, with the `_name` and `_spdisplays_display-*` texts.
pub fn profiler_displays(doc: &JsonValue) -> (r: Vec<Vec<ProfilerDisplay>>)
    ensures
        profiler_from_json(r@, *doc),
{
    let mut out: Vec<Vec<ProfilerDisplay>> = Vec::new();
    let gpus = match json_array(json_get(doc, "SPDisplaysDataType")) {
        Some(a) => a,
        None => {
            return out;
        },
    };
    let mut g: usize = 0;
    while g < gpus.len()
        invariant
            g <= gpus@.len(),
            gpus@ == profiler_gpus(*doc),
            out@.len() == g,
            forall|k: int|
                0 <= k < g ==> #[trigger] out@[k]@.len() == profiler_gpu_displays(gpus@[k]).len()
                    && forall|i: int|
                    0 <= i < out@[k]@.len() ==> display_from_json(
                        #[trigger] out@[k]@[i],
                        profiler_gpu_displays(gpus@[k])[i],
                    ),
        decreases gpus@.len() - g,
    {
        let mut records: Vec<ProfilerDisplay> = Vec::new();
        match json_array(json_get(&gpus[g], "spdisplays_ndrvs")) {
            Some(ds) => {
                let mut i: usize = 0;
                while i < ds.len()
                    invariant
                        i <= ds@.len(),
                        ds@ == profiler_gpu_displays(gpus@[g as int]),
                        records@.len() == i,
                        forall|k: int|
                            0 <= k < i ==> display_from_json(#[trigger] records@[k], ds@[k]),
                    decreases ds@.len() - i,
                {
                    records.push(display_record(&ds[i]));
                    i = i + 1;
                }
            },
            None => {},
        }
        out.push(records);
        g = g + 1;
    }
    out
}

/// The complete monitors a `system_profiler SPDisplaysDataType -json` output
/// lists (`bytes`, parsed with serde_json); none when it is not JSON.
pub fn parse_system_profiler_json(bytes: &[u8]) -> (r: Vec<MonitorEntry>)
    ensures
        match spec_parse_json(bytes@) {
            Some(doc) => exists|gpus: Seq<Vec<ProfilerDisplay>>|
                #![trigger profiler_from_json(gpus, doc)]
                profiler_from_json(gpus, doc) && views(r@) == spec_monitors(gpus),
            None => r@.len() == 0,
        },
{
    match parse_json(bytes) {
        Some(doc) => {
            let gpus = profiler_displays(&doc);
            let r = monitors_from_profiler(gpus.as_slice());
            assert(profiler_from_json(gpus@, doc));
            r
        },
        None => Vec::new(),
    }
}

// ---------------------------------------------------------------------------
// Apple HDA engine UIDs
// ---------------------------------------------------------------------------

/// The text after the last `:` (the whole UID when it has none).
pub open spec fn last_segment(uid: Seq<char>) -> Seq<char> {
    match last_index_of(uid, ':') {
        Some(k) => uid.subrange(k + 1, uid.len() as int),
        None => uid,
    }
}

/// `(vendor, product, serial)` from the `{VVVV-PPPP-SSSSSSSS}` suffix, each
/// normalised; fields after the third are ignored, empty fields refused.
pub open spec fn spec_engine_uid(uid: Seq<char>) -> Option<(Seq<char>, Seq<char>, Seq<char>)> {
    match strip_prefix(last_segment(uid), "{"@) {
        None => None,
        Some(t) => match strip_suffix(t, "}"@) {
            None => None,
            Some(inner) => match split_once(inner, "-"@) {
                None => None,
                Some((a, r1)) => match split_once(r1, "-"@) {
                    None => None,
                    Some((b, r2)) => {
                        let c = match split_once(r2, "-"@) {
                            Some((c, _)) => c,
                            None => r2,
                        };
                        let (v, p, s) = (
                            spec_normalize_hex(a),
                            spec_normalize_hex(b),
                            spec_normalize_hex(c),
                        );
                        if v.len() == 0 || p.len() == 0 || s.len() == 0 {
                            None
                        } else {
                            Some((v, p, s))
                        }
                    },
                },
            },
        },
    }
}

/// Parse the `{VVVV-PPPP-SSSSSSSS}` suffix on Apple HDA engine UIDs.
pub fn parse_apple_engine_uid(uid: &str) -> (r: Option<(String, String, String)>)
    ensures
        match r {
            Some((v, p, s)) => spec_engine_uid(uid@) == Some((v@, p@, s@)),
            None => spec_engine_uid(uid@) is None,
        },
{
    proof {
        crate::text::lemma_last_index_of_bounds(uid@, ':');
    }
    let tail = match crate::text::rsplit_once_char(uid, ':') {
        Some((_, t)) => t,
        None => uid,
    };
    assert(tail@ == last_segment(uid@));
    let t = match strip_prefix_str(tail, "{") {
        Some(t) => t,
        None => {
            return None;
        },
    };
    let inner = match strip_suffix_str(t, "}") {
        Some(i) => i,
        None => {
            return None;
        },
    };
    let (a, r1) = match split_once_str(inner, "-") {
        Some(parts) => parts,
        None => {
            return None;
        },
    };
    let (b, r2) = match split_once_str(r1, "-") {
        Some(parts) => parts,
        None => {
            return None;
        },
    };
    let c = match split_once_str(r2, "-") {
        Some((c, _)) => c,
        None => r2,
    };
    let vendor = normalize_hex(a);
    let product = normalize_hex(b);
    let serial = normalize_hex(c);
    if vendor.unicode_len() == 0 || product.unicode_len() == 0 || serial.unicode_len() == 0 {
        return None;
    }
    Some((vendor, product, serial))
}

// ---------------------------------------------------------------------------
// Vendor byte order
// ---------------------------------------------------------------------------

/// Bytes in the UTF-8 encoding of `c`.
pub open spec fn utf8_width(c: char) -> nat {
    if (c as u32) < 0x80 {
        1
    } else if (c as u32) < 0x800 {
        2
    } else if (c as u32) < 0x10000 {
        3
    } else {
        4
    }
}

/// Bytes in the UTF-8 encoding of `s` (`str::len`).
pub open spec fn utf8_len(s: Seq<char>) -> nat
    decreases s.len(),
{
    if s.len() == 0 {
        0
    } else {
        utf8_len(s.drop_last()) + utf8_width(s.last())
    }
}

proof fn lemma_utf8_prefix(s: Seq<char>, i: int)
    requires
        0 <= i < s.len(),
    ensures
        utf8_len(s.subrange(0, i + 1)) == utf8_len(s.subrange(0, i)) + utf8_width(s[i]),
{
    assert(s.subrange(0, i + 1).drop_last() =~= s.subrange(0, i));
}

proof fn lemma_utf8_monotone(s: Seq<char>, i: int, j: int)
    requires
        0 <= i <= j <= s.len(),
    ensures
        utf8_len(s.subrange(0, i)) + (j - i) <= utf8_len(s.subrange(0, j)),
    decreases j - i,
{
    if i < j {
        lemma_utf8_monotone(s, i, j - 1);
        lemma_utf8_prefix(s, j - 1);
    }
}

/// The number of leading characters of `s` that take exactly `b` bytes: the
/// byte offset `b` as a character index, when `b` falls on a boundary.
pub open spec fn char_boundary(s: Seq<char>, b: nat) -> Option<int> {
    if exists|k: int| 0 <= k <= s.len() && utf8_len(#[trigger] s.subrange(0, k)) == b {
        Some(choose|k: int| 0 <= k <= s.len() && utf8_len(#[trigger] s.subrange(0, k)) == b)
    } else {
        None
    }
}

/// The vendor id as `system_profiler` writes it: a 4-byte id has its two byte
/// pairs exchanged (`AC10` becomes `10ac`); anything else is only normalised.
pub open spec fn spec_profiler_vendor(vendor: Seq<char>) -> Seq<char> {
    let v = spec_normalize_hex(vendor);
    if utf8_len(v) == 4 {
        match char_boundary(v, 2) {
            Some(k) => v.subrange(k, v.len() as int) + v.subrange(0, k),
            None => v,
        }
    } else {
        v
    }
}

/// The byte slice at offset 2 of a 4-byte id must fall between characters
/// (slicing inside a character panics).
pub open spec fn profiler_vendor_sliceable(vendor: Seq<char>) -> bool {
    let v = spec_normalize_hex(vendor);
    utf8_len(v) == 4 ==> char_boundary(v, 2) is Some
}

fn char_width(c: char) -> (r: usize)
    ensures
        r == utf8_width(c),
{
    let u = c as u32;
    if u < 0x80 {
        1
    } else if u < 0x800 {
        2
    } else if u < 0x10000 {
        3
    } else {
        4
    }
}

/// Apple UIDs use big-endian byte pairs (`AC10`); `system_profiler` uses `10ac`.
pub fn uid_vendor_to_profiler_format(vendor_uid: &str) -> (r: String)
    requires
        profiler_vendor_sliceable(vendor_uid@),
    ensures
        r@ == spec_profiler_vendor(vendor_uid@),
{
    let v = normalize_hex(vendor_uid);
    let s = v.as_str();
    let n = s.unicode_len();
    // Byte length, counted up to just past 4.
    let mut bytes: usize = 0;
    let mut i: usize = 0;
    while i < n && bytes <= 4
        invariant
            n == s@.len(),
            i <= n,
            bytes == utf8_len(s@.subrange(0, i as int)),
            bytes <= 8,
        decreases n - i,
    {
        proof {
            lemma_utf8_prefix(s@, i as int);
        }
        bytes = bytes + char_width(s.get_char(i));
        i = i + 1;
    }
    proof {
        lemma_utf8_monotone(s@, i as int, n as int);
        assert(s@.subrange(0, n as int) =~= s@);
    }
    if !(i == n && bytes == 4) {
        return v;
    }
    // Find the character index of byte offset 2.
    let mut k: usize = 0;
    let mut at: usize = 0;
    while at < 2
        invariant
            n == s@.len(),
            utf8_len(s@) == 4,
            k <= n,
            at == utf8_len(s@.subrange(0, k as int)),
            at <= 2,
            forall|j: int| 0 <= j < k ==> utf8_len(#[trigger] s@.subrange(0, j)) < 2,
            char_boundary(s@, 2) is Some,
        decreases 2 - at,
    {
        proof {
            if k == n {
                assert(s@.subrange(0, n as int) =~= s@);
            }
        }
        proof {
            lemma_utf8_prefix(s@, k as int);
        }
        let w = char_width(s.get_char(k));
        if at + w > 2 {
            proof {
                let kk = choose|kk: int|
                    0 <= kk <= s@.len() && utf8_len(#[trigger] s@.subrange(0, kk)) == 2;
                if kk <= k {
                    if kk < k {
                        assert(utf8_len(s@.subrange(0, kk)) < 2);
                    }
                } else {
                    lemma_utf8_monotone(s@, k + 1, kk);
                }
            }
            assert(false);
            return v;
        }
        at = at + w;
        k = k + 1;
    }
    proof {
        assert(utf8_len(s@.subrange(0, k as int)) == 2);
        let kk = choose|kk: int| 0 <= kk <= s@.len() && utf8_len(#[trigger] s@.subrange(0, kk)) == 2;
        if kk < k as int {
            lemma_utf8_monotone(s@, kk, k as int);
        } else if kk > k as int {
            lemma_utf8_monotone(s@, k as int, kk);
        }
    }
    let mut out = owned(s.substring_char(k, n));
    let head = s.substring_char(0, k);
    let mut j: usize = 0;
    let ghost first = out@;
    while j < k
        invariant
            j <= k,
            head@.len() == k,
            out@ == first + head@.subrange(0, j as int),
        decreases k - j,
    {
        crate::text::push_char(&mut out, head.get_char(j));
        assert(head@.subrange(0, j + 1) =~= head@.subrange(0, j as int).push(head@[j as int]));
        j = j + 1;
    }
    assert(head@.subrange(0, k as int) =~= head@);
    out
}

// ---------------------------------------------------------------------------
// Matching
// ---------------------------------------------------------------------------

/// Vendor and product match, and the serial too when the monitor reports one.
pub open spec fn exact_match(m: MonitorView, vendor: Seq<char>, product: Seq<char>, serial: Seq<
    char,
>) -> bool {
    &&& m.vendor_id == vendor
    &&& m.product_id == product
    &&& match m.serial_number {
        Some(s) => s == serial,
        None => true,
    }
}

pub open spec fn first_exact(
    ms: Seq<MonitorView>,
    vendor: Seq<char>,
    product: Seq<char>,
    serial: Seq<char>,
) -> Option<int> {
    if exists|i: int| 0 <= i < ms.len() && exact_match(#[trigger] ms[i], vendor, product, serial) {
        Some(
            choose|i: int|
                0 <= i < ms.len() && exact_match(#[trigger] ms[i], vendor, product, serial) && forall|
                    j: int,
                | 0 <= j < i ==> !exact_match(#[trigger] ms[j], vendor, product, serial),
        )
    } else {
        None
    }
}

pub open spec fn first_model(ms: Seq<MonitorView>, vendor: Seq<char>, product: Seq<char>) -> Option<
    int,
> {
    if exists|i: int| 0 <= i < ms.len() && (#[trigger] ms[i]).vendor_id == vendor && ms[i].product_id
        == product {
        Some(
            choose|i: int|
                0 <= i < ms.len() && (#[trigger] ms[i]).vendor_id == vendor && ms[i].product_id
                    == product && forall|j: int|
                    0 <= j < i ==> !((#[trigger] ms[j]).vendor_id == vendor && ms[j].product_id
                        == product),
        )
    } else {
        None
    }
}

/// The monitor name for an HDMI/DP audio UID: the first monitor matching
/// vendor, product and serial (a monitor without a serial matches on the
/// other two), else the first matching vendor and product alone.
pub open spec fn spec_monitor_name(uid: Seq<char>, ms: Seq<MonitorView>) -> Option<Seq<char>> {
    match spec_engine_uid(uid) {
        None => None,
        Some((v, p, s)) => {
            let vendor = spec_profiler_vendor(v);
            match first_exact(ms, vendor, p, s) {
                Some(i) => Some(ms[i].name),
                None => match first_model(ms, vendor, p) {
                    Some(i) => Some(ms[i].name),
                    None => None,
                },
            }
        },
    }
}

/// Engine UIDs whose vendor field can be converted without slicing inside a
/// character.
pub open spec fn monitor_lookup_defined(uid: Seq<char>) -> bool {
    match spec_engine_uid(uid) {
        Some((v, _, _)) => profiler_vendor_sliceable(v),
        None => true,
    }
}

proof fn lemma_first_exact_at(
    ms: Seq<MonitorView>,
    vendor: Seq<char>,
    product: Seq<char>,
    serial: Seq<char>,
    i: int,
)
    requires
        0 <= i < ms.len(),
        exact_match(ms[i], vendor, product, serial),
        forall|j: int| 0 <= j < i ==> !exact_match(#[trigger] ms[j], vendor, product, serial),
    ensures
        first_exact(ms, vendor, product, serial) == Some(i),
{
    let k = first_exact(ms, vendor, product, serial).unwrap();
    if k < i {
        assert(!exact_match(ms[k], vendor, product, serial));
    }
    if i < k {
        assert(!exact_match(ms[i], vendor, product, serial));
    }
}

proof fn lemma_first_model_at(ms: Seq<MonitorView>, vendor: Seq<char>, product: Seq<char>, i: int)
    requires
        0 <= i < ms.len(),
        ms[i].vendor_id == vendor && ms[i].product_id == product,
        forall|j: int|
            0 <= j < i ==> !((#[trigger] ms[j]).vendor_id == vendor && ms[j].product_id == product),
    ensures
        first_model(ms, vendor, product) == Some(i),
{
    let k = first_model(ms, vendor, product).unwrap();
    if k < i {
        assert(!(ms[k].vendor_id == vendor && ms[k].product_id == product));
    }
    if i < k {
        assert(!(ms[i].vendor_id == vendor && ms[i].product_id == product));
    }
}

/// Whether the vendor id can be rewritten into system_profiler's form: it is not
/// four bytes long, or its first two bytes end on a character boundary.
pub fn profiler_vendor_is_sliceable(vendor_uid: &str) -> (r: bool)
    ensures
        r == profiler_vendor_sliceable(vendor_uid@),
{
    let v = normalize_hex(vendor_uid);
    let s = v.as_str();
    let n = s.unicode_len();
    let mut bytes: usize = 0;
    let mut i: usize = 0;
    while i < n && bytes <= 4
        invariant
            n == s@.len(),
            i <= n,
            bytes == utf8_len(s@.subrange(0, i as int)),
            bytes <= 8,
        decreases n - i,
    {
        proof {
            lemma_utf8_prefix(s@, i as int);
        }
        bytes = bytes + char_width(s.get_char(i));
        i = i + 1;
    }
    proof {
        lemma_utf8_monotone(s@, i as int, n as int);
        assert(s@.subrange(0, n as int) =~= s@);
    }
    if !(i == n && bytes == 4) {
        return true;
    }
    let mut k: usize = 0;
    let mut at: usize = 0;
    while at < 2
        invariant
            n == s@.len(),
            s@ == spec_normalize_hex(vendor_uid@),
            utf8_len(s@) == 4,
            k <= n,
            at == utf8_len(s@.subrange(0, k as int)),
            at <= 2,
            forall|j: int| 0 <= j < k ==> utf8_len(#[trigger] s@.subrange(0, j)) < 2,
        decreases 2 - at,
    {
        proof {
            if k == n {
                assert(s@.subrange(0, n as int) =~= s@);
            }
            lemma_utf8_prefix(s@, k as int);
        }
        let w = char_width(s.get_char(k));
        if at + w > 2 {
            proof {
                assert forall|kk: int| 0 <= kk <= s@.len() implies utf8_len(
                    #[trigger] s@.subrange(0, kk),
                ) != 2 by {
                    if kk > k {
                        lemma_utf8_monotone(s@, k + 1, kk);
                    }
                }
                assert(char_boundary(s@, 2) is None);
            }
            return false;
        }
        at = at + w;
        k = k + 1;
    }
    true
}

/// Whether looking up `uid` among the monitors is defined (see `monitor_lookup_defined`).
pub fn monitor_lookup_is_defined(uid: &str) -> (r: bool)
    ensures
        r == monitor_lookup_defined(uid@),
{
    match parse_apple_engine_uid(uid) {
        Some((v, _, _)) => profiler_vendor_is_sliceable(v.as_str()),
        None => true,
    }
}

/// Match an HDMI/DP audio device UID to an online monitor name, if known.
#[verifier::spinoff_prover]
pub fn monitor_name_for_audio_uid(uid: &str, monitors: &[MonitorEntry]) -> (r: Option<String>)
    requires
        monitor_lookup_defined(uid@),
    ensures
        opt_view(r) == spec_monitor_name(uid@, views(monitors@)),
{
    let (vendor_uid, product_uid, serial_uid) = match parse_apple_engine_uid(uid) {
        Some(parts) => parts,
        None => {
            return None;
        },
    };
    let vendor_sp = uid_vendor_to_profiler_format(vendor_uid.as_str());
    let ghost ms = views(monitors@);
    let mut i: usize = 0;
    while i < monitors.len()
        invariant
            i <= monitors@.len(),
            ms == views(monitors@),
            spec_engine_uid(uid@) == Some((vendor_uid@, product_uid@, serial_uid@)),
            vendor_sp@ == spec_profiler_vendor(vendor_uid@),
            forall|j: int|
                0 <= j < i ==> !exact_match(#[trigger] ms[j], vendor_sp@, product_uid@, serial_uid@),
        decreases monitors@.len() - i,
    {
        let m = &monitors[i];
        assert(ms[i as int] == m.view_of());
        if str_eq(m.vendor_id.as_str(), vendor_sp.as_str()) && str_eq(
            m.product_id.as_str(),
            product_uid.as_str(),
        ) {
            let hit = match &m.serial_number {
                Some(s) => str_eq(s.as_str(), serial_uid.as_str()),
                None => true,
            };
            if hit {
                proof {
                    lemma_first_exact_at(ms, vendor_sp@, product_uid@, serial_uid@, i as int);
                }
                return Some(m.name.clone());
            }
        }
        i = i + 1;
    }
    let mut i: usize = 0;
    while i < monitors.len()
        invariant
            i <= monitors@.len(),
            ms == views(monitors@),
            spec_engine_uid(uid@) == Some((vendor_uid@, product_uid@, serial_uid@)),
            vendor_sp@ == spec_profiler_vendor(vendor_uid@),
            forall|j: int| 0 <= j < monitors@.len() ==> !exact_match(#[trigger] ms[j], vendor_sp@, product_uid@, serial_uid@),
            forall|j: int|
                0 <= j < i ==> !((#[trigger] ms[j]).vendor_id == vendor_sp@ && ms[j].product_id
                    == product_uid@),
        decreases monitors@.len() - i,
    {
        let m = &monitors[i];
        assert(ms[i as int] == m.view_of());
        if str_eq(m.vendor_id.as_str(), vendor_sp.as_str()) && str_eq(
            m.product_id.as_str(),
            product_uid.as_str(),
        ) {
            proof {
                lemma_first_model_at(ms, vendor_sp@, product_uid@, i as int);
            }
            return Some(m.name.clone());
        }
        i = i + 1;
    }
    None
}

} // verus!
