//! Device tables and aligned `label: value` blocks for terminal output.
use crate::output_device::OutputDevice;
use crate::system_default::SystemDefaultInfo;
use crate::text::{
    concat2, concat3, decimal, join, join_strings, owned, pad_right, pad_right_str, push_line, texts,
    u64_to_text,
};
use vstd::prelude::*;

verus! {

pub const NO_MONITOR: &'static str = "-";

pub const ANSI_GREEN: &'static str = "\x1b[32m";

pub const ANSI_CYAN: &'static str = "\x1b[36m";

pub const ANSI_DIM: &'static str = "\x1b[2m";

pub const ANSI_RESET: &'static str = "\x1b[0m";

pub const COL_GAP: &'static str = "  ";

/// Widths of the seven table columns, in characters.
#[derive(Debug)]
pub struct TableWidths {
    pub cols: Vec<usize>,
}

pub open spec fn header_cells() -> Seq<Seq<char>> {
    seq!["IDX"@, "ACT"@, "ALIVE"@, "TRANSPORT"@, "DEVICE"@, "MONITOR"@, "UID"@]
}

pub open spec fn spec_monitor_label(d: OutputDevice) -> Seq<char> {
    match d.monitor_name {
        Some(m) => m@,
        None => NO_MONITOR@,
    }
}

/// The cells of row `i` showing device `d`.
pub open spec fn row_cells(i: int, d: OutputDevice) -> Seq<Seq<char>> {
    seq![
        decimal(i as nat),
        if d.is_active {
            ">"@
        } else {
            ""@
        },
        if d.is_alive {
            "yes"@
        } else {
            "no"@
        },
        d.transport.spec_label(),
        d.name@,
        spec_monitor_label(d),
        d.uid@,
    ]
}

/// Least width of each column: its header, and at least 11 for TRANSPORT.
pub open spec fn base_width(k: int) -> nat {
    if k == 3 {
        11
    } else {
        header_cells()[k].len()
    }
}

pub open spec fn max_nat(a: nat, b: nat) -> nat {
    if a >= b {
        a
    } else {
        b
    }
}

/// Width of column `k` over the rows of `devs`.
pub open spec fn col_width(devs: Seq<OutputDevice>, k: int) -> nat
    decreases devs.len(),
{
    if devs.len() == 0 {
        base_width(k)
    } else {
        max_nat(
            col_width(devs.drop_last(), k),
            row_cells(devs.len() - 1, devs.last())[k].len(),
        )
    }
}

/// Every row's cell in column `k` fits the column width.
pub proof fn lemma_col_width_fits(devs: Seq<OutputDevice>, k: int, i: int)
    requires
        0 <= k < 7,
        0 <= i < devs.len(),
    ensures
        row_cells(i, devs[i])[k].len() <= col_width(devs, k),
        header_cells()[k].len() <= col_width(devs, k),
    decreases devs.len(),
{
    if i < devs.len() - 1 {
        lemma_col_width_fits(devs.drop_last(), k, i);
        assert(devs.drop_last()[i] == devs[i]);
    }
    lemma_header_fits(devs, k);
}

pub proof fn lemma_header_fits(devs: Seq<OutputDevice>, k: int)
    requires
        0 <= k < 7,
    ensures
        header_cells()[k].len() <= col_width(devs, k),
    decreases devs.len(),
{
    reveal_strlit("TRANSPORT");
    if devs.len() > 0 {
        lemma_header_fits(devs.drop_last(), k);
    }
}

fn widen(cols: &mut Vec<usize>, k: usize, w: usize)
    requires
        k < old(cols)@.len(),
    ensures
        final(cols)@ == old(cols)@.update(
            k as int,
            if old(cols)@[k as int] >= w {
                old(cols)@[k as int]
            } else {
                w
            },
        ),
{
    if cols[k] < w {
        cols.set(k, w);
    }
}

/// Column widths for a device table: every header and cell fits its column.
pub fn compute_widths(devices: &[OutputDevice]) -> (r: TableWidths)
    ensures
        r.cols@.len() == 7,
        forall|k: int| 0 <= k < 7 ==> r.cols@[k] == col_width(devices@, k),
{
    let mut cols: Vec<usize> = vec![3, 3, 5, 11, 6, 7, 3];
    proof {
        reveal_strlit("IDX");
        reveal_strlit("ACT");
        reveal_strlit("ALIVE");
        reveal_strlit("TRANSPORT");
        reveal_strlit("DEVICE");
        reveal_strlit("MONITOR");
        reveal_strlit("UID");
        assert forall|k: int| 0 <= k < 7 implies cols@[k] == col_width(devices@.take(0), k) by {
            assert(devices@.take(0).len() == 0);
        }
    }
    let mut i: usize = 0;
    while i < devices.len()
        invariant
            i <= devices@.len(),
            cols@.len() == 7,
            forall|k: int| 0 <= k < 7 ==> cols@[k] == col_width(devices@.take(i as int), k),
        decreases devices@.len() - i,
    {
        let d = &devices[i];
        let ghost before = cols@;
        let idx = u64_to_text(i as u64);
        widen(&mut cols, 0, idx.unicode_len());
        widen(&mut cols, 1, if d.is_active { 1 } else { 0 });
        widen(&mut cols, 2, if d.is_alive { 3 } else { 2 });
        widen(&mut cols, 3, d.transport.label().unicode_len());
        widen(&mut cols, 4, d.name.unicode_len());
        let monitor: &str = match &d.monitor_name {
            Some(m) => m.as_str(),
            None => NO_MONITOR,
        };
        widen(&mut cols, 5, monitor.unicode_len());
        widen(&mut cols, 6, d.uid.unicode_len());
        proof {
            reveal_strlit(">");
            reveal_strlit("");
            reveal_strlit("yes");
            reveal_strlit("no");
            reveal_strlit("-");
            let t = devices@.take(i + 1);
            assert(t.drop_last() =~= devices@.take(i as int));
            assert(t.last() == devices@[i as int]);
            assert forall|k: int| 0 <= k < 7 implies cols@[k] == col_width(t, k) by {
                let c = row_cells(i as int, devices@[i as int]);
                assert(c[k].len() == if k == 0 {
                    idx@.len()
                } else if k == 1 {
                    if d.is_active {
                        1nat
                    } else {
                        0nat
                    }
                } else if k == 2 {
                    if d.is_alive {
                        3nat
                    } else {
                        2nat
                    }
                } else if k == 3 {
                    d.transport.spec_label().len()
                } else if k == 4 {
                    d.name@.len()
                } else if k == 5 {
                    monitor@.len()
                } else {
                    d.uid@.len()
                });
            }
        }
        i = i + 1;
    }
    assert(devices@.take(devices@.len() as int) =~= devices@);
    TableWidths { cols }
}

/// Start of column `k`: the widths before it, each followed by the gap.
pub open spec fn start_of(widths: Seq<usize>, k: int) -> int
    decreases k,
{
    if k <= 0 {
        0
    } else {
        start_of(widths, k - 1) + widths[k - 1] + 2
    }
}

pub proof fn lemma_start_of_monotone(widths: Seq<usize>, j: int, k: int)
    requires
        0 <= j <= k,
    ensures
        start_of(widths, j) <= start_of(widths, k),
    decreases k - j,
{
    if j < k {
        lemma_start_of_monotone(widths, j, k - 1);
    }
}

/// Character offset at which each table column starts.
pub fn column_starts(widths: &TableWidths) -> (r: Vec<usize>)
    requires
        start_of(widths.cols@, widths.cols@.len() as int) <= usize::MAX,
    ensures
        r@.len() == widths.cols@.len(),
        forall|k: int| 0 <= k < r@.len() ==> r@[k] == start_of(widths.cols@, k),
{
    let n = widths.cols.len();
    let mut starts: Vec<usize> = Vec::new();
    let mut pos: usize = 0;
    let mut i: usize = 0;
    while i < n
        invariant
            n == widths.cols@.len(),
            i <= n,
            start_of(widths.cols@, n as int) <= usize::MAX,
            pos == start_of(widths.cols@, i as int),
            starts@.len() == i,
            forall|k: int| 0 <= k < i ==> starts@[k] == start_of(widths.cols@, k),
        decreases n - i,
    {
        starts.push(pos);
        proof {
            lemma_start_of_monotone(widths.cols@, i + 1, n as int);
        }
        pos = pos + widths.cols[i] + 2;
        i = i + 1;
    }
    starts
}

/// Each cell padded to its column width.
pub open spec fn padded(cells: Seq<Seq<char>>, widths: Seq<usize>) -> Seq<Seq<char>> {
    Seq::new(cells.len(), |j: int| pad_right(cells[j], widths[j] as nat))
}

/// One table line: the padded cells separated by the column gap.
pub open spec fn spec_render(cells: Seq<Seq<char>>, widths: Seq<usize>) -> Seq<char> {
    join(padded(cells, widths), COL_GAP@)
}

/// Render seven cells into one table line.
pub fn render_cells(cells: &[&str], widths: &TableWidths) -> (r: String)
    requires
        cells@.len() <= widths.cols@.len(),
    ensures
        r@ == spec_render(cells@.map_values(|c: &str| c@), widths.cols@),
{
    let ghost cv = cells@.map_values(|c: &str| c@);
    let mut parts: Vec<String> = Vec::new();
    let mut i: usize = 0;
    while i < cells.len()
        invariant
            i <= cells@.len(),
            cells@.len() <= widths.cols@.len(),
            cv == cells@.map_values(|c: &str| c@),
            texts(parts@) == padded(cv, widths.cols@).take(i as int),
        decreases cells@.len() - i,
    {
        push_line(&mut parts, pad_right_str(cells[i], widths.cols[i]));
        assert(padded(cv, widths.cols@).take(i + 1) =~= padded(cv, widths.cols@).take(i as int).push(
            pad_right(cv[i as int], widths.cols@[i as int] as nat),
        ));
        i = i + 1;
    }
    assert(padded(cv, widths.cols@).take(cells@.len() as int) =~= padded(cv, widths.cols@));
    assert(texts(parts@) == parts@.map_values(|p: String| p@));
    join_strings(&parts, COL_GAP)
}

/// Every part of a join sits at its column's start when each part fills its width.
pub proof fn lemma_join_offsets(parts: Seq<Seq<char>>, widths: Seq<usize>, k: int)
    requires
        parts.len() >= 1,
        parts.len() <= widths.len(),
        forall|j: int| 0 <= j < parts.len() ==> (#[trigger] parts[j]).len() == widths[j],
        0 <= k < parts.len(),
    ensures
        join(parts, COL_GAP@).len() == start_of(widths, parts.len() - 1) + widths[parts.len() - 1],
        join(parts, COL_GAP@).subrange(start_of(widths, k), start_of(widths, k) + widths[k]) == parts[k],
    decreases parts.len(),
{
    reveal_strlit("  ");
    let n = parts.len();
    if n == 1 {
        assert(parts[0].subrange(0, widths[0] as int) =~= parts[0]);
    } else {
        let init = parts.drop_last();
        assert forall|j: int| 0 <= j < init.len() implies (#[trigger] init[j]).len() == widths[j] by {
            assert(init[j] == parts[j]);
        }
        lemma_join_offsets(init, widths, n - 2);
        let head = join(init, COL_GAP@);
        let whole = head + COL_GAP@ + parts.last();
        assert(join(parts, COL_GAP@) == whole);
        if k < n - 1 {
            lemma_join_offsets(init, widths, k);
            lemma_start_of_monotone(widths, 0, k);
            if k + 1 <= n - 2 {
                lemma_start_of_monotone(widths, k + 1, n - 2);
            }
            assert(whole.subrange(start_of(widths, k), start_of(widths, k) + widths[k]) =~= head.subrange(
                start_of(widths, k),
                start_of(widths, k) + widths[k],
            ));
            assert(init[k] == parts[k]);
        } else {
            lemma_start_of_monotone(widths, 0, n - 2);
            assert(whole.subrange(start_of(widths, k), start_of(widths, k) + widths[k]) =~= parts.last());
        }
    }
}

/// Padding a cell that fits yields exactly the width.
pub proof fn lemma_pad_len(s: Seq<char>, w: nat)
    requires
        s.len() <= w,
    ensures
        pad_right(s, w).len() == w,
        pad_right(s, w).subrange(0, s.len() as int) == s,
{
    assert(pad_right(s, w).subrange(0, s.len() as int) =~= s);
}

/// Every line of a device table, header included, has each cell at its
/// column's start, padded to the column width.
pub proof fn lemma_table_columns_aligned(devices: Seq<OutputDevice>, widths: Seq<usize>, i: int, k: int)
    requires
        widths.len() == 7,
        forall|c: int| 0 <= c < 7 ==> widths[c] == col_width(devices, c),
        0 <= k < 7,
        -1 <= i < devices.len(),
    ensures
        ({
            let cells = if i < 0 {
                header_cells()
            } else {
                row_cells(i, devices[i])
            };
            spec_render(cells, widths).subrange(start_of(widths, k), start_of(widths, k) + widths[k])
                == pad_right(cells[k], widths[k] as nat)
        }),
{
    let cells = if i < 0 {
        header_cells()
    } else {
        row_cells(i, devices[i])
    };
    let parts = padded(cells, widths);
    assert forall|j: int| 0 <= j < parts.len() implies (#[trigger] parts[j]).len() == widths[j] by {
        if i < 0 {
            lemma_header_fits(devices, j);
        } else {
            lemma_col_width_fits(devices, j, i);
        }
        lemma_pad_len(cells[j], widths[j] as nat);
    }
    lemma_join_offsets(parts, widths, k);
}


/// In every row of a device table the ALIVE column reads `yes` exactly for a
/// live device and `no` otherwise, whatever its other flags (active or not).
pub proof fn law_alive_column_follows_alive(devices: Seq<OutputDevice>, widths: Seq<usize>, i: int)
    requires
        widths.len() == 7,
        forall|c: int| 0 <= c < 7 ==> widths[c] == col_width(devices, c),
        0 <= i < devices.len(),
    ensures
        spec_render(row_cells(i, devices[i]), widths).subrange(start_of(widths, 2), start_of(widths, 2) + widths[2])
            == pad_right(
            if devices[i].is_alive {
                "yes"@
            } else {
                "no"@
            },
            widths[2] as nat,
        ),
{
    lemma_table_columns_aligned(devices, widths, i, 2);
}

/// Column widths of a table over `devs`.
pub open spec fn widths_of(devs: Seq<OutputDevice>) -> Seq<usize> {
    Seq::new(7, |k: int| col_width(devs, k) as usize)
}

fn header_line(widths: &TableWidths) -> (r: String)
    requires
        widths.cols@.len() == 7,
    ensures
        r@ == spec_render(header_cells(), widths.cols@),
{
    let cells = vec!["IDX", "ACT", "ALIVE", "TRANSPORT", "DEVICE", "MONITOR", "UID"];
    assert(cells@.map_values(|c: &str| c@) =~= header_cells());
    render_cells(cells.as_slice(), widths)
}

/// The table line for device `device` at list position `index`.
pub fn format_row(index: usize, device: &OutputDevice, widths: &TableWidths) -> (r: String)
    requires
        widths.cols@.len() == 7,
    ensures
        r@ == spec_render(row_cells(index as int, *device), widths.cols@),
{
    let idx = u64_to_text(index as u64);
    let monitor: &str = match &device.monitor_name {
        Some(m) => m.as_str(),
        None => NO_MONITOR,
    };
    let cells = vec![
        idx.as_str(),
        if device.is_active {
            ">"
        } else {
            ""
        },
        if device.is_alive {
            "yes"
        } else {
            "no"
        },
        device.transport.label(),
        device.name.as_str(),
        monitor,
        device.uid.as_str(),
    ];
    assert(cells@.map_values(|c: &str| c@) =~= row_cells(index as int, *device));
    render_cells(cells.as_slice(), widths)
}

pub open spec fn spec_colorize(row: Seq<char>, d: OutputDevice, use_color: bool) -> Seq<char> {
    if !use_color {
        row
    } else if d.is_active {
        ANSI_GREEN@ + row + ANSI_RESET@
    } else if !d.spec_selectable() {
        ANSI_DIM@ + row + ANSI_RESET@
    } else {
        row
    }
}

fn colorize_table_row(row: String, device: &OutputDevice, use_color: bool) -> (r: String)
    ensures
        r@ == spec_colorize(row@, *device, use_color),
{
    if !use_color {
        row
    } else if device.is_active {
        concat3(ANSI_GREEN, row.as_str(), ANSI_RESET)
    } else if !device.is_selectable() {
        concat3(ANSI_DIM, row.as_str(), ANSI_RESET)
    } else {
        row
    }
}

/// The lines of a device table: the header, then one row per device.
pub open spec fn table_lines(devs: Seq<OutputDevice>, use_color: bool) -> Seq<Seq<char>> {
    seq![spec_render(header_cells(), widths_of(devs))] + Seq::new(
        devs.len(),
        |i: int| spec_colorize(spec_render(row_cells(i, devs[i]), widths_of(devs)), devs[i], use_color),
    )
}

pub open spec fn spec_table(devs: Seq<OutputDevice>, use_color: bool) -> Seq<char> {
    if devs.len() == 0 {
        seq![]
    } else {
        join(table_lines(devs, use_color), "\n"@)
    }
}

/// A table of `devices`; with `use_color`, the active row green and rows that
/// cannot be routed to dimmed.
pub fn format_table_with_color(devices: &[OutputDevice], use_color: bool) -> (r: String)
    ensures
        r@ == spec_table(devices@, use_color),
{
    if devices.len() == 0 {
        return String::new();
    }
    let w = compute_widths(devices);
    assert(w.cols@ =~= widths_of(devices@));
    let ghost want = table_lines(devices@, use_color);
    let mut lines: Vec<String> = Vec::new();
    push_line(&mut lines, header_line(&w));
    let mut i: usize = 0;
    while i < devices.len()
        invariant
            i <= devices@.len(),
            w.cols@ == widths_of(devices@),
            want == table_lines(devices@, use_color),
            texts(lines@) == want.take(i + 1),
        decreases devices@.len() - i,
    {
        let row = format_row(i, &devices[i], &w);
        push_line(&mut lines, colorize_table_row(row, &devices[i], use_color));
        assert(want.take(i + 2) =~= want.take(i + 1).push(want[i + 1]));
        i = i + 1;
    }
    assert(want.take(devices@.len() + 1int) =~= want);
    assert(texts(lines@) == lines@.map_values(|p: String| p@));
    join_strings(&lines, "\n")
}

/// A table of `devices` without color.
pub fn format_table(devices: &[OutputDevice]) -> (r: String)
    ensures
        r@ == spec_table(devices@, false),
{
    format_table_with_color(devices, false)
}

pub open spec fn label_width(rows: Seq<(Seq<char>, Seq<char>)>) -> nat
    decreases rows.len(),
{
    if rows.len() == 0 {
        0
    } else {
        max_nat(label_width(rows.drop_last()), rows.last().0.len())
    }
}

pub open spec fn detail_line(indent: Seq<char>, width: nat, row: (Seq<char>, Seq<char>)) -> Seq<char> {
    indent + pad_right(row.0, width) + ": "@ + row.1
}

pub open spec fn spec_detail_rows(indent: Seq<char>, rows: Seq<(Seq<char>, Seq<char>)>) -> Seq<Seq<char>> {
    Seq::new(rows.len(), |i: int| detail_line(indent, label_width(rows), rows[i]))
}

pub open spec fn pairs_view(rows: Seq<(&str, &str)>) -> Seq<(Seq<char>, Seq<char>)> {
    rows.map_values(|r: (&str, &str)| (r.0@, r.1@))
}

/// `label: value` rows with the values aligned in one column.
pub fn format_detail_rows(indent: &str, rows: &[(&str, &str)]) -> (r: Vec<String>)
    ensures
        texts(r@) == spec_detail_rows(indent@, pairs_view(rows@)),
{
    let ghost rv = pairs_view(rows@);
    let mut width: usize = 0;
    let mut i: usize = 0;
    while i < rows.len()
        invariant
            i <= rows@.len(),
            rv == pairs_view(rows@),
            width == label_width(rv.take(i as int)),
        decreases rows@.len() - i,
    {
        let n = rows[i].0.unicode_len();
        assert(rv.take(i + 1).drop_last() =~= rv.take(i as int));
        if n > width {
            width = n;
        }
        i = i + 1;
    }
    assert(rv.take(rows@.len() as int) =~= rv);
    let mut out: Vec<String> = Vec::new();
    let mut j: usize = 0;
    while j < rows.len()
        invariant
            j <= rows@.len(),
            rv == pairs_view(rows@),
            width == label_width(rv),
            texts(out@) == spec_detail_rows(indent@, rv).take(j as int),
        decreases rows@.len() - j,
    {
        let mut line = concat2(indent, pad_right_str(rows[j].0, width).as_str());
        line.append(": ");
        line.append(rows[j].1);
        push_line(&mut out, line);
        assert(spec_detail_rows(indent@, rv).take(j + 1) =~= spec_detail_rows(indent@, rv).take(
            j as int,
        ).push(detail_line(indent@, width as nat, rv[j as int])));
        j = j + 1;
    }
    assert(spec_detail_rows(indent@, rv).take(rows@.len() as int) =~= spec_detail_rows(indent@, rv));
    out
}

pub open spec fn spec_labeled_section(
    title: Seq<char>,
    indent: Seq<char>,
    rows: Seq<(Seq<char>, Seq<char>)>,
) -> Seq<char> {
    join(seq![title] + spec_detail_rows(indent, rows), "\n"@)
}

/// A title line followed by aligned `label: value` rows.
pub fn format_labeled_section(title: &str, indent: &str, rows: &[(&str, &str)]) -> (r: String)
    ensures
        r@ == spec_labeled_section(title@, indent@, pairs_view(rows@)),
{
    let details = format_detail_rows(indent, rows);
    let mut lines: Vec<String> = Vec::new();
    push_line(&mut lines, owned(title));
    let mut i: usize = 0;
    while i < details.len()
        invariant
            i <= details@.len(),
            texts(lines@) == seq![title@] + texts(details@).take(i as int),
        decreases details@.len() - i,
    {
        push_line(&mut lines, details[i].clone());
        assert(texts(details@).take(i + 1) =~= texts(details@).take(i as int).push(details@[i as int]@));
        i = i + 1;
    }
    assert(texts(details@).take(details@.len() as int) =~= texts(details@));
    assert(texts(lines@) == lines@.map_values(|p: String| p@));
    join_strings(&lines, "\n")
}


pub open spec fn owned_pairs_view(rows: Seq<(String, String)>) -> Seq<(Seq<char>, Seq<char>)> {
    rows.map_values(|r: (String, String)| (r.0@, r.1@))
}

fn push_pair(rows: &mut Vec<(String, String)>, label: &str, value: String)
    ensures
        owned_pairs_view(final(rows)@) == owned_pairs_view(old(rows)@).push((label@, value@)),
{
    rows.push((owned(label), value));
    assert(owned_pairs_view(rows@) =~= owned_pairs_view(old(rows)@).push((label@, value@)));
}

pub open spec fn opt_row(label: Seq<char>, v: Option<String>) -> Seq<(Seq<char>, Seq<char>)> {
    match v {
        Some(x) => seq![(label, x@)],
        None => seq![],
    }
}

/// The rows of the virtual system-default block.
pub open spec fn system_default_rows(info: SystemDefaultInfo) -> Seq<(Seq<char>, Seq<char>)> {
    (match info.router {
        Some(router) => seq![
            ("router"@, router@ + match info.driver {
                Some(d) => match d.version {
                    Some(v) => " "@ + v@,
                    None => Seq::<char>::empty(),
                },
                None => Seq::<char>::empty(),
            }),
        ],
        None => seq![],
    }) + seq![
        ("device"@, info.name@),
        ("uid"@, info.uid@),
        ("transport"@, info.transport.spec_label()),
    ] + opt_row("manufacturer"@, info.manufacturer) + opt_row("model uid"@, info.model_uid) + (
    match info.driver {
        Some(d) => seq![("driver"@, d.bundle_id@)] + opt_row("driver ver"@, d.version) + seq![
            ("driver path"@, d.install_path@),
        ],
        None => seq![],
    }) + (match info.routed_to_label {
        Some(l) => seq![("routing to"@, l@)],
        None => opt_row("routing to"@, info.routed_to_uid),
    })
}

pub open spec fn spec_system_default_block(info: SystemDefaultInfo) -> Seq<char> {
    "\n"@ + spec_labeled_section("System default (virtual)"@, "  "@, system_default_rows(info))
}

pub open spec fn router_rows(info: SystemDefaultInfo) -> Seq<(Seq<char>, Seq<char>)> {
    match info.router {
        Some(router) => seq![
            ("router"@, router@ + match info.driver {
                Some(d) => match d.version {
                    Some(v) => " "@ + v@,
                    None => Seq::<char>::empty(),
                },
                None => Seq::<char>::empty(),
            }),
        ],
        None => seq![],
    }
}

pub open spec fn driver_rows(info: SystemDefaultInfo) -> Seq<(Seq<char>, Seq<char>)> {
    match info.driver {
        Some(d) => seq![("driver"@, d.bundle_id@)] + opt_row("driver ver"@, d.version) + seq![
            ("driver path"@, d.install_path@),
        ],
        None => seq![],
    }
}

pub open spec fn routing_rows(info: SystemDefaultInfo) -> Seq<(Seq<char>, Seq<char>)> {
    match info.routed_to_label {
        Some(l) => seq![("routing to"@, l@)],
        None => opt_row("routing to"@, info.routed_to_uid),
    }
}

proof fn lemma_system_default_rows(info: SystemDefaultInfo)
    ensures
        system_default_rows(info) == router_rows(info) + seq![
            ("device"@, info.name@),
            ("uid"@, info.uid@),
            ("transport"@, info.transport.spec_label()),
        ] + opt_row("manufacturer"@, info.manufacturer) + opt_row("model uid"@, info.model_uid)
            + driver_rows(info) + routing_rows(info),
{
}

fn push_router_row(rows: &mut Vec<(String, String)>, info: &SystemDefaultInfo)
    ensures
        owned_pairs_view(final(rows)@) == owned_pairs_view(old(rows)@) + router_rows(*info),
{
    if let Some(router) = &info.router {
        let mut value = router.clone();
        let ghost suffix = match &info.driver {
            Some(d) => match &d.version {
                Some(v) => " "@ + v@,
                None => Seq::<char>::empty(),
            },
            None => Seq::<char>::empty(),
        };
        if let Some(d) = &info.driver {
            if let Some(v) = &d.version {
                value.append(" ");
                value.append(v.as_str());
            }
        }
        assert(value@ =~= router@ + suffix);
        push_pair(rows, "router", value);
        assert(owned_pairs_view(rows@) =~= owned_pairs_view(old(rows)@) + router_rows(*info));
    } else {
        assert(owned_pairs_view(rows@) =~= owned_pairs_view(old(rows)@) + router_rows(*info));
    }
}

fn push_opt_row(rows: &mut Vec<(String, String)>, label: &str, value: &Option<String>)
    ensures
        owned_pairs_view(final(rows)@) == owned_pairs_view(old(rows)@) + opt_row(label@, *value),
{
    if let Some(v) = value {
        push_pair(rows, label, v.clone());
    }
    assert(owned_pairs_view(rows@) =~= owned_pairs_view(old(rows)@) + opt_row(label@, *value));
}

fn push_driver_rows(rows: &mut Vec<(String, String)>, info: &SystemDefaultInfo)
    ensures
        owned_pairs_view(final(rows)@) == owned_pairs_view(old(rows)@) + driver_rows(*info),
{
    if let Some(d) = &info.driver {
        push_pair(rows, "driver", d.bundle_id.clone());
        push_opt_row(rows, "driver ver", &d.version);
        push_pair(rows, "driver path", d.install_path.clone());
    }
    assert(owned_pairs_view(rows@) =~= owned_pairs_view(old(rows)@) + driver_rows(*info));
}

fn system_default_row_list(info: &SystemDefaultInfo) -> (r: Vec<(String, String)>)
    ensures
        owned_pairs_view(r@) == system_default_rows(*info),
{
    let mut rows: Vec<(String, String)> = Vec::new();
    push_router_row(&mut rows, info);
    push_pair(&mut rows, "device", info.name.clone());
    push_pair(&mut rows, "uid", info.uid.clone());
    push_pair(&mut rows, "transport", owned(info.transport.label()));
    push_opt_row(&mut rows, "manufacturer", &info.manufacturer);
    push_opt_row(&mut rows, "model uid", &info.model_uid);
    push_driver_rows(&mut rows, info);
    if info.routed_to_label.is_some() {
        push_opt_row(&mut rows, "routing to", &info.routed_to_label);
    } else {
        push_opt_row(&mut rows, "routing to", &info.routed_to_uid);
    }
    proof {
        lemma_system_default_rows(*info);
        assert(owned_pairs_view(rows@) =~= system_default_rows(*info));
    }
    rows
}

/// The virtual system-default block (shared with `status`).
pub fn format_system_default_block(info: &SystemDefaultInfo) -> (r: String)
    ensures
        r@ == spec_system_default_block(*info),
{
    let rows = system_default_row_list(info);
    let mut borrowed: Vec<(&str, &str)> = Vec::new();
    let mut i: usize = 0;
    while i < rows.len()
        invariant
            i <= rows@.len(),
            pairs_view(borrowed@) == owned_pairs_view(rows@).take(i as int),
        decreases rows@.len() - i,
    {
        let ghost old_b = borrowed@;
        borrowed.push((rows[i].0.as_str(), rows[i].1.as_str()));
        assert(pairs_view(borrowed@) =~= pairs_view(old_b).push((rows@[i as int].0@, rows@[i as int].1@)));
        assert(owned_pairs_view(rows@).take(i + 1) =~= owned_pairs_view(rows@).take(i as int).push(
            (rows@[i as int].0@, rows@[i as int].1@),
        ));
        i = i + 1;
    }
    assert(owned_pairs_view(rows@).take(rows@.len() as int) =~= owned_pairs_view(rows@));
    let section = format_labeled_section("System default (virtual)", "  ", borrowed.as_slice());
    concat2("\n", section.as_str())
}

/// What `list` prints for a device list: the table, or a note when it is empty.
pub open spec fn spec_device_table_text(devs: Seq<OutputDevice>, hdmi_only: bool, use_color: bool) -> Seq<char> {
    if devs.len() == 0 {
        "No "@ + (if hdmi_only {
            "HDMI-class output"@
        } else {
            "output"@
        }) + " devices found."@
    } else {
        spec_table(devs, use_color)
    }
}

/// Text of the device table printed by `list`.
pub fn device_table_text(devices: &[OutputDevice], hdmi_only: bool, use_color: bool) -> (r: String)
    ensures
        r@ == spec_device_table_text(devices@, hdmi_only, use_color),
{
    if devices.len() == 0 {
        return concat3(
            "No ",
            if hdmi_only {
                "HDMI-class output"
            } else {
                "output"
            },
            " devices found.",
        );
    }
    format_table_with_color(devices, use_color)
}


/// Colored output only when stdout is a terminal and `NO_COLOR` is unset.
pub fn terminal_supports_color(stdout_is_terminal: bool, no_color_set: bool) -> (r: bool)
    ensures
        r == (stdout_is_terminal && !no_color_set),
{
    stdout_is_terminal && !no_color_set
}

} // verus!
