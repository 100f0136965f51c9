use rusty_jack::list_fmt::{
    column_starts, compute_widths, device_table_text, format_detail_rows, format_system_default_block,
    format_table, format_table_with_color, TableWidths, ANSI_DIM, ANSI_GREEN, ANSI_RESET, COL_GAP,
};
use rusty_jack::output_device::OutputDevice;
use rusty_jack::system_default::{HalDriverInfo, SystemDefaultInfo};
use rusty_jack::text::pad_right_str;
use rusty_jack::transport::TransportKind;

fn sample_devices() -> Vec<OutputDevice> {
    vec![
        OutputDevice {
            id: 1,
            uid: "BuiltInSpeakerDevice".into(),
            name: "Built-in Output".into(),
            transport: TransportKind::BuiltIn,
            is_alive: true,
            is_default: false,
            is_active: false,
            monitor_name: None,
        },
        OutputDevice {
            id: 2,
            uid: "AppleHDAEngineOutputDP:0,1,0,1,0:0:{AC10-A120-30594A4C}".into(),
            name: "HDMI".into(),
            transport: TransportKind::Hdmi,
            is_alive: true,
            is_default: false,
            is_active: true,
            monitor_name: Some("DELL U3219Q".into()),
        },
        OutputDevice {
            id: 3,
            uid: "AppleHDAEngineOutputDP:0,1,0,1,4:1:{AC10-4273-424D414C}".into(),
            name: "DisplayPort".into(),
            transport: TransportKind::DisplayPort,
            is_alive: true,
            is_default: false,
            is_active: false,
            monitor_name: Some("DELL U3223QE".into()),
        },
    ]
}

fn split_cells(line: &str, widths: &TableWidths) -> Vec<String> {
    let starts = column_starts(widths);
    starts
        .iter()
        .enumerate()
        .map(|(i, &start)| {
            let end = if i + 1 < widths.cols.len() { starts[i + 1] - COL_GAP.len() } else { line.len() };
            line.get(start..end).unwrap_or("").trim_end().to_string()
        })
        .collect()
}

#[test]
fn test_all_rows_share_column_offsets() {
    let devices = sample_devices();
    let table = format_table(&devices);
    let w = compute_widths(&devices);
    let expected = column_starts(&w);
    let lines: Vec<&str> = table.lines().collect();
    for line in &lines {
        for (col, &start) in expected.iter().enumerate() {
            let cell = split_cells(line, &w)[col].clone();
            assert!(line.len() >= start, "line too short for col {col}: {line:?}");
            let padded = pad_right_str(&cell, w.cols[col]);
            assert!(line[start..].starts_with(&padded), "col {col} misaligned in: {line}");
        }
    }
}

#[test]
fn test_table_content() {
    let devices = sample_devices();
    let w = compute_widths(&devices);
    let table = format_table(&devices);
    let lines: Vec<&str> = table.lines().collect();
    let header = split_cells(lines[0], &w);
    assert_eq!(header[0], "IDX");
    assert_eq!(header[6], "UID");
    let hdmi = split_cells(lines[2], &w);
    assert_eq!(hdmi[1], ">");
    assert_eq!(hdmi[3], "hdmi");
    assert_eq!(hdmi[5], "DELL U3219Q");
    assert_eq!(w.cols[3], 11);
}

#[test]
fn test_non_selectable_row_dimmed() {
    let mut devices = sample_devices();
    devices.push(OutputDevice {
        id: 4,
        uid: "zoom.us:0".into(),
        name: "ZoomAudioDevice".into(),
        transport: TransportKind::Virtual,
        is_alive: true,
        is_default: false,
        is_active: false,
        monitor_name: None,
    });
    let table = format_table_with_color(&devices, true);
    let zoom_line = table.lines().last().unwrap();
    assert!(zoom_line.starts_with(ANSI_DIM));
}

#[test]
fn test_active_row_colored_when_enabled() {
    let table = format_table_with_color(&sample_devices(), true);
    let active_line = table.lines().nth(2).unwrap();
    assert!(active_line.starts_with(ANSI_GREEN));
    assert!(active_line.ends_with(ANSI_RESET));
}

#[test]
fn test_no_color_when_disabled() {
    let table = format_table_with_color(&sample_devices(), false);
    assert!(!table.contains(ANSI_GREEN));
}

#[test]
fn test_detail_rows_align_value_column() {
    let rows = [("config volume", "13%"), ("volume", "13%"), ("note", "hello")];
    let lines = format_detail_rows("  ", &rows);
    let value_starts: Vec<usize> = lines.iter().map(|line| line.find(": ").unwrap() + 2).collect();
    assert!(value_starts.windows(2).all(|w| w[0] == w[1]));
    assert_eq!(lines[1], "  volume       : 13%");
}

#[test]
fn test_system_default_block() {
    let block = format_system_default_block(&SystemDefaultInfo {
        uid: "EQMOutputCapture".into(),
        name: "DELL U3219Q (eqMac)".into(),
        transport: TransportKind::Virtual,
        manufacturer: Some("Bitgapp Ltd".into()),
        model_uid: Some("EQMOutputCapture".into()),
        router: Some("eqMac".into()),
        driver: Some(HalDriverInfo {
            name: "eqMac".into(),
            bundle_id: "com.bitgapp.eqmac.driver".into(),
            version: Some("2.6.0".into()),
            stage: None,
            install_path: "/Library/Audio/Plug-Ins/HAL/eqMac.driver".into(),
        }),
        routed_to_uid: Some("hdmi-uid".into()),
        routed_to_label: Some("HDMI (DELL U3219Q)".into()),
    });
    assert!(block.contains("eqMac 2.6.0"));
    assert!(block.contains("com.bitgapp.eqmac.driver"));
    assert!(block.contains("routing to"));
    assert!(block.contains("HDMI (DELL U3219Q)"));
    let detail_lines: Vec<&str> = block.lines().filter(|line| line.starts_with("  ") && line.contains(": ")).collect();
    let value_starts: Vec<usize> = detail_lines.iter().map(|line| line.find(": ").unwrap() + 2).collect();
    assert!(value_starts.windows(2).all(|w| w[0] == w[1]));
    assert!(block.starts_with("\nSystem default (virtual)\n"));
}

#[test]
fn empty_list_has_note_instead_of_table() {
    assert_eq!(format_table(&[]), "");
    assert_eq!(device_table_text(&[], true, false), "No HDMI-class output devices found.");
    assert_eq!(device_table_text(&[], false, false), "No output devices found.");
}
