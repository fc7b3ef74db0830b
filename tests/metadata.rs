use libddcutil2::{
    c_field_len, c_field_text, needs_more_values, BuildOptionFlags, DisplayInfo, DisplayInfoList,
    DisplayPath, DisplayRef, FeatureMetadata, FeatureValue, LibInitOpts, MccsVersion,
    INIT_OPTIONS_DISABLE_CONFIG_FILE, INIT_OPTIONS_ENABLE_INIT_MSGS, IO_MODE_I2C, IO_MODE_USB,
};

fn entry(code: u8, name: Option<&str>) -> FeatureValue {
    FeatureValue { value_code: code, value_name: name.map(|n| n.as_bytes().to_vec()) }
}

fn metadata(table: Vec<FeatureValue>) -> FeatureMetadata {
    FeatureMetadata::new(
        0x60,
        MccsVersion { major: 2, minor: 1 },
        0x0400,
        "Input Source".to_string(),
        "Selects active video source".to_string(),
        table,
    )
}

#[test]
fn value_table_stops_at_terminator() {
    let table = vec![
        entry(0x01, Some("VGA-1")),
        entry(0x0f, Some("DisplayPort-1")),
        entry(0x11, Some("HDMI-1")),
        entry(0x00, None),
        entry(0x99, Some("garbage")),
        entry(0x00, Some("more garbage")),
    ];
    let m = metadata(table);
    let vals = m.sl_values();
    assert_eq!(vals.len(), 3);
    assert_eq!(vals[0].code(), 0x01);
    assert_eq!(vals[2].name(), "HDMI-1");
    assert_eq!(m.feature_code(), 0x60);
    assert_eq!(m.flags(), 0x0400);
    assert_eq!(m.name(), "Input Source");
    assert_eq!(m.description(), "Selects active video source");
    assert_eq!(m.vcp_version(), MccsVersion { major: 2, minor: 1 });
}

#[test]
fn value_table_code_zero_with_name_is_an_entry() {
    let m = metadata(vec![entry(0x00, Some("Off")), entry(0x01, Some("On")), entry(0, None)]);
    assert_eq!(m.sl_values().len(), 2);
}

#[test]
fn value_table_empty_or_unterminated() {
    assert_eq!(metadata(vec![]).sl_values().len(), 0);
    assert_eq!(metadata(vec![entry(0, None)]).sl_values().len(), 0);
    assert_eq!(metadata(vec![entry(5, Some("a")), entry(6, Some("b"))]).sl_values().len(), 2);
}

#[test]
fn value_table_reading_stops() {
    assert!(needs_more_values(&[]));
    assert!(needs_more_values(&[entry(1, Some("a"))]));
    assert!(!needs_more_values(&[entry(1, Some("a")), entry(0, None)]));
    let many: Vec<FeatureValue> = (0..256u32).map(|i| entry((i % 255 + 1) as u8, Some("x"))).collect();
    assert!(!needs_more_values(&many));
    assert!(needs_more_values(&many[..255]));
}

#[test]
fn value_name_fallback() {
    assert_eq!(entry(1, None).name(), "<invalid name>");
    let bad = FeatureValue { value_code: 2, value_name: Some(vec![0xff, 0xfe]) };
    assert_eq!(bad.name(), "<invalid name>");
    assert_eq!(entry(3, Some("Grün")).name(), "Grün");
}

#[test]
fn text_field_stops_at_nul() {
    assert_eq!(c_field_len(b"DEL\0"), 3);
    assert_eq!(c_field_len(b"ABCD"), 4);
    assert_eq!(c_field_len(b"\0xyz"), 0);
    assert_eq!(c_field_text(b"U2720Q\0\0\0junk").as_deref(), Some("U2720Q"));
    assert_eq!(c_field_text(b"ABCD").as_deref(), Some("ABCD"));
    assert_eq!(c_field_text(&[0xc3, 0x28, 0]), None);
}

#[test]
fn display_info_getters() {
    let info = DisplayInfo::new(
        1,
        DisplayPath::from_io_mode(IO_MODE_I2C, 6).unwrap(),
        b"DEL\0".to_vec(),
        b"DELL U2720Q\0\0\0".to_vec(),
        b"ABC123\0\0\0\0\0\0\0\0".to_vec(),
        0xa0f8,
        MccsVersion { major: 2, minor: 1 },
        DisplayRef { token: 0x1000 },
    );
    assert_eq!(info.display_no(), 1);
    assert_eq!(info.path(), DisplayPath::I2C { bus: 6 });
    assert_eq!(info.manufacturer().as_deref(), Some("DEL"));
    assert_eq!(info.model().as_deref(), Some("DELL U2720Q"));
    assert_eq!(info.serial_number().as_deref(), Some("ABC123"));
    assert_eq!(info.product_code(), 0xa0f8);
    assert_eq!(info.vcp_version().to_string(), "2.1");
    assert_eq!(info.dref(), DisplayRef { token: 0x1000 });
    let list = DisplayInfoList::new(vec![info]);
    assert_eq!(list.len(), 1);
    assert_eq!(list.as_slice()[0].display_no(), 1);
    assert!(list.get(0).is_some());
    assert!(list.get(1).is_none());
}

#[test]
fn display_path_modes() {
    assert_eq!(DisplayPath::from_io_mode(IO_MODE_USB, 3), Some(DisplayPath::USB { hiddev_devno: 3 }));
    assert_eq!(DisplayPath::from_io_mode(7, 3), None);
}

#[test]
fn version_text() {
    assert_eq!(MccsVersion { major: 2, minor: 2 }.to_string(), "2.2");
    assert_eq!(MccsVersion { major: 255, minor: 10 }.to_string(), "255.10");
}

#[test]
fn option_sets() {
    let o = LibInitOpts::from(INIT_OPTIONS_DISABLE_CONFIG_FILE)
        .union(LibInitOpts::from(INIT_OPTIONS_ENABLE_INIT_MSGS));
    assert_eq!(o.bits, 5);
    assert!(o.contains(LibInitOpts::from(INIT_OPTIONS_ENABLE_INIT_MSGS)));
    assert!(!o.contains(LibInitOpts::from(2)));
    let p = LibInitOpts::from(INIT_OPTIONS_DISABLE_CONFIG_FILE) | LibInitOpts::from(INIT_OPTIONS_ENABLE_INIT_MSGS);
    assert_eq!(p, o);
    assert!(BuildOptionFlags { bits: 6 }.contains(2));
    assert!(!BuildOptionFlags { bits: 2 }.contains(4));
}
