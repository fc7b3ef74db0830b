use libddcutil2::{ConvertToAnyhow, DdcError, ErrorCause, ErrorDetail};

fn cause(code: i32, name: &str, desc: &str, detail: Option<&str>) -> ErrorCause {
    ErrorCause {
        status_code: code,
        name: name.to_string(),
        desc: desc.to_string(),
        detail: detail.map(|d| d.to_string()),
    }
}

#[test]
fn test_to_anyhow() {
    // Make sure the "anyhow" conversion for result compiles
    fn to_anyhow() -> anyhow::Result<()> {
        Err(DdcError::new(
            -1,
            "test".to_string(),
            "error for testing".to_string(),
            None,
        ))
        .anyhow()
    }

    assert!(to_anyhow().is_err());
}

#[test]
fn anyhow_message_is_the_report() {
    let e = DdcError::new(-1, "test".to_string(), "error for testing".to_string(), None);
    let report = e.to_string();
    let a = e.anyhow();
    assert_eq!(a.to_string(), report);
    let ok: Result<u8, DdcError> = Ok(7);
    assert_eq!(ok.anyhow().unwrap(), 7);
    let failed: Result<u8, DdcError> = Err(DdcError::new(-2, "N".to_string(), "D".to_string(), None));
    assert_eq!(failed.anyhow().unwrap_err().to_string(), "DDC Error: N (-2): D\n");
}

#[test]
fn check_success_is_ok() {
    assert!(DdcError::check(0).is_ok());
}

#[test]
fn check_failure_keeps_code() {
    let p = DdcError::check(-3007).unwrap_err();
    assert_eq!(p.rc(), -3007);
}

#[test]
fn matching_detail_is_kept() {
    let p = DdcError::check(-3001).unwrap_err();
    let d = ErrorDetail { status_code: -3001, detail: Some("read failed".to_string()), causes: vec![] };
    let e = p.complete("DDCRC_DATA".to_string(), "DDC data error".to_string(), Some(d));
    assert_eq!(e.rc(), -3001);
    assert_eq!(e.name(), "DDCRC_DATA");
    assert_eq!(e.desc(), "DDC data error");
    assert_eq!(e.detail().as_ref().unwrap().detail.as_deref(), Some("read failed"));
}

#[test]
fn stale_detail_is_rejected() {
    let p = DdcError::check(-3001).unwrap_err();
    let d = ErrorDetail { status_code: -3013, detail: Some("older failure".to_string()), causes: vec![] };
    let e = p.complete("DDCRC_DATA".to_string(), "DDC data error".to_string(), Some(d));
    assert!(e.detail().is_none());
    assert!(e.detail_causes().is_none());
    assert_eq!(e.to_string(), "DDC Error: DDCRC_DATA (-3001): DDC data error\n");
}

#[test]
fn report_without_detail() {
    let e = DdcError::new(-1, "test".to_string(), "error for testing".to_string(), None);
    assert_eq!(e.to_string(), "DDC Error: test (-1): error for testing\n");
}

#[test]
fn report_with_detail_and_causes() {
    let d = ErrorDetail {
        status_code: -3020,
        detail: None,
        causes: vec![
            Some(cause(-3001, "DDCRC_DATA", "data error", Some("bad checksum"))),
            None,
            Some(cause(-2147483648, "MIN", "lowest", None)),
        ],
    };
    let e = DdcError::new(-3020, "DDCRC_RETRIES".to_string(), "too many retries".to_string(), Some(d));
    assert_eq!(e.detail_causes().unwrap().len(), 3);
    assert_eq!(
        e.to_string(),
        "DDC Error: DDCRC_RETRIES (-3020): too many retries\n\
         \x20 Detail: n/a\n\
         \x20 Caused by:\n\
         \x20   DDCRC_DATA (-3001): data error   Detail: bad checksum\n\
         \x20   MIN (-2147483648): lowest   Detail: n/a\n"
    );
}

#[test]
fn report_with_detail_and_no_causes() {
    let d = ErrorDetail { status_code: 5, detail: Some("x".to_string()), causes: vec![] };
    let e = DdcError::new(5, "N".to_string(), "D".to_string(), Some(d));
    assert!(e.detail_causes().is_none());
    assert_eq!(e.to_string(), "DDC Error: N (5): D\n  Detail: x\n");
}
