use libddcutil2::{
    Action, DdcError, Display, DisplayIdentifier, DisplayInfo, DisplayPath, DisplayRef, Event,
    MccsVersion, Stage,
};

fn error(rc: i32) -> DdcError {
    DdcError::new(rc, "E".to_string(), "failure".to_string(), None)
}

#[test]
fn identifier_resolves_and_opens() {
    let id = DisplayIdentifier::I2cBus(6);
    assert!(id.is_valid());
    let (d, a) = Display::from_identifier(id);
    assert!(matches!(a, Action::CreateIdentifier(DisplayIdentifier::I2cBus(6))));
    let (d, a) = d.step(Event::IdentifierCreated(Ok(11)));
    assert!(matches!(a, Action::ResolveIdentifier { did: 11 }));
    let (d, a) = d.step(Event::IdentifierResolved(Ok(DisplayRef { token: 22 })));
    assert!(matches!(a, Action::FreeIdentifier { did: 11 }));
    let (d, a) = d.step(Event::IdentifierFreed);
    assert!(matches!(a, Action::OpenDisplay { dref: DisplayRef { token: 22 }, wait: false }));
    let (d, a) = d.step(Event::Opened(Ok(33)));
    assert!(matches!(a, Action::Ready));
    assert_eq!(d.handle(), Some(33));
    assert!(d.is_open());
    assert_eq!(d.get_display_ref(), Some(DisplayRef { token: 22 }));
}

#[test]
fn resolution_failure_frees_identifier_then_reports() {
    let id = DisplayIdentifier::SerialNumber { manufacturer: None, model: Some("U2720Q".to_string()), serial: None };
    assert!(id.is_valid());
    let (d, _) = Display::from_identifier(id);
    let (d, _) = d.step(Event::IdentifierCreated(Ok(5)));
    let (d, a) = d.step(Event::IdentifierResolved(Err(error(-3020))));
    assert!(matches!(a, Action::FreeIdentifier { did: 5 }));
    let (d, a) = d.step(Event::IdentifierFreed);
    match a {
        Action::Report(e) => assert_eq!(e.rc(), -3020),
        other => panic!("unexpected action {:?}", other),
    }
    assert!(matches!(d.stage(), Stage::Failed));
    assert_eq!(d.handle(), None);
    assert_eq!(d.get_display_ref(), None);
}

#[test]
fn creation_failure_is_reported() {
    let empty = DisplayIdentifier::SerialNumber { manufacturer: None, model: None, serial: None };
    assert!(!empty.is_valid());
    let id = DisplayIdentifier::UsbDevice { bus: 1, device: 2 };
    assert!(id.is_valid());
    let (d, _) = Display::from_identifier(id);
    let (_, a) = d.step(Event::IdentifierCreated(Err(error(-3013))));
    assert!(matches!(a, Action::Report(_)));
}

#[test]
fn open_close_open_reuses_reference() {
    let info = DisplayInfo::new(
        2,
        DisplayPath::I2C { bus: 4 },
        b"GSM\0".to_vec(),
        b"LG\0".to_vec(),
        b"\0".to_vec(),
        1,
        MccsVersion { major: 2, minor: 1 },
        DisplayRef { token: 77 },
    );
    let (d, a) = Display::from_display_info(&info);
    assert!(matches!(a, Action::OpenDisplay { dref: DisplayRef { token: 77 }, wait: false }));
    let (d, _) = d.step(Event::Opened(Ok(1)));
    let (d, a) = d.step(Event::CloseRequested);
    assert!(matches!(a, Action::CloseDisplay { dh: 1 }));
    assert_eq!(d.handle(), None);
    let (d, a) = d.step(Event::Closed);
    assert!(matches!(a, Action::Ready));
    let (d, a) = d.step(Event::OpenRequested { wait: true });
    assert!(matches!(a, Action::OpenDisplay { dref: DisplayRef { token: 77 }, wait: true }));
    let (d, a) = d.step(Event::Opened(Ok(2)));
    assert!(matches!(a, Action::Ready));
    assert_eq!(d.handle(), Some(2));
}

#[test]
fn open_failure_keeps_reference() {
    let (d, _) = Display::from_ref(DisplayRef { token: 9 });
    let (d, a) = d.step(Event::Opened(Err(error(-3024))));
    assert!(matches!(a, Action::Report(_)));
    assert_eq!(d.get_display_ref(), Some(DisplayRef { token: 9 }));
    let (_, a) = d.step(Event::OpenRequested { wait: false });
    assert!(matches!(a, Action::OpenDisplay { dref: DisplayRef { token: 9 }, wait: false }));
}

#[test]
fn unexpected_event_is_ignored() {
    let (d, _) = Display::from_ref(DisplayRef { token: 9 });
    let (d, a) = d.step(Event::Closed);
    assert!(matches!(a, Action::Ignore));
    assert!(matches!(d.stage(), Stage::Opening { dref: DisplayRef { token: 9 } }));
    let (_, a) = d.step(Event::Opened(Ok(4)));
    assert!(matches!(a, Action::Ready));
}
