use libddcutil2::{CapVcp, DisplayCapabilities, FeatureSet, MccsVersion};

fn set_of(codes: &[u8]) -> FeatureSet {
    let mut s = FeatureSet::new();
    for &c in codes {
        s.insert(c);
    }
    s
}

#[test]
fn empty_set_counts_nothing() {
    let mut s = set_of(&[1, 2, 255]);
    assert_eq!(s.count(), 3);
    s.clear();
    assert_eq!(s.count(), 0);
    assert_eq!(FeatureSet::new().count(), 0);
}

#[test]
fn insert_is_idempotent() {
    let mut s = FeatureSet::new();
    s.insert(0x10);
    s.insert(0x10);
    assert_eq!(s.count(), 1);
    assert!(s.contains(0x10));
    assert!(!s.contains(0x11));
}

#[test]
fn bit_layout_matches_native_list() {
    let s = set_of(&[0x00, 0x10, 0x0b, 0xff]);
    let b = s.as_slice();
    assert_eq!(b[0], 0x01);
    assert_eq!(b[1], 0x08);
    assert_eq!(b[2], 0x01);
    assert_eq!(b[31], 0x80);
    let mut raw = [0u8; 32];
    raw[2] = 0x01;
    let t = FeatureSet::from_bytes(raw);
    assert!(t.contains(0x10));
    assert_eq!(t.count(), 1);
}

#[test]
fn set_algebra() {
    let a = set_of(&[1, 2, 3, 200]);
    let b = set_of(&[3, 4, 200, 255]);
    let u = a.or(&b);
    let d = a.and_not(&b);
    let i = a.and(&b);
    for x in 0..=255u8 {
        assert_eq!(u.contains(x), a.contains(x) || b.contains(x));
        assert_eq!(d.contains(x), a.contains(x) && !b.contains(x));
        assert_eq!(i.contains(x), a.contains(x) && b.contains(x));
    }
    assert_eq!(u.count(), 6);
    assert_eq!(d.count(), 2);
    assert_eq!(i.count(), 2);
    assert!(u == set_of(&[1, 2, 3, 4, 200, 255]));
    assert!(a == a);
    assert!(a != b);
}

#[test]
fn set_operators() {
    let a = set_of(&[1, 2, 3]);
    let b = set_of(&[2, 3, 4]);
    assert!(&a | &b == set_of(&[1, 2, 3, 4]));
    assert!(&a & &b == set_of(&[2, 3]));
    assert!(&a - &b == set_of(&[1]));
}

#[test]
fn bitfield_from_capabilities() {
    let caps = DisplayCapabilities::new(
        MccsVersion { major: 2, minor: 2 },
        vec![0x01, 0x02],
        vec![CapVcp::new(0x10, vec![]), CapVcp::new(0x60, vec![0x0f, 0x11]), CapVcp::new(0x10, vec![])],
        vec!["unparsed".to_string()],
    );
    let s = caps.get_feature_bitfield();
    assert_eq!(s.count(), 2);
    assert!(s.contains(0x10) && s.contains(0x60));
    assert_eq!(caps.vcp_codes()[1].values(), &[0x0f, 0x11]);
    assert_eq!(caps.vcp_codes()[1].feature_code(), 0x60);
    assert_eq!(caps.cmd_codes(), &[0x01, 0x02]);
    assert_eq!(caps.get_messages().len(), 1);
    assert_eq!(caps.version(), MccsVersion { major: 2, minor: 2 });
}
