use bencher::ids::{DateTime, ResourceId, ResourceIdKind, TestbedUuid};
use bencher::valid::ValidError;

fn is_v4(bits: u128) -> bool {
    (bits >> 76) & 0xf == 4 && (bits >> 62) & 0x3 == 2
}

#[test]
fn new_testbed_uuid_is_version_4() {
    let a = TestbedUuid::new();
    let b = TestbedUuid::new();
    assert!(is_v4(a.0));
    assert!(is_v4(b.0));
    assert_ne!(a, b);
}

#[test]
fn resource_id_parses_uuid() {
    let id = ResourceId::new("67e55044-10b1-426f-9247-bb680e5fe0c8");
    assert_eq!(
        id.kind(),
        Ok(ResourceIdKind::Uuid(0x67e5504410b1426f9247bb680e5fe0c8))
    );
    let simple = ResourceId::new("67e5504410b1426f9247bb680e5fe0c8");
    assert_eq!(
        simple.kind(),
        Ok(ResourceIdKind::Uuid(0x67e5504410b1426f9247bb680e5fe0c8))
    );
}

#[test]
fn resource_id_falls_back_to_slug() {
    let id = ResourceId::new("localhost");
    assert_eq!(id.kind(), Ok(ResourceIdKind::Slug("localhost".to_owned())));
    let almost = ResourceId::new("67e55044-10b1-426f-9247-bb680e5fe0c");
    assert_eq!(
        almost.kind(),
        Ok(ResourceIdKind::Slug("67e55044-10b1-426f-9247-bb680e5fe0c".to_owned()))
    );
}

#[test]
fn resource_id_neither_uuid_nor_slug_is_refused() {
    assert_eq!(
        ResourceId::new("My Testbed").kind(),
        Err(ValidError::ResourceId("My Testbed".to_owned()))
    );
    assert_eq!(
        ResourceId::new("").kind(),
        Err(ValidError::ResourceId(String::new()))
    );
    assert_eq!(
        ResourceId::new("-leading").kind(),
        Err(ValidError::ResourceId("-leading".to_owned()))
    );
}

#[test]
fn resource_id_kind_from_parsed() {
    assert_eq!(ResourceIdKind::from_parsed("x", Some(7), false), Ok(ResourceIdKind::Uuid(7)));
    assert_eq!(
        ResourceIdKind::from_parsed("x", None, true),
        Ok(ResourceIdKind::Slug("x".to_owned()))
    );
    assert_eq!(
        ResourceIdKind::from_parsed("x", None, false),
        Err(ValidError::ResourceId("x".to_owned()))
    );
}

#[test]
fn now_is_after_the_epoch() {
    let now = DateTime::now().unwrap();
    // 2020-01-01T00:00:00Z
    assert!(now.0 > 1_577_836_800);
}

#[test]
fn epoch_seconds_fit_or_not() {
    assert_eq!(DateTime::from_epoch_seconds(0), Some(DateTime(0)));
    assert_eq!(DateTime::from_epoch_seconds(1_700_000_000), Some(DateTime(1_700_000_000)));
    assert_eq!(DateTime::from_epoch_seconds(i64::MAX as u64), Some(DateTime(i64::MAX)));
    assert_eq!(DateTime::from_epoch_seconds(i64::MAX as u64 + 1), None);
}
