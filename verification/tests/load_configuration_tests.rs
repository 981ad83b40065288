use lief::pe::load_configuration::{
    CodeIntegrity, Fields, LoadConfigV0, LoadConfigV1, LoadConfigV2, LoadConfigV3, LoadConfigV4,
    LoadConfiguration, Version,
};

const ALL: [Version; 12] = [
    Version::V0,
    Version::V1,
    Version::V2,
    Version::V3,
    Version::V4,
    Version::V5,
    Version::V6,
    Version::V7,
    Version::V8,
    Version::V9,
    Version::V10,
    Version::V11,
];

fn base() -> LoadConfigV0 {
    LoadConfigV0 {
        characteristics: 0x94,
        timedatestamp: 0x5f00_0000,
        security_cookie: 0x1_4000_8000,
        se_handler_table: 0x1_4000_9000,
        se_handler_count: 6,
        ..LoadConfigV0::default()
    }
}

fn guard() -> LoadConfigV1 {
    LoadConfigV1 {
        guard_cf_function_table: 0x1_4000_a000,
        guard_cf_function_count: 17,
        guard_flags: 0x0001_0500,
        ..LoadConfigV1::default()
    }
}

fn integrity() -> LoadConfigV2 {
    LoadConfigV2 {
        code_integrity: CodeIntegrity { flags: 1, catalog: 2, catalog_offset: 3, reserved: 0 },
    }
}

fn jumps() -> LoadConfigV3 {
    LoadConfigV3 {
        guard_long_jump_target_table: 0x1_4000_b000,
        guard_long_jump_target_count: 2,
        ..LoadConfigV3::default()
    }
}

fn record_at_v3() -> LoadConfiguration {
    LoadConfiguration::from_groups(vec![
        Fields::V0(base()),
        Fields::V1(guard()),
        Fields::V2(integrity()),
        Fields::V3(jumps()),
    ])
    .unwrap()
}

#[test]
fn record_at_v3_has_capabilities_v0_to_v3_only() {
    let record = record_at_v3();
    assert_eq!(record.actual_version(), Version::V3);
    for level in ALL {
        let view = record.as_capability(level);
        assert_eq!(view.is_some(), level <= Version::V3, "{:?}", level);
        if let Some(view) = view {
            assert_eq!(view.version(), level);
        }
    }
}

#[test]
fn shared_fields_read_the_same_through_v3_and_v0() {
    let record = record_at_v3();
    let high = record.as_capability(Version::V3).unwrap();
    let low = record.as_capability(Version::V0).unwrap();
    assert_eq!(high.v0(), low.v0());
    assert_eq!(*high.v0(), base());
    assert_eq!(high.v0().se_handler_count, 6);
    assert_eq!(low.v0().security_cookie, 0x1_4000_8000);
}

#[test]
fn a_capability_shows_nothing_above_its_level() {
    let record = record_at_v3();
    let low = record.as_capability(Version::V1).unwrap();
    assert_eq!(low.v1(), Some(&guard()));
    assert_eq!(low.v2(), None);
    assert_eq!(low.v3(), None);
    assert!(low.fields(Version::V2).is_none());
    let high = record.full_view();
    assert_eq!(high.version(), Version::V3);
    assert_eq!(high.v2(), Some(&integrity()));
    assert_eq!(high.v3(), Some(&jumps()));
    assert_eq!(high.v4(), None);
    assert_eq!(high.v11(), None);
}

#[test]
fn widening_goes_down_and_never_up() {
    let record = record_at_v3();
    let at_two = record.as_capability(Version::V2).unwrap();
    let widened = at_two.widen(Version::V1).unwrap();
    assert_eq!(widened.version(), Version::V1);
    assert_eq!(widened.v1(), record.as_capability(Version::V1).unwrap().v1());
    assert_eq!(widened.v0(), at_two.v0());
    assert!(widened.v2().is_none());
    assert_eq!(at_two.widen(Version::V2).unwrap().version(), Version::V2);
    assert!(at_two.widen(Version::V3).is_none());
    assert!(widened.widen(Version::V2).is_none());
}

#[test]
fn fields_are_found_by_revision() {
    let record = record_at_v3();
    let view = record.full_view();
    assert_eq!(view.fields(Version::V0), Some(&Fields::V0(base())));
    assert_eq!(view.fields(Version::V3), Some(&Fields::V3(jumps())));
    assert_eq!(view.fields(Version::V4), None);
    assert_eq!(view.fields(Version::V3).unwrap().version(), Version::V3);
}

#[test]
fn a_record_grows_one_revision_at_a_time() {
    let record = LoadConfiguration::new(base());
    assert_eq!(record.actual_version(), Version::V0);
    let record = record.extended(Fields::V1(guard())).unwrap();
    assert_eq!(record.actual_version(), Version::V1);

    let skipped = record.extended(Fields::V3(jumps()));
    let record = skipped.unwrap_err();
    assert_eq!(record.actual_version(), Version::V1);

    let repeated = record.extended(Fields::V1(guard()));
    let record = repeated.unwrap_err();
    assert_eq!(record.actual_version(), Version::V1);
    assert_eq!(record.full_view().v1(), Some(&guard()));
}

#[test]
fn groups_out_of_order_make_no_record() {
    assert!(LoadConfiguration::from_groups(vec![]).is_none());
    assert!(LoadConfiguration::from_groups(vec![Fields::V1(guard())]).is_none());
    assert!(LoadConfiguration::from_groups(vec![Fields::V0(base()), Fields::V2(integrity())])
        .is_none());
    assert!(LoadConfiguration::from_groups(vec![Fields::V0(base()), Fields::V0(base())])
        .is_none());
    let thirteen = vec![Fields::V4(LoadConfigV4::default()); 13];
    assert!(LoadConfiguration::from_groups(thirteen).is_none());
    assert!(LoadConfiguration::from_groups(vec![Fields::V0(base())]).is_some());
}

#[test]
fn revisions_are_numbered_from_zero() {
    for (place, level) in ALL.iter().enumerate() {
        assert_eq!(level.level(), place);
        assert_eq!(Version::from_level(place), Some(*level));
    }
    assert_eq!(Version::from_level(12), None);
    assert_eq!(Version::from_level(usize::MAX), None);
}
