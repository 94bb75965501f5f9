use opencadcodec::objects::xrecord::{
    DictionaryCloningFlags, KnownXRecordKind, XRecord, XRecordEntry, XRecordValue, XRecordValueType,
};
use opencadcodec::types::{Handle, Vector3};

#[test]
fn test_xrecord_creation() {
    let xrecord = XRecord::new();
    assert!(xrecord.is_empty());
    assert_eq!(xrecord.cloning_flags, DictionaryCloningFlags::NotApplicable);
}

#[test]
fn test_xrecord_named() {
    let xrecord = XRecord::named("MyRecord");
    assert_eq!(xrecord.name, "MyRecord");
}

#[test]
fn test_xrecord_add_entries() {
    let mut xrecord = XRecord::new();
    xrecord.add_string(1, "Test");
    xrecord.add_double(40, 3.14f64.to_bits());
    xrecord.add_int32(90, 42);
    xrecord.add_bool(290, true);

    assert_eq!(xrecord.len(), 4);
}

#[test]
fn test_xrecord_get_values() {
    let mut xrecord = XRecord::new();
    xrecord.add_string(1, "Hello");
    xrecord.add_double(40, 2.5f64.to_bits());
    xrecord.add_int32(90, 100);

    assert_eq!(xrecord.get_string(1), Some("Hello"));
    assert_eq!(xrecord.get_double(40), Some(2.5f64.to_bits()));
    assert_eq!(xrecord.get_i32(90), Some(100));
    assert_eq!(xrecord.get_string(999), None);
}

#[test]
fn test_xrecord_get_by_code() {
    let mut xrecord = XRecord::new();
    xrecord.add_string(1, "First");
    xrecord.add_string(1, "Second");
    xrecord.add_string(2, "Other");

    let code_1 = xrecord.get_by_code(1);
    assert_eq!(code_1.len(), 2);

    let strings = xrecord.get_strings(1);
    assert_eq!(strings, vec!["First", "Second"]);
}

#[test]
fn test_xrecord_remove_by_code() {
    let mut xrecord = XRecord::new();
    xrecord.add_string(1, "Keep");
    xrecord.add_double(40, 1.0f64.to_bits());
    xrecord.add_double(40, 2.0f64.to_bits());

    xrecord.remove_by_code(40);
    assert_eq!(xrecord.len(), 1);
    assert_eq!(xrecord.get_string(1), Some("Keep"));
}

#[test]
fn test_xrecord_entry_types() {
    let entry = XRecordEntry::string(1, "test");
    assert_eq!(entry.value_type(), XRecordValueType::String);

    let entry = XRecordEntry::double(40, 1.0f64.to_bits());
    assert_eq!(entry.value_type(), XRecordValueType::Double);

    let entry = XRecordEntry::int32(90, 42);
    assert_eq!(entry.value_type(), XRecordValueType::Int32);

    let entry = XRecordEntry::handle(330, Handle::new(100));
    assert_eq!(entry.value_type(), XRecordValueType::ObjectId);
    assert!(entry.has_linked_object());
}

#[test]
fn test_xrecord_point3d() {
    let mut xrecord = XRecord::new();
    xrecord.add_point3d(10, 1.0f64.to_bits(), 2.0f64.to_bits(), 3.0f64.to_bits());

    let entry = xrecord.get(0).unwrap();
    assert_eq!(
        entry.value.as_point3d(),
        Some((1.0f64.to_bits(), 2.0f64.to_bits(), 3.0f64.to_bits()))
    );
}

#[test]
fn test_xrecord_get_references() {
    let mut xrecord = XRecord::new();
    xrecord.add_handle(330, Handle::new(100));
    xrecord.add_string(1, "text");
    xrecord.add_handle(340, Handle::new(200));

    let refs = xrecord.get_references();
    assert_eq!(refs.len(), 2);
    assert!(refs.contains(&Handle::new(100)));
    assert!(refs.contains(&Handle::new(200)));
}

#[test]
fn test_cloning_flags() {
    assert_eq!(
        DictionaryCloningFlags::from_value(0),
        DictionaryCloningFlags::NotApplicable
    );
    assert_eq!(
        DictionaryCloningFlags::from_value(1),
        DictionaryCloningFlags::KeepExisting
    );
    assert_eq!(
        DictionaryCloningFlags::from_value(2),
        DictionaryCloningFlags::UseClone
    );
    assert_eq!(DictionaryCloningFlags::KeepExisting.to_value(), 1);
}

#[test]
fn test_value_type_from_code() {
    assert_eq!(XRecordValueType::from_code(1), XRecordValueType::String);
    assert_eq!(XRecordValueType::from_code(10), XRecordValueType::Point3D);
    assert_eq!(XRecordValueType::from_code(40), XRecordValueType::Double);
    assert_eq!(XRecordValueType::from_code(90), XRecordValueType::Int32);
    assert_eq!(XRecordValueType::from_code(290), XRecordValueType::Bool);
    assert_eq!(XRecordValueType::from_code(330), XRecordValueType::ObjectId);
}

#[test]
fn cloning_flags_out_of_range_are_not_applicable() {
    assert_eq!(DictionaryCloningFlags::from_value(6), DictionaryCloningFlags::NotApplicable);
    assert_eq!(DictionaryCloningFlags::from_value(-1), DictionaryCloningFlags::NotApplicable);
    assert_eq!(DictionaryCloningFlags::from_value(5), DictionaryCloningFlags::UnmangleName);
    assert_eq!(DictionaryCloningFlags::UnmangleName.to_code(), 5);
    for value in 0..=5i16 {
        assert_eq!(DictionaryCloningFlags::from_value(value).to_value(), value);
    }
}

#[test]
fn handle_codes_are_handles() {
    assert!(XRecordValueType::from_code(320).is_handle());
    assert!(XRecordValueType::from_code(330).is_handle());
    assert!(XRecordValueType::from_code(1005).is_handle());
    assert!(!XRecordValueType::from_code(1).is_handle());
}

#[test]
fn known_kinds_ignore_case() {
    assert_eq!(KnownXRecordKind::from_name("acad_xrec_roundtrip"), KnownXRecordKind::XrecordRoundTrip);
    assert_eq!(KnownXRecordKind::from_name("DWGPROPS"), KnownXRecordKind::DrawingProperties);
    assert_eq!(KnownXRecordKind::from_name("no such record"), KnownXRecordKind::Unknown);
}

#[test]
fn named_record_kind_follows_its_name() {
    let record = XRecord::named("ADSK_XREC_SUBDVERTEXTEXCOORDS");
    assert_eq!(record.known_kind(), KnownXRecordKind::MeshTextureCoordinates);
}

#[test]
fn section_written_then_read_back() {
    let mut record = XRecord::new();
    record.add_string(1, "before");
    record.set_section("DATA", vec![XRecordEntry::int32(90, 7), XRecordEntry::string(1, "inner")]);
    let section = record.section("DATA").unwrap();
    assert_eq!(section.entries.len(), 2);
    assert_eq!(section.entries[0].value.as_i32(), Some(7));
    assert_eq!(section.entries[1].value.as_string(), Some("inner"));
    assert_eq!(record.get_string(1), Some("before"));
    assert!(record.section("OTHER").is_none());
}

#[test]
fn section_replaced_keeps_one_copy() {
    let mut record = XRecord::new();
    record.set_section("DATA", vec![XRecordEntry::int32(90, 1)]);
    record.set_section("DATA", vec![XRecordEntry::int32(90, 2)]);
    let sections = record.sections();
    assert_eq!(sections.len(), 1);
    assert_eq!(sections[0].entries[0].value.as_i32(), Some(2));
}

#[test]
fn mesh_texture_coordinates_roundtrip() {
    let mut record = XRecord::new();
    let coords = [
        Vector3::new(0.5f64.to_bits(), 0.25f64.to_bits(), 0),
        Vector3::new(1.0f64.to_bits(), 0, 0),
    ];
    record.set_mesh_texture_coordinates(&coords);
    assert_eq!(record.mesh_texture_coordinates(), coords.to_vec());
}

#[test]
fn mesh_texture_coordinates_keep_other_entries_in_order() {
    let mut record = XRecord::new();
    record.add_int32(90, 1);
    record.entries.push(XRecordEntry::double(43, 7));
    record.add_int32(91, 2);
    record.entries.push(XRecordEntry::double(44, 8));
    record.add_int32(92, 3);
    let coords = [Vector3::new(1.0f64.to_bits(), 2.0f64.to_bits(), 3.0f64.to_bits())];
    record.set_mesh_texture_coordinates(&coords);
    let others: Vec<i32> = record.entries.iter().filter(|e| !(43..=45).contains(&e.code)).map(|e| e.code).collect();
    assert_eq!(others, vec![90, 91, 92]);
    assert_eq!(record.entries.len(), 6);
    assert_eq!(record.mesh_texture_coordinates(), coords.to_vec());
}

#[test]
fn annotation_scale_roundtrip() {
    let mut record = XRecord::new();
    assert_eq!(record.annotation_scale_handle(), None);
    record.set_annotation_scale_handle(Handle::new(0x2a));
    assert_eq!(record.annotation_scale_handle(), Some(Handle::new(0x2a)));
}

#[test]
fn viewport_override_readback() {
    let mut record = XRecord::new();
    record.set_layer_viewport_override("ADSK_XREC_LAYER_COLOR_OVR", 62, Handle::new(5), XRecordValue::Int16(3));
    let overrides = record.layer_viewport_overrides(62);
    assert_eq!(overrides.len(), 1);
    assert_eq!(overrides[0].0, Handle::new(5));
    assert_eq!(overrides[0].1, XRecordValue::Int16(3));
}

#[test]
fn references_follow_handle_entries() {
    let mut record = XRecord::new();
    record.add_handle(340, Handle::new(9));
    record.synchronize_object_references();
    assert_eq!(record.object_references.len(), 1);
    assert_eq!(record.object_references[0].handle, Handle::new(9));
}

#[test]
fn section_appended_after_other_sections() {
    let mut record = XRecord::new();
    record.set_section("FIRST", vec![XRecordEntry::int32(90, 1)]);
    record.set_section("SECOND", vec![XRecordEntry::int32(90, 2)]);
    let sections = record.sections();
    assert_eq!(sections.len(), 2);
    assert_eq!(sections[0].name, "FIRST");
    assert_eq!(sections[1].name, "SECOND");
    let second = record.section("second").unwrap();
    assert_eq!(second.entries[0].value.as_i32(), Some(2));
}

#[test]
fn known_kind_names_are_not_trimmed() {
    assert_eq!(KnownXRecordKind::from_name(" DWGPROPS"), KnownXRecordKind::Unknown);
    assert_eq!(KnownXRecordKind::from_name("dwgprops"), KnownXRecordKind::DrawingProperties);
    assert_eq!(KnownXRecordKind::from_name("DwgProps"), KnownXRecordKind::from_name("DWGPROPS"));
}
