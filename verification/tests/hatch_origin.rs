use opencadcodec::entities::{EntityCommon, Hatch, HatchPattern};
use opencadcodec::types::{Vector2, Vector3};
use opencadcodec::xdata::{ExtendedDataRecord, XDataValue};

fn hatch() -> Hatch {
    Hatch {
        common: EntityCommon::new(),
        pattern: HatchPattern { name: "ANSI31".to_string(), lines: vec![] },
    }
}

fn point(x: f64, y: f64) -> Vector2 {
    Vector2::new(x.to_bits(), y.to_bits())
}

#[test]
fn absent_origin_is_zero() {
    let h = hatch();
    assert_eq!(h.stored_pattern_origin(), None);
    assert_eq!(h.pattern_origin(), Vector2::new(0, 0));
}

#[test]
fn recorded_origin_reads_back() {
    let mut h = hatch();
    assert!(h.record_pattern_origin(point(1.5, -2.0)));
    assert_eq!(h.stored_pattern_origin(), Some(point(1.5, -2.0)));
    assert_eq!(h.pattern_origin(), point(1.5, -2.0));
    assert!(h.record_pattern_origin(point(3.0, 4.0)));
    assert_eq!(h.pattern_origin(), point(3.0, 4.0));
    let record = h.common.extended_data.get_record("ACAD").unwrap();
    assert_eq!(record.values.len(), 1);
    assert_eq!(
        record.values[0],
        XDataValue::Point3D(Vector3::new(3.0f64.to_bits(), 4.0f64.to_bits(), 0))
    );
}

#[test]
fn non_finite_origin_is_refused() {
    let mut h = hatch();
    assert!(!h.record_pattern_origin(point(f64::NAN, 0.0)));
    assert!(!h.record_pattern_origin(point(0.0, f64::INFINITY)));
    assert!(h.common.extended_data.records.is_empty());
}

#[test]
fn nested_points_are_not_the_origin() {
    let mut h = hatch();
    let mut record = ExtendedDataRecord::new("ACAD");
    record.values.push(XDataValue::ControlString("{".to_string()));
    record.values.push(XDataValue::Point3D(Vector3::new(7.0f64.to_bits(), 7.0f64.to_bits(), 0)));
    record.values.push(XDataValue::ControlString("}".to_string()));
    h.common.extended_data.upsert_record(record);
    assert_eq!(h.stored_pattern_origin(), None);
    assert!(h.record_pattern_origin(point(1.0, 2.0)));
    assert_eq!(h.stored_pattern_origin(), Some(point(1.0, 2.0)));
    let record = h.common.extended_data.get_record("ACAD").unwrap();
    assert_eq!(record.values.len(), 4);
    assert_eq!(
        record.values[1],
        XDataValue::Point3D(Vector3::new(7.0f64.to_bits(), 7.0f64.to_bits(), 0))
    );
}

#[test]
fn other_applications_are_kept() {
    let mut h = hatch();
    let mut other = ExtendedDataRecord::new("MYAPP");
    other.values.push(XDataValue::Integer32(5));
    h.common.extended_data.upsert_record(other);
    assert!(h.record_pattern_origin(point(1.0, 1.0)));
    let kept = h.common.extended_data.get_record("MYAPP").unwrap();
    assert_eq!(kept.values, vec![XDataValue::Integer32(5)]);
    assert_eq!(h.common.extended_data.records.len(), 2);
}

#[test]
fn infinite_stored_origin_is_ignored() {
    let mut h = hatch();
    let mut record = ExtendedDataRecord::new("ACAD");
    record.values.push(XDataValue::Point3D(Vector3::new(f64::INFINITY.to_bits(), 0, 0)));
    h.common.extended_data.upsert_record(record);
    assert_eq!(h.stored_pattern_origin(), None);
    assert_eq!(h.pattern_origin(), Vector2::new(0, 0));
}
