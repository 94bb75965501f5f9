use opencadcodec::entities::proxy_graphics::{ProxyGraphicRecord, ProxyGraphics, ProxyUnicodeText};
use opencadcodec::entities::EntityCommon;
use opencadcodec::types::Vector3;

fn sample_text() -> ProxyUnicodeText {
    ProxyUnicodeText {
        position: Vector3::new(1.0f64.to_bits(), 2.0f64.to_bits(), 0),
        normal: Vector3::new(0, 0, 1.0f64.to_bits()),
        direction: Vector3::new(1.0f64.to_bits(), 0, 0),
        height: 2.5f64.to_bits(),
        width_factor: 1.0f64.to_bits(),
        oblique_angle: 0,
        text: "Héllo".to_string(),
    }
}

#[test]
fn empty_metafile_is_header_only() {
    let graphics = ProxyGraphics { records: vec![] };
    let bytes = graphics.encode().unwrap();
    assert_eq!(bytes, vec![8, 0, 0, 0, 0, 0, 0, 0]);
    assert_eq!(ProxyGraphics::decode(&bytes), Some(graphics));
}

#[test]
fn fill_off_record_bytes() {
    let graphics = ProxyGraphics { records: vec![ProxyGraphicRecord::FillOff] };
    let bytes = graphics.encode().unwrap();
    assert_eq!(bytes, vec![16, 0, 0, 0, 1, 0, 0, 0, 8, 0, 0, 0, 21, 0, 0, 0]);
}

#[test]
fn records_roundtrip() {
    let graphics = ProxyGraphics {
        records: vec![
            ProxyGraphicRecord::FillOff,
            ProxyGraphicRecord::UnicodeText(sample_text()),
            ProxyGraphicRecord::Unknown { record_type: 2, data: vec![1, 2, 3, 4] },
        ],
    };
    let bytes = graphics.encode().unwrap();
    assert_eq!(ProxyGraphics::decode(&bytes), Some(graphics));
}

#[test]
fn truncated_metafile_is_refused() {
    let graphics = ProxyGraphics { records: vec![ProxyGraphicRecord::FillOff] };
    let bytes = graphics.encode().unwrap();
    assert_eq!(ProxyGraphics::decode(&bytes[..12]), None);
    assert_eq!(ProxyGraphics::decode(&[1, 2, 3]), None);
}

#[test]
fn record_count_past_the_end_is_refused() {
    let bytes = vec![8, 0, 0, 0, 1, 0, 0, 0];
    assert_eq!(ProxyGraphics::decode(&bytes), None);
}

#[test]
fn fill_off_with_payload_stays_unknown() {
    let bytes = vec![20, 0, 0, 0, 1, 0, 0, 0, 12, 0, 0, 0, 21, 0, 0, 0, 9, 9, 9, 9];
    let decoded = ProxyGraphics::decode(&bytes).unwrap();
    assert_eq!(
        decoded.records,
        vec![ProxyGraphicRecord::Unknown { record_type: 21, data: vec![9, 9, 9, 9] }]
    );
}

#[test]
fn entity_proxy_graphics_roundtrip() {
    let mut common = EntityCommon::new();
    assert_eq!(common.proxy_graphics(), None);
    let graphics = ProxyGraphics {
        records: vec![ProxyGraphicRecord::UnicodeText(sample_text())],
    };
    assert!(common.set_proxy_graphics(&graphics));
    assert!(common.graphic_data.is_some());
    assert_eq!(common.proxy_graphics(), Some(graphics));
}

#[test]
fn graphics_without_text_reencode_byte_for_byte() {
    // One unknown record with an odd-length payload, a fill-off record, and
    // trailing bytes after the declared total size.
    let mut bytes = vec![25, 0, 0, 0, 2, 0, 0, 0, 9, 0, 0, 0, 7, 0, 0, 0, 0xAB, 8, 0, 0, 0, 21, 0, 0, 0];
    bytes.extend_from_slice(&[9, 9, 9]);
    let graphics = ProxyGraphics::decode(&bytes).unwrap();
    assert_eq!(graphics.encode(), Some(bytes[..25].to_vec()));
}
