use opencadcodec::document::CadDocument;
use opencadcodec::io::loft_parameters::{decode, encode, prepared, restore, store_settings};
use opencadcodec::entities::{EntityCommon, EntityType, Surface, SurfaceData};
use opencadcodec::io::read::{ReadOutcome, ReadStats};
use opencadcodec::objects::dictionary::{Dictionary, DynamicBlock, DynamicBlockData, ObjectType, SolidHistoryOperation};
use opencadcodec::entities::embedded_entity::EncodedEntity;
use opencadcodec::objects::solid_history::{SolidHistoryLoft, SolidHistoryLoftParameters};
use opencadcodec::objects::xrecord::{XRecord, XRecordEntry, XRecordValue};
use opencadcodec::types::{DxfVersion, Handle};

const KEY: &str = "CADCODEC_LOFT_OPTIONS_V1";

fn bits(value: f64) -> u64 {
    value.to_bits()
}

fn sample() -> SolidHistoryLoftParameters {
    SolidHistoryLoftParameters {
        normals: 3,
        start_draft_angle: bits(0.25),
        end_draft_angle: bits(-0.5),
        start_magnitude: bits(1.0),
        end_magnitude: bits(2.0),
        start_continuity: 0,
        end_continuity: 1,
        start_bulge: bits(0.5),
        end_bulge: bits(0.75),
        closed: true,
        surface: false,
        align_direction: true,
        periodic: false,
        section_counts: vec![1, 4, 2],
        path_entity: None,
    }
}

#[test]
fn settings_read_back_as_written() {
    let value = sample();
    let record = encode(&value);
    assert_eq!(record.name, KEY);
    assert_eq!(record.entries.len(), 14 + 3);
    assert_eq!(record.entries[0].code, 90);
    assert_eq!(record.entries[1].value, XRecordValue::Int16(3));
    assert_eq!(decode(&record), Some(value));
}

#[test]
fn path_entity_is_chunked_and_read_back() {
    let mut value = sample();
    let bytes: Vec<u8> = (0..300u32).map(|i| (i % 251) as u8).collect();
    value.path_entity = Some(EncodedEntity { type_code: 19, bit_count: 300 * 8 - 3, bytes: bytes.clone() });
    let record = encode(&value);
    let chunks: Vec<usize> = record.entries.iter().filter_map(|e| match &e.value {
        XRecordValue::Chunk(c) if e.code == 310 => Some(c.len()),
        _ => None,
    }).collect();
    assert_eq!(chunks, vec![127, 127, 46]);
    assert_eq!(decode(&record), Some(value));
}

#[test]
fn wrong_version_or_missing_settings_are_rejected() {
    let mut record = encode(&sample());
    record.entries[0] = XRecordEntry::new(90, XRecordValue::Int32(2));
    assert_eq!(decode(&record), None);
    let mut record = encode(&sample());
    record.entries.retain(|e| e.code != 290);
    assert_eq!(decode(&record), None);
}

#[test]
fn optional_settings_take_their_defaults() {
    let mut record = encode(&sample());
    record.entries.retain(|e| !matches!(e.code, 71 | 72 | 44 | 45 | 293));
    let decoded = decode(&record).unwrap();
    assert_eq!(decoded.start_continuity, 1);
    assert_eq!(decoded.end_continuity, 1);
    assert_eq!(decoded.start_bulge, bits(0.5));
    assert_eq!(decoded.end_bulge, bits(0.5));
    assert!(decoded.periodic);
}

#[test]
fn flags_may_be_bytes_or_integers() {
    let mut record = encode(&sample());
    for entry in record.entries.iter_mut() {
        if entry.code == 290 {
            entry.value = XRecordValue::Byte(0);
        }
        if entry.code == 291 {
            entry.value = XRecordValue::Int16(1);
        }
    }
    let decoded = decode(&record).unwrap();
    assert!(!decoded.closed);
    assert!(decoded.surface);
    for entry in record.entries.iter_mut() {
        if entry.code == 292 {
            entry.value = XRecordValue::Byte(2);
        }
    }
    assert_eq!(decode(&record), None);
}

#[test]
fn out_of_range_settings_are_rejected() {
    let mut value = sample();
    value.normals = 7;
    assert_eq!(decode(&encode(&value)), None);
    let mut value = sample();
    value.end_continuity = 2;
    assert_eq!(decode(&encode(&value)), None);
    let mut value = sample();
    value.start_magnitude = bits(-1.0);
    assert_eq!(decode(&encode(&value)), None);
    let mut value = sample();
    value.start_magnitude = bits(-0.0);
    assert!(decode(&encode(&value)).is_some());
    let mut value = sample();
    value.end_draft_angle = bits(f64::INFINITY);
    assert_eq!(decode(&encode(&value)), None);
    let mut value = sample();
    value.section_counts = vec![0];
    assert_eq!(decode(&encode(&value)), None);
    let mut value = sample();
    value.section_counts = vec![100_001];
    assert_eq!(decode(&encode(&value)), None);
}

#[test]
fn path_entity_with_wrong_length_is_rejected() {
    let mut value = sample();
    value.path_entity = Some(EncodedEntity { type_code: 19, bit_count: 17, bytes: vec![1, 2] });
    assert_eq!(decode(&encode(&value)), None);
    value.path_entity = Some(EncodedEntity { type_code: 19, bit_count: 16, bytes: vec![1, 2] });
    assert!(decode(&encode(&value)).is_some());
    let mut record = encode(&value);
    record.add_entry(XRecordEntry::new(310, XRecordValue::Int32(5)));
    assert_eq!(decode(&record), None);
}

fn document_with_loft(record: Option<XRecord>) -> (CadDocument, Handle) {
    let mut doc = CadDocument::with_version(DxfVersion::AC1032);
    let node = doc.allocate_handle();
    let dictionary_handle = doc.allocate_handle();
    let record_handle = doc.allocate_handle();
    let mut dictionary = Dictionary::new();
    dictionary.handle = dictionary_handle;
    dictionary.owner = node;
    if let Some(mut record) = record {
        record.handle = record_handle;
        record.owner = dictionary_handle;
        doc.objects.insert(record_handle.value, ObjectType::XRecord(record));
        dictionary.add_entry(KEY, record_handle);
    }
    doc.objects.insert(dictionary_handle.value, ObjectType::Dictionary(dictionary));
    doc.objects.insert(node.value, ObjectType::DynamicBlock(DynamicBlock {
        handle: node,
        owner: Handle::new(0),
        xdictionary_handle: Some(dictionary_handle),
        data: DynamicBlockData::SolidHistoryNode(SolidHistoryOperation::Loft(SolidHistoryLoft { parameters: None })),
    }));
    (doc, node)
}

fn parameters(doc: &CadDocument, node: Handle) -> Option<SolidHistoryLoftParameters> {
    match doc.objects.get(&node.value) {
        Some(ObjectType::DynamicBlock(DynamicBlock {
            data: DynamicBlockData::SolidHistoryNode(SolidHistoryOperation::Loft(loft)), ..
        })) => loft.parameters.clone(),
        _ => None,
    }
}

#[test]
fn restore_gives_loft_nodes_their_settings() {
    let (mut doc, node) = document_with_loft(Some(encode(&sample())));
    restore(&mut doc);
    assert_eq!(parameters(&doc, node), Some(sample()));
}

#[test]
fn restore_leaves_nodes_without_readable_settings() {
    let (mut doc, node) = document_with_loft(None);
    let before = doc.clone();
    restore(&mut doc);
    assert_eq!(parameters(&doc, node), None);
    assert_eq!(doc, before);
}

#[test]
fn read_outcome_restores_loft_settings() {
    let (doc, node) = document_with_loft(Some(encode(&sample())));
    let outcome = ReadOutcome::new(doc, ReadStats::default());
    assert_eq!(parameters(&outcome.document, node), Some(sample()));
}

/// A document with one loft node that holds settings and has no extension dictionary.
fn document_with_settings(settings: Option<SolidHistoryLoftParameters>) -> (CadDocument, Handle) {
    let mut doc = CadDocument::with_version(DxfVersion::AC1032);
    let node = doc.allocate_handle();
    doc.objects.insert(node.value, ObjectType::DynamicBlock(DynamicBlock {
        handle: node,
        owner: Handle::new(0),
        xdictionary_handle: None,
        data: DynamicBlockData::SolidHistoryNode(SolidHistoryOperation::Loft(SolidHistoryLoft { parameters: settings })),
    }));
    (doc, node)
}

fn clear_parameters(doc: &mut CadDocument, node: Handle) {
    if let Some(ObjectType::DynamicBlock(DynamicBlock {
        data: DynamicBlockData::SolidHistoryNode(SolidHistoryOperation::Loft(loft)), ..
    })) = doc.objects.get_mut(&node.value) {
        loft.parameters = None;
    }
}

#[test]
fn stored_settings_survive_loss_of_the_native_settings() {
    let (mut doc, node) = document_with_settings(Some(sample()));
    store_settings(&mut doc);
    let dictionary = doc.extension_dictionary_handle(node).expect("dictionary");
    match doc.objects.get(&node.value) {
        Some(ObjectType::DynamicBlock(b)) => assert_eq!(b.xdictionary_handle, Some(dictionary)),
        _ => panic!("node missing"),
    }
    clear_parameters(&mut doc, node);
    restore(&mut doc);
    assert_eq!(parameters(&doc, node), Some(sample()));
}

#[test]
fn store_drops_stale_settings_records() {
    let (mut doc, node) = document_with_loft(Some(encode(&sample())));
    store_settings(&mut doc);
    let dictionary = match doc.objects.get(&node.value) {
        Some(ObjectType::DynamicBlock(b)) => b.xdictionary_handle.unwrap(),
        _ => panic!("node missing"),
    };
    match doc.objects.get(&dictionary.value) {
        Some(ObjectType::Dictionary(d)) => assert_eq!(d.get(KEY), None),
        _ => panic!("dictionary missing"),
    }
    restore(&mut doc);
    assert_eq!(parameters(&doc, node), None);
}

#[test]
fn store_reuses_the_node_own_record() {
    let (mut doc, node) = document_with_loft(Some(encode(&sample())));
    if let Some(ObjectType::DynamicBlock(DynamicBlock {
        data: DynamicBlockData::SolidHistoryNode(SolidHistoryOperation::Loft(loft)), ..
    })) = doc.objects.get_mut(&node.value) {
        let mut changed = sample();
        changed.normals = 5;
        loft.parameters = Some(changed);
    }
    let seed = doc.header.handle_seed;
    store_settings(&mut doc);
    assert_eq!(doc.header.handle_seed, seed);
    clear_parameters(&mut doc, node);
    restore(&mut doc);
    assert_eq!(parameters(&doc, node).map(|p| p.normals), Some(5));
}

#[test]
fn prepared_documents_keep_settings_and_history_links() {
    let (mut doc, node) = document_with_settings(Some(sample()));
    let surface = doc.allocate_handle();
    let history = doc.allocate_handle();
    doc.objects.insert(history.value, ObjectType::DynamicBlock(DynamicBlock {
        handle: history,
        owner: surface,
        xdictionary_handle: None,
        data: DynamicBlockData::SolidHistory,
    }));
    let mut common = EntityCommon::new();
    common.handle = surface;
    doc.entities.push(EntityType::Surface(Surface { common, history_handle: Some(history), surface_data: SurfaceData::Other }));
    let mut out = prepared(doc);
    clear_parameters(&mut out, node);
    if let EntityType::Surface(s) = &mut out.entities[0] {
        s.history_handle = None;
    }
    let outcome = ReadOutcome::new(out, ReadStats::default());
    assert_eq!(parameters(&outcome.document, node), Some(sample()));
    match &outcome.document.entities[0] {
        EntityType::Surface(s) => assert_eq!(s.history_handle, Some(history)),
        _ => panic!("not a surface"),
    }
}

#[test]
fn prepared_leaves_documents_without_fallbacks_unchanged() {
    let (doc, _) = document_with_settings(None);
    let before = doc.clone();
    assert_eq!(prepared(doc), before);
}
