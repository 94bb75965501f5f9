use opencadcodec::document::CadDocument;
use opencadcodec::entities::embedded_entity::EncodedEntity;
use opencadcodec::entities::{EntityCommon, EntityType, Surface, SurfaceData};
use opencadcodec::io::loft_parameters::{prepared, restore};
use opencadcodec::io::loft_surface_curves::{decode, encode_inputs, has_inputs, store};
use opencadcodec::io::loft_surface_curves::restore as restore_curves;
use opencadcodec::objects::dictionary::{Dictionary, ObjectType};
use opencadcodec::objects::xrecord::{XRecord, XRecordEntry, XRecordValue};
use opencadcodec::types::{DxfVersion, Handle};

const KEY: &str = "CADCODEC_LOFT_CURVES_V1";

type Inputs = (Vec<EncodedEntity>, Vec<EncodedEntity>, Option<EncodedEntity>);

fn entity(type_code: i32, bit_count: usize) -> EncodedEntity {
    let n = (bit_count + 7) / 8;
    EncodedEntity { type_code, bit_count, bytes: (0..n).map(|i| (i % 251) as u8).collect() }
}

fn sample() -> Inputs {
    (vec![entity(17, 20), entity(18, 64)], vec![entity(19, 2400)], Some(entity(20, 9)))
}

fn inputs_of(doc: &CadDocument, index: usize) -> Option<Inputs> {
    match &doc.entities[index] {
        EntityType::Surface(s) => match &s.surface_data {
            SurfaceData::Lofted { cross_section_entities, guide_entities, path_entity } => {
                Some((cross_section_entities.clone(), guide_entities.clone(), path_entity.clone()))
            }
            _ => None,
        },
        _ => None,
    }
}

fn lofted(handle: Handle, xdictionary: Option<Handle>, inputs: Inputs) -> EntityType {
    let mut common = EntityCommon::new();
    common.handle = handle;
    common.xdictionary_handle = xdictionary;
    EntityType::Surface(Surface {
        common,
        history_handle: None,
        surface_data: SurfaceData::Lofted {
            cross_section_entities: inputs.0,
            guide_entities: inputs.1,
            path_entity: inputs.2,
        },
    })
}

fn empty_inputs() -> Inputs {
    (Vec::new(), Vec::new(), None)
}

/// A document with one lofted surface whose native inputs are empty and whose
/// extension dictionary holds the given record under the key.
fn document_with_record(record: XRecord) -> (CadDocument, Handle) {
    let mut doc = CadDocument::with_version(DxfVersion::AC1018);
    let surface = doc.allocate_handle();
    let dictionary_handle = doc.allocate_handle();
    let record_handle = doc.allocate_handle();
    let mut record = record;
    record.handle = record_handle;
    record.owner = dictionary_handle;
    doc.objects.insert(record_handle.value, ObjectType::XRecord(record));
    let mut dictionary = Dictionary::new();
    dictionary.handle = dictionary_handle;
    dictionary.owner = surface;
    dictionary.add_entry(KEY, record_handle);
    doc.objects.insert(dictionary_handle.value, ObjectType::Dictionary(dictionary));
    doc.xdic_by_handle.insert(surface.value, dictionary_handle.value);
    doc.entities.push(lofted(surface, Some(dictionary_handle), empty_inputs()));
    (doc, surface)
}

fn clear_inputs(doc: &mut CadDocument) {
    for e in doc.entities.iter_mut() {
        if let EntityType::Surface(s) = e {
            if let SurfaceData::Lofted { .. } = s.surface_data {
                s.surface_data = SurfaceData::Lofted {
                    cross_section_entities: Vec::new(),
                    guide_entities: Vec::new(),
                    path_entity: None,
                };
            }
        }
    }
}

fn stored_record(doc: &CadDocument, index: usize) -> Option<XRecord> {
    let dictionary = doc.entities[index].common().xdictionary_handle?;
    match doc.objects.get(&dictionary.value) {
        Some(ObjectType::Dictionary(d)) => match doc.objects.get(&d.get(KEY)?.value) {
            Some(ObjectType::XRecord(r)) => Some(r.clone()),
            _ => None,
        },
        _ => None,
    }
}

#[test]
fn inputs_read_back_as_written() {
    let (sections, guides, path) = sample();
    let record = encode_inputs(&sections, &guides, &path);
    assert_eq!(decode(&record), Some(sample()));
}

#[test]
fn record_layout_is_version_then_groups() {
    let (sections, guides, path) = sample();
    let record = encode_inputs(&sections, &guides, &path);
    let codes: Vec<i32> = record.entries.iter().map(|e| e.code).collect();
    assert_eq!(codes[0], 90);
    assert_eq!(record.entries[0].value.as_i32(), Some(1));
    assert_eq!(&codes[1..5], &[70, 91, 92, 310]);
    assert_eq!(record.entries[1].value.as_i32(), Some(0));
    assert_eq!(record.entries[2].value.as_i32(), Some(17));
    assert_eq!(record.entries[3].value.as_i32(), Some(20));
    let roles: Vec<i32> = record.entries.iter().filter(|e| e.code == 70).map(|e| e.value.as_i32().unwrap()).collect();
    assert_eq!(roles, vec![0, 0, 1, 2]);
    // the guide body of 300 bytes is split in chunks of 127 bytes
    let chunks: Vec<usize> = record
        .entries
        .iter()
        .filter_map(|e| match &e.value {
            XRecordValue::Chunk(c) => Some(c.len()),
            _ => None,
        })
        .collect();
    assert_eq!(chunks, vec![3, 8, 127, 127, 46, 2]);
}

#[test]
fn a_record_without_groups_holds_no_inputs() {
    let record = encode_inputs(&Vec::new(), &Vec::new(), &None);
    assert_eq!(record.entries.len(), 1);
    assert_eq!(decode(&record), Some(empty_inputs()));
}

fn group(record: &mut XRecord, role: i16, kind: i32, bits: i32, chunks: &[Vec<u8>]) {
    record.add_int16(70, role);
    record.add_int32(91, kind);
    record.add_int32(92, bits);
    for c in chunks {
        record.add_entry(XRecordEntry::new(310, XRecordValue::Chunk(c.clone())));
    }
}

fn versioned(version: i32) -> XRecord {
    let mut record = XRecord::named(KEY);
    record.add_int32(90, version);
    record
}

#[test]
fn wrong_version_is_rejected() {
    let mut record = versioned(2);
    group(&mut record, 0, 17, 8, &[vec![1]]);
    assert_eq!(decode(&record), None);
    assert_eq!(decode(&XRecord::named(KEY)), None);
}

#[test]
fn malformed_groups_are_rejected() {
    // a zero bit length
    let mut record = versioned(1);
    group(&mut record, 0, 17, 0, &[]);
    assert_eq!(decode(&record), None);
    // too few bytes for the bits
    let mut record = versioned(1);
    group(&mut record, 0, 17, 16, &[vec![1]]);
    assert_eq!(decode(&record), None);
    // too many bytes for the bits
    let mut record = versioned(1);
    group(&mut record, 0, 17, 8, &[vec![1], vec![2]]);
    assert_eq!(decode(&record), None);
    // an unknown role
    let mut record = versioned(1);
    group(&mut record, 3, 17, 8, &[vec![1]]);
    assert_eq!(decode(&record), None);
    // a group cut short
    let mut record = versioned(1);
    record.add_int16(70, 0);
    record.add_int32(91, 17);
    assert_eq!(decode(&record), None);
    // a chunk entry that holds no bytes
    let mut record = versioned(1);
    record.add_int16(70, 0);
    record.add_int32(91, 17);
    record.add_int32(92, 8);
    record.add_int32(310, 5);
    assert_eq!(decode(&record), None);
}

#[test]
fn the_path_is_read_only_once() {
    let mut record = versioned(1);
    group(&mut record, 2, 17, 8, &[vec![1]]);
    assert_eq!(decode(&record), Some((Vec::new(), Vec::new(), Some(EncodedEntity { type_code: 17, bit_count: 8, bytes: vec![1] }))));
    group(&mut record, 2, 18, 8, &[vec![2]]);
    assert_eq!(decode(&record), None);
}

#[test]
fn bodies_may_be_split_in_any_chunks() {
    let mut record = versioned(1);
    group(&mut record, 1, 30, 20, &[vec![1], vec![2, 3]]);
    assert_eq!(
        decode(&record),
        Some((Vec::new(), vec![EncodedEntity { type_code: 30, bit_count: 20, bytes: vec![1, 2, 3] }], None))
    );
}

#[test]
fn restore_gives_lofted_surfaces_their_inputs() {
    let (sections, guides, path) = sample();
    let (mut doc, _) = document_with_record(encode_inputs(&sections, &guides, &path));
    assert!(has_inputs(&doc));
    restore_curves(&mut doc);
    assert_eq!(inputs_of(&doc, 0), Some(sample()));
}

#[test]
fn native_inputs_have_priority() {
    let (sections, guides, path) = sample();
    let (mut doc, surface) = document_with_record(encode_inputs(&sections, &guides, &path));
    let native = (vec![entity(40, 8)], Vec::new(), None);
    let x = doc.entities[0].common().xdictionary_handle;
    doc.entities[0] = lofted(surface, x, native.clone());
    restore_curves(&mut doc);
    assert_eq!(inputs_of(&doc, 0), Some(native));
}

#[test]
fn unreadable_records_leave_surfaces_unchanged() {
    let (mut doc, _) = document_with_record(versioned(2));
    let before = doc.clone();
    restore_curves(&mut doc);
    assert_eq!(doc, before);
}

#[test]
fn documents_without_lofted_surfaces_have_no_inputs() {
    let mut doc = CadDocument::with_version(DxfVersion::AC1018);
    assert!(!has_inputs(&doc));
    let h = doc.allocate_handle();
    doc.entities.push(lofted(h, None, empty_inputs()));
    assert!(!has_inputs(&doc));
    let mut common = EntityCommon::new();
    common.handle = doc.allocate_handle();
    doc.entities.push(EntityType::Surface(Surface { common, history_handle: None, surface_data: SurfaceData::Other }));
    assert!(!has_inputs(&doc));
    doc.entities[0] = lofted(h, None, sample());
    assert!(has_inputs(&doc));
}

#[test]
fn stored_inputs_survive_loss_of_the_native_inputs() {
    let mut doc = CadDocument::with_version(DxfVersion::AC1018);
    let first = doc.allocate_handle();
    let second = doc.allocate_handle();
    doc.entities.push(lofted(first, None, sample()));
    doc.entities.push(lofted(second, None, (Vec::new(), vec![entity(7, 1)], None)));
    store(&mut doc);
    let record = stored_record(&doc, 0).expect("record stored");
    let dictionary = doc.entities[0].common().xdictionary_handle.unwrap();
    assert_eq!(record.owner, dictionary);
    assert_eq!(doc.extension_dictionary_handle(first), Some(dictionary));
    assert_eq!(inputs_of(&doc, 0), Some(sample()));
    assert_ne!(doc.entities[1].common().xdictionary_handle, Some(dictionary));
    clear_inputs(&mut doc);
    restore_curves(&mut doc);
    assert_eq!(inputs_of(&doc, 0), Some(sample()));
    assert_eq!(inputs_of(&doc, 1), Some((Vec::new(), vec![entity(7, 1)], None)));
}

#[test]
fn store_drops_a_stale_inputs_record() {
    let (sections, guides, path) = sample();
    let (mut doc, surface) = document_with_record(encode_inputs(&sections, &guides, &path));
    let dictionary = doc.extension_dictionary_handle(surface).unwrap();
    store(&mut doc);
    assert_eq!(doc.extension_dictionary_handle(surface), Some(dictionary));
    assert!(stored_record(&doc, 0).is_none());
    restore_curves(&mut doc);
    assert_eq!(inputs_of(&doc, 0), Some(empty_inputs()));
}

#[test]
fn store_reuses_the_surface_own_record() {
    let (mut doc, surface) = document_with_record(versioned(1));
    let dictionary = doc.extension_dictionary_handle(surface).unwrap();
    doc.entities[0] = lofted(surface, Some(dictionary), sample());
    let seed = doc.header.handle_seed;
    let record_before = match doc.objects.get(&dictionary.value) {
        Some(ObjectType::Dictionary(d)) => d.get(KEY).unwrap(),
        _ => panic!("missing dictionary"),
    };
    store(&mut doc);
    assert_eq!(doc.header.handle_seed, seed);
    match doc.objects.get(&dictionary.value) {
        Some(ObjectType::Dictionary(d)) => {
            assert_eq!(d.get(KEY), Some(record_before));
            assert!(d.is_entry_hard_owner(KEY));
        }
        _ => panic!("missing dictionary"),
    }
    let (sections, guides, path) = sample();
    assert_eq!(stored_record(&doc, 0).unwrap().entries, encode_inputs(&sections, &guides, &path).entries);
}

#[test]
fn prepared_documents_keep_lofted_inputs() {
    let mut doc = CadDocument::with_version(DxfVersion::AC1018);
    let surface = doc.allocate_handle();
    doc.entities.push(lofted(surface, None, sample()));
    let mut out = prepared(doc);
    assert!(stored_record(&out, 0).is_some());
    clear_inputs(&mut out);
    restore(&mut out);
    assert_eq!(inputs_of(&out, 0), Some(sample()));
}
