use opencadcodec::document::CadDocument;
use opencadcodec::entities::{EntityCommon, EntityType, Surface, SurfaceData};
use opencadcodec::io::extension_dictionary::{cloneable_metadata, has_record, remove_record};
use opencadcodec::io::read::{ReadOutcome, ReadStats};
use opencadcodec::io::surface_history::{has_references, restore, store};
use opencadcodec::objects::dictionary::{Dictionary, DynamicBlock, DynamicBlockData, ObjectType};
use opencadcodec::objects::xrecord::XRecord;
use opencadcodec::types::{DxfVersion, Handle};

const KEY: &str = "CADCODEC_SURFACE_HISTORY_V1";

/// A document with one surface whose history link is kept only as a fallback record.
fn document_with_record(version: i32) -> (CadDocument, Handle, Handle) {
    let mut doc = CadDocument::with_version(DxfVersion::AC1018);
    let surface_handle = doc.allocate_handle();
    let history = doc.allocate_handle();
    let dictionary_handle = doc.allocate_handle();
    let record_handle = doc.allocate_handle();
    doc.objects.insert(
        history.value,
        ObjectType::DynamicBlock(DynamicBlock {
            handle: history,
            owner: surface_handle,
            xdictionary_handle: None,
            data: DynamicBlockData::SolidHistory,
        }),
    );
    let mut record = XRecord::named(KEY);
    record.handle = record_handle;
    record.owner = dictionary_handle;
    record.add_int32(90, version);
    record.add_handle(330, history);
    doc.objects.insert(record_handle.value, ObjectType::XRecord(record));
    let mut dictionary = Dictionary::new();
    dictionary.handle = dictionary_handle;
    dictionary.owner = surface_handle;
    dictionary.add_entry(KEY, record_handle);
    doc.objects.insert(dictionary_handle.value, ObjectType::Dictionary(dictionary));
    doc.xdic_by_handle.insert(surface_handle.value, dictionary_handle.value);
    let mut common = EntityCommon::new();
    common.handle = surface_handle;
    common.xdictionary_handle = Some(dictionary_handle);
    doc.entities.push(EntityType::Surface(Surface { common, history_handle: None, surface_data: SurfaceData::Other }));
    (doc, surface_handle, history)
}

fn history_of(doc: &CadDocument) -> Option<Handle> {
    match &doc.entities[0] {
        EntityType::Surface(s) => s.history_handle,
        _ => None,
    }
}

#[test]
fn fallback_record_restores_the_link() {
    let (mut doc, _, history) = document_with_record(1);
    assert!(has_references(&doc));
    restore(&mut doc);
    assert_eq!(history_of(&doc), Some(history));
}

#[test]
fn unknown_record_version_is_ignored() {
    let (mut doc, _, _) = document_with_record(2);
    restore(&mut doc);
    assert_eq!(history_of(&doc), None);
}

#[test]
fn native_link_has_priority() {
    let (mut doc, _, _) = document_with_record(1);
    if let EntityType::Surface(s) = &mut doc.entities[0] {
        s.history_handle = Some(Handle::new(999));
    }
    restore(&mut doc);
    assert_eq!(history_of(&doc), Some(Handle::new(999)));
}

#[test]
fn history_owned_by_another_entity_is_not_linked() {
    let (mut doc, _, history) = document_with_record(1);
    if let Some(ObjectType::DynamicBlock(root)) = doc.objects.get_mut(&history.value) {
        root.owner = Handle::new(12345);
    }
    restore(&mut doc);
    assert_eq!(history_of(&doc), None);
}

#[test]
fn read_outcome_restores_links() {
    let (doc, _, history) = document_with_record(1);
    let outcome = ReadOutcome::new(doc, ReadStats::default());
    assert_eq!(history_of(&outcome.document), Some(history));
    assert_eq!(outcome.stats, ReadStats::default());
}

#[test]
fn documents_without_surfaces_have_no_references() {
    let doc = CadDocument::with_version(DxfVersion::AC1018);
    assert!(!has_references(&doc));
}

#[test]
fn record_lookup_by_key() {
    let (doc, surface, _) = document_with_record(1);
    let dictionary = doc.extension_dictionary_handle(surface);
    assert!(dictionary.is_some());
    assert!(has_record(&doc, dictionary, KEY));
    assert!(!has_record(&doc, dictionary, "OTHER"));
    assert!(!has_record(&doc, None, KEY));
}

#[test]
fn removed_record_is_deleted() {
    let (mut doc, surface, _) = document_with_record(1);
    let dictionary_handle = doc.extension_dictionary_handle(surface).unwrap();
    let mut dictionary = match doc.objects.get(&dictionary_handle.value) {
        Some(ObjectType::Dictionary(d)) => d.clone(),
        _ => panic!("missing dictionary"),
    };
    let record_handle = dictionary.get(KEY).unwrap();
    dictionary.set_entry_hard_owner(KEY, true);
    let before = doc.objects.len();
    remove_record(&mut doc, &mut dictionary, KEY);
    assert!(dictionary.entries.is_empty());
    assert!(!dictionary.is_entry_hard_owner(KEY));
    assert_eq!(doc.objects.len(), before - 1);
    assert!(!doc.objects.contains_key(&record_handle.value));
}

#[test]
fn shared_record_is_kept() {
    let (mut doc, surface, _) = document_with_record(1);
    let dictionary_handle = doc.extension_dictionary_handle(surface).unwrap();
    let mut dictionary = match doc.objects.get(&dictionary_handle.value) {
        Some(ObjectType::Dictionary(d)) => d.clone(),
        _ => panic!("missing dictionary"),
    };
    let record_handle = dictionary.get(KEY).unwrap();
    let mut other = Dictionary::new();
    other.add_entry("ALSO", record_handle);
    let other_handle = doc.allocate_handle();
    doc.objects.insert(other_handle.value, ObjectType::Dictionary(other));
    remove_record(&mut doc, &mut dictionary, KEY);
    assert!(doc.objects.contains_key(&record_handle.value));
}

#[test]
fn owned_metadata_is_cloneable() {
    let (doc, surface, history) = document_with_record(1);
    let dictionary_handle = doc.extension_dictionary_handle(surface).unwrap();
    assert!(cloneable_metadata(&doc, dictionary_handle, 0));
    assert!(!cloneable_metadata(&doc, dictionary_handle, 129));
    assert!(!cloneable_metadata(&doc, history, 0));
    assert!(!cloneable_metadata(&doc, Handle::new(4242), 0));
}

#[test]
fn owner_of_objects() {
    let (doc, surface, history) = document_with_record(1);
    assert_eq!(doc.object_owner(history), Some(surface));
    assert_eq!(doc.object_owner(Handle::new(4242)), None);
}

/// A document with one surface that links natively to a history root it owns.
fn document_with_link() -> (CadDocument, Handle, Handle) {
    let mut doc = CadDocument::with_version(DxfVersion::AC1032);
    let surface_handle = doc.allocate_handle();
    let history = doc.allocate_handle();
    doc.objects.insert(
        history.value,
        ObjectType::DynamicBlock(DynamicBlock {
            handle: history,
            owner: surface_handle,
            xdictionary_handle: None,
            data: DynamicBlockData::SolidHistory,
        }),
    );
    let mut common = EntityCommon::new();
    common.handle = surface_handle;
    doc.entities.push(EntityType::Surface(Surface { common, history_handle: Some(history), surface_data: SurfaceData::Other }));
    (doc, surface_handle, history)
}

fn stored_record(doc: &CadDocument, surface: Handle) -> Option<XRecord> {
    let dictionary = doc.extension_dictionary_handle(surface)?;
    let record = match doc.objects.get(&dictionary.value) {
        Some(ObjectType::Dictionary(d)) => d.get(KEY)?,
        _ => return None,
    };
    match doc.objects.get(&record.value) {
        Some(ObjectType::XRecord(r)) => Some(r.clone()),
        _ => None,
    }
}

fn drop_native_links(doc: &mut CadDocument) {
    for entity in doc.entities.iter_mut() {
        if let EntityType::Surface(s) = entity {
            s.history_handle = None;
        }
    }
}

#[test]
fn stored_link_survives_loss_of_the_native_link() {
    let (mut doc, surface, history) = document_with_link();
    store(&mut doc);
    let record = stored_record(&doc, surface).expect("record stored");
    assert_eq!(record.get_first_by_code(90).unwrap().value.as_i32(), Some(1));
    assert_eq!(record.get_first_by_code(330).unwrap().value.as_handle(), Some(history));
    let dictionary = doc.extension_dictionary_handle(surface).unwrap();
    assert_eq!(record.owner, dictionary);
    match &doc.entities[0] {
        EntityType::Surface(s) => {
            assert_eq!(s.common.xdictionary_handle, Some(dictionary));
            assert_eq!(s.history_handle, Some(history));
        }
        _ => panic!("not a surface"),
    }
    drop_native_links(&mut doc);
    restore(&mut doc);
    assert_eq!(history_of(&doc), Some(history));
}

#[test]
fn store_drops_a_stale_record() {
    let (mut doc, surface, _) = document_with_record(1);
    if let Some(ObjectType::DynamicBlock(root)) = doc.objects.values_mut().find(|o| matches!(o, ObjectType::DynamicBlock(_))) {
        root.owner = Handle::new(777);
    }
    store(&mut doc);
    assert!(stored_record(&doc, surface).is_none());
    let dictionary = doc.extension_dictionary_handle(surface);
    assert!(!has_record(&doc, dictionary, KEY));
    restore(&mut doc);
    assert_eq!(history_of(&doc), None);
}

#[test]
fn store_reuses_the_surface_own_dictionary_and_record() {
    let (mut doc, surface, history) = document_with_record(1);
    if let EntityType::Surface(s) = &mut doc.entities[0] {
        s.history_handle = Some(history);
    }
    let dictionary = doc.extension_dictionary_handle(surface).unwrap();
    let record_before = match doc.objects.get(&dictionary.value) {
        Some(ObjectType::Dictionary(d)) => d.get(KEY).unwrap(),
        _ => panic!("missing dictionary"),
    };
    let seed = doc.header.handle_seed;
    store(&mut doc);
    assert_eq!(doc.extension_dictionary_handle(surface), Some(dictionary));
    assert_eq!(doc.header.handle_seed, seed);
    match doc.objects.get(&dictionary.value) {
        Some(ObjectType::Dictionary(d)) => {
            assert_eq!(d.get(KEY), Some(record_before));
            assert!(d.is_entry_hard_owner(KEY));
        }
        _ => panic!("missing dictionary"),
    }
}

#[test]
fn a_shared_dictionary_is_copied_for_each_surface() {
    let (mut doc, first, history) = document_with_link();
    let shared = doc.allocate_handle();
    let foreign = doc.allocate_handle();
    let mut dictionary = Dictionary::new();
    dictionary.handle = shared;
    dictionary.owner = first;
    dictionary.add_entry("FOREIGN", foreign);
    doc.objects.insert(shared.value, ObjectType::Dictionary(dictionary));
    doc.xdic_by_handle.insert(first.value, shared.value);
    let second = doc.allocate_handle();
    let second_history = doc.allocate_handle();
    doc.objects.insert(
        second_history.value,
        ObjectType::DynamicBlock(DynamicBlock {
            handle: second_history,
            owner: second,
            xdictionary_handle: None,
            data: DynamicBlockData::SolidHistory,
        }),
    );
    doc.xdic_by_handle.insert(second.value, shared.value);
    let mut common = EntityCommon::new();
    common.handle = second;
    common.xdictionary_handle = Some(shared);
    doc.entities.push(EntityType::Surface(Surface { common, history_handle: Some(second_history), surface_data: SurfaceData::Other }));
    let original = doc.objects.get(&shared.value).cloned();

    store(&mut doc);

    let a = doc.extension_dictionary_handle(first).unwrap();
    let b = doc.extension_dictionary_handle(second).unwrap();
    assert_ne!(a, b);
    assert_eq!(doc.objects.get(&shared.value).cloned(), original);
    assert_eq!(stored_record(&doc, first).unwrap().get_first_by_code(330).unwrap().value.as_handle(), Some(history));
    assert_eq!(stored_record(&doc, second).unwrap().get_first_by_code(330).unwrap().value.as_handle(), Some(second_history));
    for handle in [a, b] {
        match doc.objects.get(&handle.value) {
            Some(ObjectType::Dictionary(d)) => assert_eq!(d.get("FOREIGN"), Some(foreign)),
            _ => panic!("missing dictionary"),
        }
    }
    drop_native_links(&mut doc);
    restore(&mut doc);
    let links: Vec<Option<Handle>> = doc.entities.iter().map(|e| match e {
        EntityType::Surface(s) => s.history_handle,
        _ => None,
    }).collect();
    assert_eq!(links, vec![Some(history), Some(second_history)]);
}

#[test]
fn owned_metadata_is_copied_with_the_dictionary() {
    let (mut doc, surface, history) = document_with_link();
    let other = doc.allocate_handle();
    let shared = doc.allocate_handle();
    let child = doc.allocate_handle();
    let mut record = XRecord::named("CHILD");
    record.handle = child;
    record.owner = shared;
    record.add_int32(90, 7);
    doc.objects.insert(child.value, ObjectType::XRecord(record));
    let mut dictionary = Dictionary::new();
    dictionary.handle = shared;
    dictionary.owner = other;
    dictionary.add_entry("CHILD", child);
    doc.objects.insert(shared.value, ObjectType::Dictionary(dictionary));
    doc.xdic_by_handle.insert(surface.value, shared.value);

    store(&mut doc);

    let mine = doc.extension_dictionary_handle(surface).unwrap();
    assert_ne!(mine, shared);
    let copy = match doc.objects.get(&mine.value) {
        Some(ObjectType::Dictionary(d)) => {
            assert_eq!(d.owner, surface);
            assert!(d.is_entry_hard_owner("CHILD"));
            d.get("CHILD").unwrap()
        }
        _ => panic!("missing dictionary"),
    };
    assert_ne!(copy, child);
    match doc.objects.get(&copy.value) {
        Some(ObjectType::XRecord(r)) => {
            assert_eq!(r.owner, mine);
            assert_eq!(r.get_first_by_code(90).unwrap().value.as_i32(), Some(7));
        }
        _ => panic!("missing copy"),
    }
    match doc.objects.get(&child.value) {
        Some(ObjectType::XRecord(r)) => assert_eq!(r.owner, shared),
        _ => panic!("source changed"),
    }
    assert_eq!(stored_record(&doc, surface).unwrap().get_first_by_code(330).unwrap().value.as_handle(), Some(history));
}

#[test]
fn repeated_keys_of_a_copied_dictionary_keep_their_own_targets() {
    let (mut doc, surface, history) = document_with_link();
    let other = doc.allocate_handle();
    let shared = doc.allocate_handle();
    let child = doc.allocate_handle();
    let foreign = doc.allocate_handle();
    let mut record = XRecord::named("CHILD");
    record.handle = child;
    record.owner = shared;
    record.add_int32(90, 7);
    doc.objects.insert(child.value, ObjectType::XRecord(record));
    let mut dictionary = Dictionary::new();
    dictionary.handle = shared;
    dictionary.owner = other;
    dictionary.entries.push(("DATA".to_string(), child));
    dictionary.entries.push(("DATA".to_string(), foreign));
    doc.objects.insert(shared.value, ObjectType::Dictionary(dictionary));
    doc.xdic_by_handle.insert(surface.value, shared.value);

    store(&mut doc);

    let mine = doc.extension_dictionary_handle(surface).unwrap();
    assert_ne!(mine, shared);
    match doc.objects.get(&mine.value) {
        Some(ObjectType::Dictionary(d)) => {
            assert_eq!(d.entries[0].0, "DATA");
            assert_ne!(d.entries[0].1, child);
            assert_eq!(d.entries[1], ("DATA".to_string(), foreign));
        }
        _ => panic!("missing dictionary"),
    }
    assert_eq!(stored_record(&doc, surface).unwrap().get_first_by_code(330).unwrap().value.as_handle(), Some(history));
}

#[test]
fn store_leaves_unrelated_objects_alone() {
    let (mut doc, surface, _) = document_with_link();
    let unrelated = doc.allocate_handle();
    let mut record = XRecord::named("UNRELATED");
    record.handle = unrelated;
    record.owner = Handle::new(1);
    record.add_int32(90, 3);
    doc.objects.insert(unrelated.value, ObjectType::XRecord(record.clone()));

    store(&mut doc);

    assert!(stored_record(&doc, surface).is_some());
    match doc.objects.get(&unrelated.value) {
        Some(ObjectType::XRecord(r)) => assert_eq!(r, &record),
        _ => panic!("unrelated record lost"),
    }
}
