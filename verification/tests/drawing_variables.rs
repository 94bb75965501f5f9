use opencadcodec::document::CadDocument;
use opencadcodec::objects::dictionary::ObjectType;
use opencadcodec::objects::xrecord::XRecord;
use opencadcodec::types::{DxfVersion, Handle};

#[test]
fn variable_written_then_read() {
    let mut doc = CadDocument::with_version(DxfVersion::AC1032);
    assert_eq!(doc.drawing_variable("HPORIGIN"), None);
    assert!(doc.set_drawing_variable("HPORIGIN", "1;2"));
    assert_eq!(doc.drawing_variable("HPORIGIN"), Some("1;2"));
    assert_eq!(doc.objects.len(), 3);
    assert!(!doc.header.named_objects_dict_handle.is_null());
}

#[test]
fn rewrite_keeps_handles() {
    let mut doc = CadDocument::with_version(DxfVersion::AC1032);
    assert!(doc.set_drawing_variable("HPORIGIN", "1;2"));
    let root = doc.header.named_objects_dict_handle;
    let seed = doc.header.handle_seed;
    assert!(doc.set_drawing_variable("HPORIGIN", "3;4"));
    assert_eq!(doc.drawing_variable("HPORIGIN"), Some("3;4"));
    assert_eq!(doc.header.named_objects_dict_handle, root);
    assert_eq!(doc.header.handle_seed, seed);
    assert_eq!(doc.objects.len(), 3);
}

#[test]
fn other_variables_are_kept() {
    let mut doc = CadDocument::with_version(DxfVersion::AC1032);
    assert!(doc.set_drawing_variable("A", "first"));
    assert!(doc.set_drawing_variable("B", "second"));
    assert_eq!(doc.drawing_variable("A"), Some("first"));
    assert_eq!(doc.drawing_variable("B"), Some("second"));
    assert_eq!(doc.drawing_variable("C"), None);
    assert_eq!(doc.objects.len(), 4);
}

#[test]
fn empty_name_is_refused() {
    let mut doc = CadDocument::with_version(DxfVersion::AC1032);
    assert!(!doc.set_drawing_variable("", "x"));
    assert!(doc.objects.is_empty());
    assert!(doc.header.named_objects_dict_handle.is_null());
}

#[test]
fn conflicting_root_is_left_intact() {
    let mut doc = CadDocument::with_version(DxfVersion::AC1032);
    let handle = doc.allocate_handle();
    doc.objects.insert(handle.value, ObjectType::XRecord(XRecord::new()));
    doc.header.named_objects_dict_handle = handle;
    assert!(!doc.set_drawing_variable("HPORIGIN", "1;2"));
    assert_eq!(doc.objects.len(), 1);
    assert_eq!(doc.header.named_objects_dict_handle, handle);
    assert_eq!(doc.drawing_variable("HPORIGIN"), None);
}

#[test]
fn dangling_root_is_refused() {
    let mut doc = CadDocument::with_version(DxfVersion::AC1032);
    doc.header.named_objects_dict_handle = Handle::new(1);
    doc.header.handle_seed = 2;
    assert!(!doc.set_drawing_variable("HPORIGIN", "1;2"));
    assert!(doc.objects.is_empty());
}

#[test]
fn rewrite_changes_only_the_variable() {
    let mut doc = CadDocument::with_version(DxfVersion::AC1032);
    assert!(doc.set_drawing_variable("HPORIGIN", "1;2"));
    assert!(doc.set_drawing_variable("OTHER", "x"));
    let before = doc.clone();
    assert!(doc.set_drawing_variable("HPORIGIN", "3;4"));
    assert_eq!(doc.header.handle_seed, before.header.handle_seed);
    assert_eq!(doc.objects.len(), before.objects.len());
    let mut changed = 0;
    for (k, o) in before.objects.iter() {
        if doc.objects.get(k) != Some(o) {
            changed += 1;
            assert!(matches!(doc.objects.get(k), Some(ObjectType::DictionaryVariable(v)) if v.value == "3;4"));
        }
    }
    assert_eq!(changed, 1);
}

#[test]
fn first_variable_creates_a_fresh_root() {
    let mut doc = CadDocument::with_version(DxfVersion::AC1032);
    let seed = doc.header.handle_seed;
    assert!(doc.set_drawing_variable("HPORIGIN", "1;2"));
    assert_eq!(doc.header.named_objects_dict_handle, Handle::new(seed));
    assert!(matches!(doc.objects.get(&seed), Some(ObjectType::Dictionary(_))));
    for k in doc.objects.keys() {
        assert!(seed <= *k && *k < doc.header.handle_seed);
    }
}
