use opencadcodec::document::CadDocument;
use opencadcodec::entities::{EntityCommon, EntityType};
use opencadcodec::nested_copy::NestedCopyMode;
use opencadcodec::objects::dictionary::{Dictionary, ObjectType};
use opencadcodec::tables::{Layer, LineType, LineTypeElement};
use opencadcodec::types::{DxfVersion, Handle};

fn dashed(name: &str) -> LineType {
    let mut line = LineType::new(name);
    line.elements = vec![
        LineTypeElement { length: 0.5f64.to_bits(), complex: None },
        LineTypeElement { length: (-0.25f64).to_bits(), complex: None },
    ];
    line
}

fn xref_document_of(version: DxfVersion) -> (CadDocument, Handle) {
    let mut document = CadDocument::with_version(version);
    let xref_handle = document.allocate_handle();
    let mut line_type = dashed("X|Dash");
    line_type.handle = document.allocate_handle();
    line_type.xref_dependent = true;
    line_type.xref_block_record_handle = xref_handle;
    document.line_types.add_or_replace(line_type);
    let mut layer = Layer::new("X|Detail");
    layer.handle = document.allocate_handle();
    layer.line_type = "X|Dash".to_string();
    layer.flags.xref_dependent = true;
    layer.xref_block_record_handle = xref_handle;
    document.layers.add_or_replace(layer);
    (document, xref_handle)
}

fn xref_document() -> (CadDocument, Handle) {
    xref_document_of(DxfVersion::AC1032)
}

fn copied_line() -> EntityType {
    let mut common = EntityCommon::new();
    common.layer = "X|Detail".to_string();
    common.linetype = "X|Dash".to_string();
    EntityType::Line(common)
}

fn localized(mode: NestedCopyMode, linetype: &str, layer: &str) {
    for version in [DxfVersion::AC1018, DxfVersion::AC1024, DxfVersion::AC1027, DxfVersion::AC1032] {
        localized_in(version, mode, linetype, layer);
    }
}

fn localized_in(version: DxfVersion, mode: NestedCopyMode, linetype: &str, layer: &str) {
    let (mut document, xref_handle) = xref_document_of(version);
    let expected_elements = document.line_types.get("X|Dash").unwrap().elements.clone();
    let mut copied_entities = vec![copied_line()];
    let names = document.nested_copy_symbol_names(mode);
    assert_eq!(document.localize_nested_copy_symbols(&mut copied_entities, &names), 0);
    let common = copied_entities[0].common();
    assert_eq!(common.layer, layer);
    assert_eq!(common.linetype, linetype);
    let local = document.line_types.get(linetype).unwrap();
    assert!(!local.xref_dependent);
    assert_eq!(local.xref_block_record_handle, Handle::null());
    assert_eq!(local.elements, expected_elements);
    assert!(!local.handle.is_null());
    assert_eq!(common.linetype_handle, Some(local.handle));
    let source = document.line_types.get("X|Dash").unwrap();
    assert!(source.xref_dependent);
    assert_eq!(source.xref_block_record_handle, xref_handle);
    let new_layer = document.layers.get(layer).unwrap();
    assert!(!new_layer.flags.xref_dependent);
    assert_eq!(new_layer.line_type, linetype);
    assert_eq!(new_layer.xref_block_record_handle, Handle::null());
}

#[test]
fn inserted_linetype_is_local() {
    localized(NestedCopyMode::Insert, "Dash", "Detail");
}

#[test]
fn bound_linetype_is_local() {
    localized(NestedCopyMode::Bind, "X$0$Dash", "X$0$Detail");
}

#[test]
fn default_mode_is_insert() {
    assert_eq!(NestedCopyMode::default(), NestedCopyMode::Insert);
}

#[test]
fn insert_names_take_the_local_part() {
    let (document, _) = xref_document();
    let names = document.nested_copy_symbol_names(NestedCopyMode::Insert);
    assert_eq!(names.layers, vec![("X|DETAIL".to_string(), "Detail".to_string())]);
    assert_eq!(names.line_types, vec![("X|DASH".to_string(), "Dash".to_string())]);
}

#[test]
fn bound_names_skip_used_indices() {
    let (mut document, _) = xref_document();
    document.layers.add_or_replace(Layer::new("x$0$detail"));
    document.layers.add_or_replace(Layer::new("A|B|C"));
    document.layers.add_or_replace(Layer::new("Plain"));
    let names = document.nested_copy_symbol_names(NestedCopyMode::Bind);
    assert_eq!(names.layers, vec![("X|DETAIL".to_string(), "X$1$Detail".to_string())]);
}

#[test]
fn bound_names_are_distinct() {
    let mut document = CadDocument::with_version(DxfVersion::AC1032);
    document.layers.add_or_replace(Layer::new("X|B"));
    document.layers.add_or_replace(Layer::new("X|A"));
    document.layers.add_or_replace(Layer::new("Y|A"));
    let names = document.nested_copy_symbol_names(NestedCopyMode::Bind);
    assert_eq!(
        names.layers,
        vec![
            ("X|A".to_string(), "X$0$A".to_string()),
            ("X|B".to_string(), "X$0$B".to_string()),
            ("Y|A".to_string(), "Y$0$A".to_string()),
        ]
    );
}

#[test]
fn styled_entities_are_retained() {
    let (mut document, _) = xref_document();
    let mut styled = copied_line();
    if let EntityType::Line(common) = &mut styled {
        common.material_handle = Some(Handle::new(77));
    }
    let mut text_common = EntityCommon::new();
    text_common.layer = "X|Detail".to_string();
    let mut entities = vec![styled.clone(), EntityType::Text(text_common.clone())];
    let names = document.nested_copy_symbol_names(NestedCopyMode::Insert);
    assert_eq!(document.localize_nested_copy_symbols(&mut entities, &names), 2);
    assert_eq!(entities[0], styled);
    assert_eq!(entities[1], EntityType::Text(text_common));
    assert!(document.layers.get("Detail").is_none());
}

#[test]
fn local_entities_are_untouched() {
    let (mut document, _) = xref_document();
    let mut entities = vec![EntityType::Circle(EntityCommon::new())];
    let names = document.nested_copy_symbol_names(NestedCopyMode::Insert);
    assert_eq!(document.localize_nested_copy_symbols(&mut entities, &names), 0);
    assert_eq!(entities[0], EntityType::Circle(EntityCommon::new()));
    assert_eq!(document.layers.len(), 1);
}

#[test]
fn unknown_reference_is_retained() {
    let (mut document, _) = xref_document();
    let mut common = EntityCommon::new();
    common.layer = "Y|Missing".to_string();
    let mut entities = vec![EntityType::Line(common)];
    let names = document.nested_copy_symbol_names(NestedCopyMode::Insert);
    assert_eq!(document.localize_nested_copy_symbols(&mut entities, &names), 1);
}

#[test]
fn default_handles_are_normalized() {
    let mut document = CadDocument::with_version(DxfVersion::AC1032);
    let plot_styles = document.allocate_handle();
    let materials = document.allocate_handle();
    let normal = document.allocate_handle();
    let by_layer = document.allocate_handle();
    let mut styles = Dictionary::new();
    styles.add_entry("Normal", normal);
    document.objects.insert(plot_styles.value, ObjectType::DictionaryWithDefault(styles));
    let mut mats = Dictionary::new();
    mats.add_entry("BYLAYER", by_layer);
    document.objects.insert(materials.value, ObjectType::Dictionary(mats));
    document.header.acad_plotstylename_dict_handle = plot_styles;
    document.header.acad_material_dict_handle = materials;
    let mut layer = Layer::new("L");
    layer.plotstyle_handle = normal;
    layer.material = by_layer;
    document.normalize_imported_layer_defaults(&mut layer);
    assert!(layer.plotstyle_handle.is_null());
    assert!(layer.material.is_null());
    let mut other = Layer::new("M");
    other.plotstyle_handle = Handle::new(999);
    document.normalize_imported_layer_defaults(&mut other);
    assert_eq!(other.plotstyle_handle, Handle::new(999));
}

#[test]
fn count_is_the_external_entities_left_unchanged() {
    let (mut document, _) = xref_document();
    let mut styled = copied_line();
    if let EntityType::Line(common) = &mut styled {
        common.plotstyle_handle = Some(Handle::new(9));
    }
    let mut missing = EntityCommon::new();
    missing.layer = "Y|Missing".to_string();
    let originals = vec![copied_line(), styled, EntityType::Line(missing), EntityType::Circle(EntityCommon::new())];
    let mut entities = originals.clone();
    let names = document.nested_copy_symbol_names(NestedCopyMode::Bind);
    let count = document.localize_nested_copy_symbols(&mut entities, &names);
    let unchanged_external = entities.iter().zip(originals.iter()).filter(|(after, before)| {
        let c = before.common();
        (c.layer.contains('|') || c.linetype.contains('|')) && after == before
    }).count();
    assert_eq!(count, 2);
    assert_eq!(count, unchanged_external);
    assert_ne!(entities[0], originals[0]);
    assert!(!entities[0].common().layer.contains('|'));
    assert!(!entities[0].common().linetype.contains('|'));
}
