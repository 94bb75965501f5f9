use opencadcodec::document::CadDocument;
use opencadcodec::io::read::{
    push_read_diagnostic, ReadDiagnostic, ReadStage, ReadStats, SourceFormat, MAX_READ_DIAGNOSTICS,
};
use opencadcodec::notification::NotificationKind;
use opencadcodec::tables::Layer;
use opencadcodec::types::DxfVersion;

#[test]
fn format_and_stage_names() {
    assert_eq!(SourceFormat::Dwg.to_string(), "DWG");
    assert_eq!(SourceFormat::Dxf.to_string(), "DXF");
    assert_eq!(ReadStage::FileHeader.to_string(), "file-header");
    assert_eq!(ReadStage::RecordStream.to_string(), "record-stream");
    assert_eq!(ReadStage::Section.to_string(), "section");
}

#[test]
fn short_message_is_kept_whole() {
    let d = ReadDiagnostic::new("bad-record", ReadStage::Objects, "short");
    assert_eq!(d.code, "bad-record");
    assert_eq!(d.stage, ReadStage::Objects);
    assert_eq!(d.message, "short");
    assert_eq!(d.section, None);
    assert_eq!(d.record_handle, None);
}

#[test]
fn message_at_the_limit_is_kept_whole() {
    let message = "é".repeat(2000);
    let d = ReadDiagnostic::new("c", ReadStage::Header, &message);
    assert_eq!(d.message, message);
}

#[test]
fn long_message_is_truncated() {
    let message = "x".repeat(2500);
    let d = ReadDiagnostic::new("c", ReadStage::Header, &message);
    assert_eq!(d.message, format!("{}… [message truncated]", "x".repeat(2000)));
    assert_eq!(d.message.chars().count(), 2000 + "… [message truncated]".chars().count());
}

#[test]
fn diagnostics_stop_at_the_limit() {
    let mut diagnostics = Vec::new();
    for index in 0..1005 {
        push_read_diagnostic(
            &mut diagnostics,
            ReadDiagnostic::new(format!("d{index}").as_str(), ReadStage::Objects, "m"),
        );
    }
    assert_eq!(diagnostics.len(), MAX_READ_DIAGNOSTICS);
    assert_eq!(diagnostics[998].code, "d998");
    let last = diagnostics.last().unwrap();
    assert_eq!(last.code, "diagnostic-limit-reached");
    assert_eq!(last.stage, ReadStage::RecordStream);
    assert_eq!(last.message, "Additional reader diagnostics were omitted after the safety limit");
}

#[test]
fn default_stats_are_empty() {
    let stats = ReadStats::default();
    assert_eq!(stats.output_records(), 0);
    assert!(!stats.has_usable_drawing_data());
    assert!(!stats.recovered());
    assert_eq!(stats.source_format, None);
}

#[test]
fn output_records_saturate() {
    let mut stats = ReadStats::default();
    stats.output_entities = 3;
    stats.output_objects = 4;
    stats.output_table_records = 5;
    assert_eq!(stats.output_records(), 12);
    stats.output_entities = usize::MAX;
    assert_eq!(stats.output_records(), usize::MAX);
}

#[test]
fn usable_data_needs_decoded_records() {
    let mut stats = ReadStats::default();
    stats.record_stream_read = true;
    stats.source_records = 2;
    assert!(!stats.has_usable_drawing_data());
    stats.decoded_source_records = 1;
    assert!(stats.has_usable_drawing_data());
    stats.record_stream_read = false;
    assert!(!stats.has_usable_drawing_data());
}

#[test]
fn stats_from_document() {
    let mut doc = CadDocument::with_version(DxfVersion::AC1024);
    doc.maintenance_version = 3;
    doc.layers.add_or_replace(Layer::new("0"));
    doc.layers.add_or_replace(Layer::new("Walls"));
    doc.notifications.notify(NotificationKind::Error, "broken");
    doc.notifications.notify(NotificationKind::Warning, "odd");
    assert!(doc.set_drawing_variable("V", "1"));
    let stats = ReadStats::from_document(&doc, SourceFormat::Dwg, 4, 10, 9, 1, true, false, true, vec![]);
    assert_eq!(stats.source_format, Some(SourceFormat::Dwg));
    assert_eq!(stats.source_version, "AC1024");
    assert_eq!(stats.maintenance_version, 3);
    assert_eq!(stats.output_table_records, 2);
    assert_eq!(stats.output_objects, 3);
    assert_eq!(stats.output_entities, 0);
    assert_eq!(stats.recovered_errors, 1);
    assert!(stats.recovered());
    assert!(stats.has_usable_drawing_data());
    assert_eq!(stats.output_records(), 5);
}
