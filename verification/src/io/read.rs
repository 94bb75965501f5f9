//! What a reader reports besides the document: diagnostics and statistics.

use vstd::prelude::*;
use crate::document::CadDocument;
use crate::notification::{NotificationCollection, errors_in};
use crate::text::{char_at, char_count, push_char};
use crate::types::version_name;
use crate::io::loft_parameters;
use crate::io::loft_parameters::settings_restored_all;
use crate::io::loft_surface_curves::inputs_restored_all;
use crate::entities::entity::EntityType;
use crate::io::surface_history::{apply_links, restored_links, metadata_frame_but_entities};

verus! {

/// Most diagnostics that one read keeps; the last slot holds a note that more were omitted.
pub const MAX_READ_DIAGNOSTICS: usize = 1000;

/// Longest diagnostic message kept whole, in characters.
pub const MAX_DIAGNOSTIC_MESSAGE_CHARS: usize = 2000;

/// File format that was read.
#[derive(Debug, Clone, Copy, PartialEq, Eq, Structural)]
pub enum SourceFormat {
    Dwg,
    Dxf,
}

/// Display name of a source format.
pub open spec fn source_format_name(f: SourceFormat) -> Seq<char> {
    match f {
        SourceFormat::Dwg => "DWG"@,
        SourceFormat::Dxf => "DXF"@,
    }
}

impl SourceFormat {
    /// Display name: "DWG" or "DXF".
    pub fn to_string(&self) -> (r: String)
        ensures
            r@ == source_format_name(*self),
    {
        match self {
            SourceFormat::Dwg => "DWG".to_owned(),
            SourceFormat::Dxf => "DXF".to_owned(),
        }
    }
}

/// Stage of reading at which a diagnostic arose.
#[derive(Debug, Clone, Copy, PartialEq, Eq, Structural)]
pub enum ReadStage {
    FileHeader,
    Classes,
    Header,
    Handles,
    Objects,
    RecordStream,
    Section,
}

/// Display name of a read stage.
pub open spec fn read_stage_name(s: ReadStage) -> Seq<char> {
    match s {
        ReadStage::FileHeader => "file-header"@,
        ReadStage::Classes => "classes"@,
        ReadStage::Header => "header"@,
        ReadStage::Handles => "handles"@,
        ReadStage::Objects => "objects"@,
        ReadStage::RecordStream => "record-stream"@,
        ReadStage::Section => "section"@,
    }
}

impl ReadStage {
    /// Display name, in kebab case.
    pub fn to_string(&self) -> (r: String)
        ensures
            r@ == read_stage_name(*self),
    {
        match self {
            ReadStage::FileHeader => "file-header".to_owned(),
            ReadStage::Classes => "classes".to_owned(),
            ReadStage::Header => "header".to_owned(),
            ReadStage::Handles => "handles".to_owned(),
            ReadStage::Objects => "objects".to_owned(),
            ReadStage::RecordStream => "record-stream".to_owned(),
            ReadStage::Section => "section".to_owned(),
        }
    }
}

/// A problem met while reading, and where it was met.
#[derive(Debug, Clone, PartialEq)]
pub struct ReadDiagnostic {
    pub code: String,
    pub stage: ReadStage,
    pub section: Option<String>,
    pub source_offset: Option<u64>,
    pub source_offset_basis: Option<String>,
    pub source_line: Option<usize>,
    pub record_handle: Option<u64>,
    pub record_type: Option<String>,
    pub message: String,
}

/// Message as a diagnostic keeps it: longer messages are cut to their first
/// 2000 characters and marked as truncated.
pub open spec fn kept_message(m: Seq<char>) -> Seq<char> {
    if m.len() > MAX_DIAGNOSTIC_MESSAGE_CHARS {
        m.subrange(0, MAX_DIAGNOSTIC_MESSAGE_CHARS as int) + "… [message truncated]"@
    } else {
        m
    }
}

impl ReadDiagnostic {
    /// A diagnostic without location details, its message cut to the kept length.
    pub fn new(code: &str, stage: ReadStage, message: &str) -> (d: Self)
        ensures
            d.code@ == code@,
            d.stage == stage,
            d.message@ == kept_message(message@),
            d.section is None,
            d.source_offset is None,
            d.source_offset_basis is None,
            d.source_line is None,
            d.record_handle is None,
            d.record_type is None,
    {
        let n = char_count(message);
        let kept = if n > MAX_DIAGNOSTIC_MESSAGE_CHARS {
            let mut shortened = String::new();
            let mut i: usize = 0;
            while i < MAX_DIAGNOSTIC_MESSAGE_CHARS
                invariant
                    n == message@.len(),
                    n > MAX_DIAGNOSTIC_MESSAGE_CHARS,
                    i <= MAX_DIAGNOSTIC_MESSAGE_CHARS,
                    shortened@ == message@.subrange(0, i as int),
                decreases MAX_DIAGNOSTIC_MESSAGE_CHARS - i,
            {
                push_char(&mut shortened, char_at(message, i));
                i += 1;
                assert(shortened@ =~= message@.subrange(0, i as int));
            }
            shortened.append("… [message truncated]");
            shortened
        } else {
            message.to_owned()
        };
        ReadDiagnostic {
            code: code.to_owned(),
            stage,
            section: None,
            source_offset: None,
            source_offset_basis: None,
            source_line: None,
            record_handle: None,
            record_type: None,
            message: kept,
        }
    }
}

/// The note that stands in the last diagnostic slot once the limit is reached.
pub open spec fn is_limit_note(d: ReadDiagnostic) -> bool {
    &&& d.code@ == "diagnostic-limit-reached"@
    &&& d.stage == ReadStage::RecordStream
    &&& d.message@ == kept_message("Additional reader diagnostics were omitted after the safety limit"@)
    &&& d.section is None
    &&& d.source_offset is None
    &&& d.source_offset_basis is None
    &&& d.source_line is None
    &&& d.record_handle is None
    &&& d.record_type is None
}

/// Keeping one diagnostic `d` turns the list `a` into `b`: below the limit it
/// is appended; at the last free place a note that more were omitted takes its
/// place; once full, nothing changes.
pub open spec fn pushed(a: Seq<ReadDiagnostic>, d: ReadDiagnostic, b: Seq<ReadDiagnostic>) -> bool {
    &&& a.len() < MAX_READ_DIAGNOSTICS - 1 ==> b == a.push(d)
    &&& a.len() == MAX_READ_DIAGNOSTICS - 1 ==> {
        &&& b.len() == MAX_READ_DIAGNOSTICS
        &&& b.drop_last() == a
        &&& is_limit_note(b.last())
    }
    &&& a.len() > MAX_READ_DIAGNOSTICS - 1 ==> b == a
}

/// The list kept from the diagnostics `ds` reported in turn: the first 999 as
/// given, then, when more came, the note that more were omitted.
pub open spec fn kept_run(ds: Seq<ReadDiagnostic>, v: Seq<ReadDiagnostic>) -> bool {
    let n = ds.len();
    &&& v.len() == if n < MAX_READ_DIAGNOSTICS { n } else { MAX_READ_DIAGNOSTICS as nat }
    &&& forall|k: int| 0 <= k < n && k < MAX_READ_DIAGNOSTICS - 1 ==> #[trigger] v[k] == ds[k]
    &&& n >= MAX_READ_DIAGNOSTICS ==> is_limit_note(v[MAX_READ_DIAGNOSTICS - 1])
}

/// Reporting diagnostics one by one into an empty list keeps at most 1000 of
/// them: the first 999 as given and, when more came, the limit note last.
/// `vs[k]` is the list before the diagnostic `ds[k]` is pushed (see
/// `push_read_diagnostic`), `vs[0]` the empty list; the list after the last
/// push has length `min(ds.len(), 1000)`, so every list reached this way
/// holds at most 1000.
pub proof fn law_diagnostics_capped(ds: Seq<ReadDiagnostic>, vs: Seq<Seq<ReadDiagnostic>>)
    requires
        vs.len() == ds.len() + 1,
        vs[0].len() == 0,
        forall|k: int| 0 <= k < ds.len() ==> pushed(#[trigger] vs[k], ds[k], vs[k + 1]),
    ensures
        kept_run(ds, vs[ds.len() as int]),
    decreases ds.len(),
{
    if ds.len() > 0 {
        let n = ds.len() - 1;
        let front = ds.drop_last();
        let vf = vs.drop_last();
        assert forall|k: int| 0 <= k < front.len() implies pushed(#[trigger] vf[k], front[k], vf[k + 1]) by {
            assert(vf[k] == vs[k]);
            assert(vf[k + 1] == vs[k + 1]);
        }
        assert(vf[0] == vs[0]);
        law_diagnostics_capped(front, vf);
        let a = vs[n];
        assert(vf[front.len() as int] == a);
        assert(pushed(vs[n], ds[n], vs[n + 1]));
        let b = vs[n + 1];
        assert forall|k: int| 0 <= k < ds.len() && k < MAX_READ_DIAGNOSTICS - 1 implies #[trigger] b[k] == ds[k] by {
            if k < n {
                assert(a[k] == front[k]);
                if a.len() == MAX_READ_DIAGNOSTICS - 1 {
                    assert(b.drop_last()[k] == a[k]);
                }
            }
        }
        if a.len() >= MAX_READ_DIAGNOSTICS {
            assert(b == a);
        }
    }
}

/// Keep a diagnostic while there is room: the first 999 are kept as given, the
/// next one is replaced by a note that more were omitted, and later ones are
/// dropped (see `pushed`).
pub fn push_read_diagnostic(diagnostics: &mut Vec<ReadDiagnostic>, diagnostic: ReadDiagnostic)
    ensures
        pushed(old(diagnostics)@, diagnostic, final(diagnostics)@),
        old(diagnostics)@.len() <= MAX_READ_DIAGNOSTICS ==> final(diagnostics)@.len() <= MAX_READ_DIAGNOSTICS,
{
    if diagnostics.len() < MAX_READ_DIAGNOSTICS - 1 {
        diagnostics.push(diagnostic);
    } else if diagnostics.len() == MAX_READ_DIAGNOSTICS - 1 {
        diagnostics.push(ReadDiagnostic::new(
            "diagnostic-limit-reached",
            ReadStage::RecordStream,
            "Additional reader diagnostics were omitted after the safety limit",
        ));
        assert(diagnostics@.drop_last() =~= old(diagnostics)@);
    }
}

/// Counts and flags that summarize one read.
#[derive(Debug, Clone, PartialEq)]
pub struct ReadStats {
    pub source_format: Option<SourceFormat>,
    pub source_version: String,
    pub maintenance_version: u8,
    pub recovery_mode: bool,
    pub stream_completed: bool,
    pub source_sections: usize,
    pub source_records: usize,
    pub decoded_source_records: usize,
    pub skipped_source_records: usize,
    pub output_entities: usize,
    pub output_objects: usize,
    pub output_table_records: usize,
    pub recovered_errors: usize,
    pub record_stream_read: bool,
    pub diagnostics: Vec<ReadDiagnostic>,
}

impl Default for ReadStats {
    fn default() -> (r: Self)
        ensures
            r.source_format is None,
            r.source_version@.len() == 0,
            r.maintenance_version == 0,
            !r.recovery_mode,
            !r.stream_completed,
            r.source_sections == 0,
            r.source_records == 0,
            r.decoded_source_records == 0,
            r.skipped_source_records == 0,
            r.output_entities == 0,
            r.output_objects == 0,
            r.output_table_records == 0,
            r.recovered_errors == 0,
            !r.record_stream_read,
            r.diagnostics@.len() == 0,
    {
        ReadStats {
            source_format: None,
            source_version: String::new(),
            maintenance_version: 0,
            recovery_mode: false,
            stream_completed: false,
            source_sections: 0,
            source_records: 0,
            decoded_source_records: 0,
            skipped_source_records: 0,
            output_entities: 0,
            output_objects: 0,
            output_table_records: 0,
            recovered_errors: 0,
            record_stream_read: false,
            diagnostics: Vec::new(),
        }
    }
}

/// Number of symbol-table records of a document, over all of its tables.
pub open spec fn table_record_count(d: &CadDocument) -> nat {
    d.layers.entries@.len() + d.line_types.entries@.len() + d.text_styles.entries@.len()
        + d.block_records.entries@.len() + d.dim_styles.entries@.len() + d.app_ids.entries@.len()
        + d.views.entries@.len() + d.vports.entries@.len() + d.ucss.entries@.len()
        + d.vx_table.entries@.len()
}

/// Every record of each of the ten symbol tables is counted once: layers,
/// linetypes, text styles, block records, dimension styles, application ids,
/// views, viewports, user coordinate systems and visual styles; a document
/// whose tables are all empty counts none, and one more record in any one
/// table counts one more.
pub proof fn law_table_records_counted(a: &CadDocument, b: &CadDocument)
    ensures
        table_record_count(a) >= a.layers.entries@.len() + a.line_types.entries@.len(),
        table_record_count(a) == a.layers.entries@.len() + a.line_types.entries@.len() + a.text_styles.entries@.len()
            + a.block_records.entries@.len() + a.dim_styles.entries@.len() + a.app_ids.entries@.len()
            + a.views.entries@.len() + a.vports.entries@.len() + a.ucss.entries@.len() + a.vx_table.entries@.len(),
        ({
            let same_others = b.text_styles.entries@.len() == a.text_styles.entries@.len()
                && b.block_records.entries@.len() == a.block_records.entries@.len()
                && b.dim_styles.entries@.len() == a.dim_styles.entries@.len()
                && b.app_ids.entries@.len() == a.app_ids.entries@.len()
                && b.views.entries@.len() == a.views.entries@.len()
                && b.vports.entries@.len() == a.vports.entries@.len()
                && b.ucss.entries@.len() == a.ucss.entries@.len()
                && b.vx_table.entries@.len() == a.vx_table.entries@.len();
            &&& same_others && b.layers.entries@.len() == a.layers.entries@.len()
                && b.line_types.entries@.len() == a.line_types.entries@.len() + 1
                ==> table_record_count(b) == table_record_count(a) + 1
            &&& same_others && b.line_types.entries@.len() == a.line_types.entries@.len()
                && b.layers.entries@.len() == a.layers.entries@.len() + 1
                ==> table_record_count(b) == table_record_count(a) + 1
        }),
{
}

/// Source formats and read stages are named as reports show them: `DWG` and
/// `DXF`; the stages in kebab case.
pub proof fn law_report_names()
    ensures
        source_format_name(SourceFormat::Dwg) == "DWG"@,
        source_format_name(SourceFormat::Dxf) == "DXF"@,
        read_stage_name(ReadStage::FileHeader) == "file-header"@,
        read_stage_name(ReadStage::Classes) == "classes"@,
        read_stage_name(ReadStage::Header) == "header"@,
        read_stage_name(ReadStage::Handles) == "handles"@,
        read_stage_name(ReadStage::Objects) == "objects"@,
        read_stage_name(ReadStage::RecordStream) == "record-stream"@,
        read_stage_name(ReadStage::Section) == "section"@,
{
}

/// A message of at most 2000 characters is kept whole; a longer one keeps its
/// first 2000 characters, followed by a marker, and drops the rest.
pub proof fn law_kept_message(m: Seq<char>)
    ensures
        m.len() <= 2000 ==> kept_message(m) == m,
        m.len() > 2000 ==> kept_message(m).subrange(0, 2000) == m.subrange(0, 2000)
            && kept_message(m).len() == 2021 && kept_message(m)[2000] == '…',
{
    if m.len() > 2000 {
        reveal_strlit("… [message truncated]");
        let k = kept_message(m);
        assert(k.subrange(0, 2000) =~= m.subrange(0, 2000));
    }
}

/// Saturating sum in `usize`.
pub open spec fn saturating_sum(a: usize, b: usize) -> usize {
    if a + b > usize::MAX {
        usize::MAX
    } else {
        (a + b) as usize
    }
}

impl ReadStats {
    /// Statistics of a read that produced `document`.
    pub fn from_document(
        document: &CadDocument,
        source_format: SourceFormat,
        source_sections: usize,
        source_records: usize,
        decoded_source_records: usize,
        skipped_source_records: usize,
        record_stream_read: bool,
        recovery_mode: bool,
        stream_completed: bool,
        diagnostics: Vec<ReadDiagnostic>,
    ) -> (r: Self)
        requires
            table_record_count(document) <= usize::MAX,
        ensures
            r.source_format == Some(source_format),
            r.source_version@ == version_name(document.version),
            r.maintenance_version == document.maintenance_version,
            r.recovery_mode == recovery_mode,
            r.stream_completed == stream_completed,
            r.source_sections == source_sections,
            r.source_records == source_records,
            r.decoded_source_records == decoded_source_records,
            r.skipped_source_records == skipped_source_records,
            r.output_entities == document.entities@.len(),
            r.output_objects == document.objects@.len(),
            r.output_table_records == table_record_count(document),
            r.recovered_errors == errors_in(document.notifications.items@),
            r.record_stream_read == record_stream_read,
            r.diagnostics == diagnostics,
    {
        let tables = document.layers.len() + document.line_types.len() + document.text_styles.len()
            + document.block_records.len() + document.dim_styles.len() + document.app_ids.len()
            + document.views.len() + document.vports.len() + document.ucss.len()
            + document.vx_table.len();
        ReadStats {
            source_format: Some(source_format),
            source_version: document.version.name(),
            maintenance_version: document.maintenance_version,
            recovery_mode,
            stream_completed,
            source_sections,
            source_records,
            decoded_source_records,
            skipped_source_records,
            output_entities: document.entities.len(),
            output_objects: document.objects.len(),
            output_table_records: tables,
            recovered_errors: recovered_error_count(&document.notifications),
            record_stream_read,
            diagnostics,
        }
    }

    /// Entities, objects and table records written to the document, saturating at `usize::MAX`.
    pub fn output_records(&self) -> (n: usize)
        ensures
            n == saturating_sum(saturating_sum(self.output_entities, self.output_objects), self.output_table_records),
    {
        self.output_entities.saturating_add(self.output_objects).saturating_add(self.output_table_records)
    }

    /// The record stream was read and yielded decoded records.
    pub fn has_usable_drawing_data(&self) -> (b: bool)
        ensures
            b == (self.record_stream_read && self.source_records > 0 && self.decoded_source_records > 0),
    {
        self.record_stream_read && self.source_records > 0 && self.decoded_source_records > 0
    }

    /// Errors were recovered from while reading.
    pub fn recovered(&self) -> (b: bool)
        ensures
            b == (self.recovered_errors > 0),
    {
        self.recovered_errors > 0
    }
}

/// Number of error notifications raised while reading.
fn recovered_error_count(notifications: &NotificationCollection) -> (n: usize)
    ensures
        n == errors_in(notifications.items@),
{
    notifications.error_count()
}

/// A document read from a file, and the statistics of the read.
#[derive(Debug, Clone, PartialEq)]
pub struct ReadOutcome {
    pub document: CadDocument,
    pub stats: ReadStats,
}

impl ReadOutcome {
    /// Pair a document with its read statistics, after restoring what the
    /// file kept as fallback records (see `loft_parameters::restore`).
    pub fn new(document: CadDocument, stats: ReadStats) -> (r: Self)
        ensures
            r.stats == stats,
            exists|mid: Seq<EntityType>| inputs_restored_all(document.objects@, document.entities@, mid)
                && r.document.entities@ == apply_links(mid, restored_links(document.objects@, document.xdic_by_handle@, mid)),
            settings_restored_all(document.objects@, r.document.objects@),
            r.document.header == document.header,
            r.document.xdic_by_handle == document.xdic_by_handle,
            metadata_frame_but_entities(document, r.document),
    {
        let mut document = document;
        loft_parameters::restore(&mut document);
        ReadOutcome { document, stats }
    }
}

} // verus!
