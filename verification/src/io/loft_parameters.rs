//! Loft settings that the native solid-history loft stream does not hold,
//! kept as a versioned record of the loft node's extension dictionary.

use vstd::prelude::*;
use crate::entities::embedded_entity::{EncodedEntity, EncodedEntityModel};
use crate::objects::solid_history::{LoftParametersModel, SolidHistoryLoftParameters};
use crate::objects::xrecord::{EntryModel, ValueModel, XRecord, XRecordEntry, XRecordValue, first_with_code, first_code_from,
    model_as_i32, model_as_double, lemma_first_code_from};
use crate::types::{bits_finite, is_finite_bits};
use crate::document::{CadDocument, dictionary_at, same_besides_objects};
use crate::io::surface_history;
use crate::io::loft_surface_curves;
use crate::io::loft_surface_curves::inputs_restored_all;
use crate::entities::entity::EntityType;
use crate::io::surface_history::{xrecord_at, apply_links, restored_links, metadata_frame_but_entities};
use crate::objects::dictionary::{DynamicBlock, DynamicBlockData, ObjectType, SolidHistoryOperation, lookup, with_entry, without_key,
    key_index_from, lemma_key_index_from, lemma_without_key, law_lookup_after_add_entry};
use crate::objects::xrecord::{copy_vec, copy_bytes, refers_to, model_as_handle};
use crate::io::metadata_copy::{objects_kept_but, object_writable, block_dictionary, writable_dictionary, known_closed, lemma_known_closed, lemma_known_closed_grow,
    lemma_among_within, shared_dictionary, opt_among, among, refs_among, copyable_kind};
use crate::io::extension_dictionary::{has_record, has_record_spec, remove_record};
use crate::io::surface_history::{extension_of, lemma_refs_among_grow};
use crate::document::{lemma_objects_wf_grow, lemma_objects_wf_insert, lemma_objects_wf_remove, refs_below, opt_below};
use crate::types::Handle;

verus! {

/// Key of the settings record in a loft node's extension dictionary.
pub open spec fn loft_key() -> Seq<char> {
    "CADCODEC_LOFT_OPTIONS_V1"@
}

/// Bit pattern of 0.5, the default bulge.
pub const HALF_BITS: u64 = 0x3FE0_0000_0000_0000u64;

/// Largest number of sections, and of curves in one section.
pub const MAX_SECTIONS: usize = 100_000usize;

/// Largest path-entity body, in bits.
pub const MAX_PATH_BITS: i32 = 67_108_864i32;

/// Value of the first entry with the given code.
pub open spec fn found(es: Seq<EntryModel>, code: i32) -> Option<ValueModel> {
    match first_with_code(es, code) {
        Some(i) => Some(es[i].value),
        None => None,
    }
}

/// Integer of the first entry with the code; none when missing or not an integer.
pub open spec fn int_entry(es: Seq<EntryModel>, code: i32) -> Option<i32> {
    match found(es, code) {
        Some(v) => model_as_i32(v),
        None => None,
    }
}

/// Integer of the first entry with the code, `default` when missing; none when not an integer.
pub open spec fn int_or(es: Seq<EntryModel>, code: i32, default: i32) -> Option<i32> {
    match found(es, code) {
        Some(v) => model_as_i32(v),
        None => Some(default),
    }
}

/// Double of the first entry with the code; none when missing or not a double.
pub open spec fn double_entry(es: Seq<EntryModel>, code: i32) -> Option<u64> {
    match found(es, code) {
        Some(v) => model_as_double(v),
        None => None,
    }
}

/// Double of the first entry with the code, `default` when missing; none when not a double.
pub open spec fn double_or(es: Seq<EntryModel>, code: i32, default: u64) -> Option<u64> {
    match found(es, code) {
        Some(v) => model_as_double(v),
        None => Some(default),
    }
}

/// A flag: a boolean, or a byte or integer of 0 or 1.
pub open spec fn model_boolean(v: ValueModel) -> Option<bool> {
    match v {
        ValueModel::Bool(b) => Some(b),
        _ => match model_as_i32(v) {
            Some(i) => if 0 <= i <= 1 {
                Some(i == 1)
            } else {
                None
            },
            None => None,
        },
    }
}

/// Flag of the first entry with the code; none when missing or not a flag.
pub open spec fn bool_entry(es: Seq<EntryModel>, code: i32) -> Option<bool> {
    match found(es, code) {
        Some(v) => model_boolean(v),
        None => None,
    }
}

/// Flag of the first entry with the code, `default` when missing; none when not a flag.
pub open spec fn bool_or(es: Seq<EntryModel>, code: i32, default: bool) -> Option<bool> {
    match found(es, code) {
        Some(v) => model_boolean(v),
        None => Some(default),
    }
}

/// A binary64 bit pattern of a value below zero (for a finite value: the sign
/// bit set, and not negative zero).
pub open spec fn bits_negative(bits: u64) -> bool {
    bits > 0x8000_0000_0000_0000u64
}

/// Settings in range: normals 0 to 6, continuities 0 or 1, finite angles,
/// magnitudes and bulges, none of the magnitudes and bulges below zero.
pub open spec fn settings_valid(p: LoftParametersModel) -> bool {
    &&& 0 <= p.normals <= 6
    &&& 0 <= p.start_continuity <= 1
    &&& 0 <= p.end_continuity <= 1
    &&& bits_finite(p.start_draft_angle)
    &&& bits_finite(p.end_draft_angle)
    &&& bits_finite(p.start_magnitude)
    &&& bits_finite(p.end_magnitude)
    &&& bits_finite(p.start_bulge)
    &&& bits_finite(p.end_bulge)
    &&& !bits_negative(p.start_magnitude)
    &&& !bits_negative(p.end_magnitude)
    &&& !bits_negative(p.start_bulge)
    &&& !bits_negative(p.end_bulge)
}

/// Section counts of the entries with code 91, in order: each a count from 1
/// to 100000, and at most 100000 of them.
pub open spec fn section_counts_of(es: Seq<EntryModel>) -> Option<Seq<usize>>
    decreases es.len(),
{
    if es.len() == 0 {
        Some(Seq::empty())
    } else {
        match section_counts_of(es.drop_last()) {
            None => None,
            Some(cs) => {
                let e = es.last();
                if e.code != 91 {
                    Some(cs)
                } else {
                    match model_as_i32(e.value) {
                        None => None,
                        Some(v) => if v <= 0 || v > 100_000 || cs.len() >= 100_000 {
                            None
                        } else {
                            Some(cs.push(v as usize))
                        },
                    }
                }
            },
        }
    }
}

/// Bytes of the chunk entries with code 310, in order, when each is a chunk
/// and their total never exceeds `limit`.
pub open spec fn chunks_within(es: Seq<EntryModel>, limit: int) -> Option<Seq<u8>>
    decreases es.len(),
{
    if es.len() == 0 {
        Some(Seq::empty())
    } else {
        match chunks_within(es.drop_last(), limit) {
            None => None,
            Some(bs) => {
                let e = es.last();
                if e.code != 310 {
                    Some(bs)
                } else {
                    match e.value {
                        ValueModel::Chunk(c) => if bs.len() + c.len() > limit {
                            None
                        } else {
                            Some(bs + c)
                        },
                        _ => None,
                    }
                }
            },
        }
    }
}

/// Bytes that hold `bits` bits.
pub open spec fn byte_len(bits: int) -> int {
    (bits + 7) / 8
}

/// The path entity: none without an entry 92; else its type (entry 92), its
/// bit length (entry 93, from 1 to 64 Mi) and the chunk bytes, exactly as
/// many as hold the bits.
pub open spec fn path_of(es: Seq<EntryModel>) -> Option<Option<EncodedEntityModel>> {
    match found(es, 92) {
        None => Some(None),
        Some(tv) => match int_entry(es, 93) {
            None => None,
            Some(b) => if b <= 0 || b > 67_108_864 {
                None
            } else {
                match chunks_within(es, byte_len(b as int)) {
                    None => None,
                    Some(bs) => if bs.len() != byte_len(b as int) {
                        None
                    } else {
                        match model_as_i32(tv) {
                            None => None,
                            Some(t) => Some(Some(EncodedEntityModel { type_code: t, bit_count: b as usize, bytes: bs })),
                        }
                    },
                }
            },
        },
    }
}

/// Settings a record's entries hold: version 1 (entry 90); normals (70),
/// draft angles (40, 41) and magnitudes (42, 43); continuities (71, 72,
/// default 1) and bulges (44, 45, default 0.5); closed, surface and
/// direction flags (290 to 292) and the periodic flag (293, default set);
/// all in range; then the section counts and the path entity.
pub open spec fn decoded(es: Seq<EntryModel>) -> Option<LoftParametersModel> {
    let normals = int_entry(es, 70);
    let sd = double_entry(es, 40);
    let ed = double_entry(es, 41);
    let sm = double_entry(es, 42);
    let em = double_entry(es, 43);
    let sc = int_or(es, 71, 1);
    let ec = int_or(es, 72, 1);
    let sb = double_or(es, 44, HALF_BITS);
    let eb = double_or(es, 45, HALF_BITS);
    let closed = bool_entry(es, 290);
    let surface = bool_entry(es, 291);
    let align = bool_entry(es, 292);
    let periodic = bool_or(es, 293, true);
    if int_entry(es, 90) != Some(1i32) {
        None
    } else if normals is Some && sd is Some && ed is Some && sm is Some && em is Some && sc is Some && ec is Some
        && sb is Some && eb is Some && closed is Some && surface is Some && align is Some && periodic is Some {
        let base = LoftParametersModel {
            normals: normals->0,
            start_draft_angle: sd->0,
            end_draft_angle: ed->0,
            start_magnitude: sm->0,
            end_magnitude: em->0,
            start_continuity: sc->0,
            end_continuity: ec->0,
            start_bulge: sb->0,
            end_bulge: eb->0,
            closed: closed->0,
            surface: surface->0,
            align_direction: align->0,
            periodic: periodic->0,
            section_counts: Seq::empty(),
            path_entity: None,
        };
        if !settings_valid(base) {
            None
        } else {
            match section_counts_of(es) {
                None => None,
                Some(cs) => match path_of(es) {
                    None => None,
                    Some(path) => Some(LoftParametersModel { section_counts: cs, path_entity: path, ..base }),
                },
            }
        }
    } else {
        None
    }
}

/// Value of the first entry with the given code.
fn entry(record: &XRecord, code: i32) -> (r: Option<&XRecordValue>)
    ensures
        match found(record.model(), code) {
            Some(v) => r matches Some(x) && x@ == v,
            None => r is None,
        },
{
    match record.get_first_by_code(code) {
        Some(e) => {
            proof {
                lemma_first_code_from(record.model(), code, 0);
                let i = first_with_code(record.model(), code)->0;
                assert(record.model()[i] == record.entries@[i]@);
            }
            Some(&e.value)
        },
        None => None,
    }
}

/// A flag: a boolean, or a byte or integer of 0 or 1.
fn boolean(value: &XRecordValue) -> (r: Option<bool>)
    ensures
        r == model_boolean(value@),
{
    match value {
        XRecordValue::Bool(b) => Some(*b),
        XRecordValue::Byte(b) => {
            if *b <= 1 {
                Some(*b == 1)
            } else {
                None
            }
        },
        _ => match value.as_i32() {
            Some(i) => {
                if 0 <= i && i <= 1 {
                    Some(i == 1)
                } else {
                    None
                }
            },
            None => None,
        },
    }
}

/// Append the bytes of `src` to `dst`.
pub(crate) fn append_bytes(dst: &mut Vec<u8>, src: &Vec<u8>)
    ensures
        final(dst)@ == old(dst)@ + src@,
{
    let mut i: usize = 0;
    while i < src.len()
        invariant
            i <= src@.len(),
            dst@ == old(dst)@ + src@.take(i as int),
        decreases src@.len() - i,
    {
        dst.push(src[i]);
        assert(src@.take(i + 1) =~= src@.take(i as int).push(src@[i as int]));
        i += 1;
    }
    assert(src@.take(src@.len() as int) =~= src@);
}

/// Section counts of the entries with code 91 (see `section_counts_of`).
fn section_counts(record: &XRecord) -> (r: Option<Vec<usize>>)
    ensures
        match section_counts_of(record.model()) {
            Some(cs) => r matches Some(v) && v@ == cs,
            None => r is None,
        },
{
    let ghost es = record.model();
    let mut counts: Vec<usize> = Vec::new();
    let mut i: usize = 0;
    while i < record.entries.len()
        invariant
            es == record.model(),
            i <= record.entries@.len(),
            section_counts_of(es.take(i as int)) == Some(counts@),
        decreases record.entries@.len() - i,
    {
        proof {
            assert(es.take(i + 1).drop_last() =~= es.take(i as int));
            assert(es.take(i + 1).last() == es[i as int]);
            assert(es[i as int] == record.entries@[i as int]@);
        }
        if record.entries[i].code == 91 {
            let v = match record.entries[i].value.as_i32() {
                Some(v) => v,
                None => {
                    proof {
                        lemma_prefix_none_counts(es, i as int + 1);
                    }
                    return None;
                },
            };
            if v <= 0 || v > 100_000 || counts.len() >= MAX_SECTIONS {
                proof {
                    lemma_prefix_none_counts(es, i as int + 1);
                }
                return None;
            }
            counts.push(v as usize);
        }
        i += 1;
    }
    assert(es.take(es.len() as int) =~= es);
    Some(counts)
}

/// Once a prefix fails to give section counts, the whole sequence fails.
pub proof fn lemma_prefix_none_counts(es: Seq<EntryModel>, k: int)
    requires
        0 <= k <= es.len(),
        section_counts_of(es.take(k)) is None,
    ensures
        section_counts_of(es) is None,
    decreases es.len() - k,
{
    if k < es.len() {
        assert(es.take(k + 1).drop_last() =~= es.take(k));
        lemma_prefix_none_counts(es, k + 1);
    } else {
        assert(es.take(k) =~= es);
    }
}

/// Once a prefix fails to give chunk bytes, the whole sequence fails.
pub proof fn lemma_prefix_none_chunks(es: Seq<EntryModel>, limit: int, k: int)
    requires
        0 <= k <= es.len(),
        chunks_within(es.take(k), limit) is None,
    ensures
        chunks_within(es, limit) is None,
    decreases es.len() - k,
{
    if k < es.len() {
        assert(es.take(k + 1).drop_last() =~= es.take(k));
        lemma_prefix_none_chunks(es, limit, k + 1);
    } else {
        assert(es.take(k) =~= es);
    }
}

/// Bytes of the chunk entries with code 310 (see `chunks_within`).
fn chunk_bytes(record: &XRecord, limit: usize) -> (r: Option<Vec<u8>>)
    ensures
        match chunks_within(record.model(), limit as int) {
            Some(bs) => r matches Some(v) && v@ == bs,
            None => r is None,
        },
{
    let ghost es = record.model();
    let mut bytes: Vec<u8> = Vec::new();
    let mut i: usize = 0;
    while i < record.entries.len()
        invariant
            es == record.model(),
            i <= record.entries@.len(),
            chunks_within(es.take(i as int), limit as int) == Some(bytes@),
            bytes@.len() <= limit,
        decreases record.entries@.len() - i,
    {
        proof {
            assert(es.take(i + 1).drop_last() =~= es.take(i as int));
            assert(es.take(i + 1).last() == es[i as int]);
            assert(es[i as int] == record.entries@[i as int]@);
        }
        if record.entries[i].code == 310 {
            match &record.entries[i].value {
                XRecordValue::Chunk(chunk) => {
                    if chunk.len() > limit - bytes.len() {
                        proof {
                            lemma_prefix_none_chunks(es, limit as int, i as int + 1);
                        }
                        return None;
                    }
                    append_bytes(&mut bytes, chunk);
                },
                _ => {
                    proof {
                        lemma_prefix_none_chunks(es, limit as int, i as int + 1);
                    }
                    return None;
                },
            }
        }
        i += 1;
    }
    assert(es.take(es.len() as int) =~= es);
    Some(bytes)
}

/// The path entity (see `path_of`).
fn path_entity(record: &XRecord) -> (r: Option<Option<EncodedEntity>>)
    ensures
        match path_of(record.model()) {
            Some(Some(m)) => r matches Some(Some(e)) && e@ == m,
            Some(None) => r == Some(None::<EncodedEntity>),
            None => r is None,
        },
{
    let kind = match entry(record, 92) {
        Some(v) => v,
        None => return Some(None),
    };
    let b = match entry(record, 93) {
        Some(v) => match v.as_i32() {
            Some(b) => b,
            None => return None,
        },
        None => return None,
    };
    if b <= 0 || b > MAX_PATH_BITS {
        return None;
    }
    let bits = b as usize;
    let need = (bits + 7) / 8;
    let bytes = match chunk_bytes(record, need) {
        Some(bytes) => bytes,
        None => return None,
    };
    if bytes.len() != need {
        return None;
    }
    let type_code = match kind.as_i32() {
        Some(t) => t,
        None => return None,
    };
    Some(Some(EncodedEntity { type_code, bit_count: bits, bytes }))
}

/// Read loft settings from their record (see `decoded`).
pub fn decode(record: &XRecord) -> (r: Option<SolidHistoryLoftParameters>)
    ensures
        match decoded(record.model()) {
            Some(m) => r matches Some(p) && p@ == m,
            None => r is None,
        },
{
    let version = match entry(record, 90) {
        Some(v) => v.as_i32(),
        None => None,
    };
    if version != Some(1i32) {
        return None;
    }
    let normals = match entry(record, 70) {
        Some(v) => match v.as_i32() {
            Some(x) => x,
            None => return None,
        },
        None => return None,
    };
    let start_draft_angle = match entry(record, 40) {
        Some(v) => match v.as_double() {
            Some(x) => x,
            None => return None,
        },
        None => return None,
    };
    let end_draft_angle = match entry(record, 41) {
        Some(v) => match v.as_double() {
            Some(x) => x,
            None => return None,
        },
        None => return None,
    };
    let start_magnitude = match entry(record, 42) {
        Some(v) => match v.as_double() {
            Some(x) => x,
            None => return None,
        },
        None => return None,
    };
    let end_magnitude = match entry(record, 43) {
        Some(v) => match v.as_double() {
            Some(x) => x,
            None => return None,
        },
        None => return None,
    };
    let start_continuity = match entry(record, 71) {
        Some(v) => match v.as_i32() {
            Some(x) => x,
            None => return None,
        },
        None => 1,
    };
    let end_continuity = match entry(record, 72) {
        Some(v) => match v.as_i32() {
            Some(x) => x,
            None => return None,
        },
        None => 1,
    };
    let start_bulge = match entry(record, 44) {
        Some(v) => match v.as_double() {
            Some(x) => x,
            None => return None,
        },
        None => HALF_BITS,
    };
    let end_bulge = match entry(record, 45) {
        Some(v) => match v.as_double() {
            Some(x) => x,
            None => return None,
        },
        None => HALF_BITS,
    };
    let closed = match entry(record, 290) {
        Some(v) => match boolean(v) {
            Some(x) => x,
            None => return None,
        },
        None => return None,
    };
    let surface = match entry(record, 291) {
        Some(v) => match boolean(v) {
            Some(x) => x,
            None => return None,
        },
        None => return None,
    };
    let align_direction = match entry(record, 292) {
        Some(v) => match boolean(v) {
            Some(x) => x,
            None => return None,
        },
        None => return None,
    };
    let periodic = match entry(record, 293) {
        Some(v) => match boolean(v) {
            Some(x) => x,
            None => return None,
        },
        None => true,
    };
    if normals < 0 || normals > 6 || start_continuity < 0 || start_continuity > 1 || end_continuity < 0
        || end_continuity > 1 || !is_finite_bits(start_draft_angle) || !is_finite_bits(end_draft_angle)
        || !is_finite_bits(start_magnitude) || !is_finite_bits(end_magnitude) || !is_finite_bits(start_bulge)
        || !is_finite_bits(end_bulge) || start_magnitude > 0x8000_0000_0000_0000u64
        || end_magnitude > 0x8000_0000_0000_0000u64 || start_bulge > 0x8000_0000_0000_0000u64
        || end_bulge > 0x8000_0000_0000_0000u64 {
        return None;
    }
    let section_counts = match section_counts(record) {
        Some(v) => v,
        None => return None,
    };
    let path_entity = match path_entity(record) {
        Some(p) => p,
        None => return None,
    };
    Some(SolidHistoryLoftParameters {
        normals,
        start_draft_angle,
        end_draft_angle,
        start_magnitude,
        end_magnitude,
        start_continuity,
        end_continuity,
        start_bulge,
        end_bulge,
        closed,
        surface,
        align_direction,
        periodic,
        section_counts,
        path_entity,
    })
}

/// Entries of the scalar settings, in the order they are written.
pub open spec fn settings_entries(p: LoftParametersModel) -> Seq<EntryModel> {
    seq![
        EntryModel { code: 90, value: ValueModel::Int32(1) },
        EntryModel { code: 70, value: ValueModel::Int16(p.normals as i16) },
        EntryModel { code: 40, value: ValueModel::Double(p.start_draft_angle) },
        EntryModel { code: 41, value: ValueModel::Double(p.end_draft_angle) },
        EntryModel { code: 42, value: ValueModel::Double(p.start_magnitude) },
        EntryModel { code: 43, value: ValueModel::Double(p.end_magnitude) },
        EntryModel { code: 71, value: ValueModel::Int16(p.start_continuity as i16) },
        EntryModel { code: 72, value: ValueModel::Int16(p.end_continuity as i16) },
        EntryModel { code: 44, value: ValueModel::Double(p.start_bulge) },
        EntryModel { code: 45, value: ValueModel::Double(p.end_bulge) },
        EntryModel { code: 290, value: ValueModel::Bool(p.closed) },
        EntryModel { code: 291, value: ValueModel::Bool(p.surface) },
        EntryModel { code: 292, value: ValueModel::Bool(p.align_direction) },
        EntryModel { code: 293, value: ValueModel::Bool(p.periodic) },
    ]
}

/// One entry with code 91 per section count.
pub open spec fn count_entries(cs: Seq<usize>) -> Seq<EntryModel> {
    cs.map_values(|c: usize| EntryModel { code: 91, value: ValueModel::Int32(c as i32) })
}

/// Chunk entries (code 310) of at most 127 bytes each, in order.
pub open spec fn chunk_entries(bytes: Seq<u8>) -> Seq<EntryModel>
    decreases bytes.len(),
{
    if bytes.len() == 0 {
        Seq::empty()
    } else if bytes.len() <= 127 {
        seq![EntryModel { code: 310, value: ValueModel::Chunk(bytes) }]
    } else {
        seq![EntryModel { code: 310, value: ValueModel::Chunk(bytes.take(127)) }] + chunk_entries(bytes.skip(127))
    }
}

/// Entries of the path entity: its type (92), its bit length (93) and its body in chunks.
pub open spec fn path_entries(path: Option<EncodedEntityModel>) -> Seq<EntryModel> {
    match path {
        None => Seq::empty(),
        Some(e) => seq![
            EntryModel { code: 92, value: ValueModel::Int32(e.type_code) },
            EntryModel { code: 93, value: ValueModel::Int32(e.bit_count as i32) },
        ] + chunk_entries(e.bytes),
    }
}

/// Entries of the record that holds loft settings.
pub open spec fn encoded(p: LoftParametersModel) -> Seq<EntryModel> {
    settings_entries(p) + count_entries(p.section_counts) + path_entries(p.path_entity)
}

/// Copy of `bytes[from..to]`.
pub(crate) fn copy_range(bytes: &Vec<u8>, from: usize, to: usize) -> (r: Vec<u8>)
    requires
        from <= to <= bytes@.len(),
    ensures
        r@ == bytes@.subrange(from as int, to as int),
{
    let mut r: Vec<u8> = Vec::new();
    let mut i: usize = from;
    while i < to
        invariant
            from <= i <= to,
            to <= bytes@.len(),
            r@ == bytes@.subrange(from as int, i as int),
        decreases to - i,
    {
        r.push(bytes[i]);
        assert(bytes@.subrange(from as int, i + 1) =~= bytes@.subrange(from as int, i as int).push(bytes@[i as int]));
        i += 1;
    }
    r
}

/// Write loft settings as a record (see `encoded`): the scalar settings, one
/// entry per section count, and the path entity's type, bit length and body
/// in chunks of at most 127 bytes.
pub fn encode(value: &SolidHistoryLoftParameters) -> (r: XRecord)
    ensures
        r.model() == encoded(value@),
        r.name@ == loft_key(),
        r.handle.value == 0,
        r.owner.value == 0,
        r.xdictionary_handle is None,
        r.object_references@.len() == 0,
        r.entries_complete,
{
    let mut record = XRecord::named("CADCODEC_LOFT_OPTIONS_V1");
    proof {
        reveal_strlit("CADCODEC_LOFT_OPTIONS_V1");
    }
    record.add_int32(90, 1);
    record.add_int16(70, value.normals as i16);
    record.add_double(40, value.start_draft_angle);
    record.add_double(41, value.end_draft_angle);
    record.add_double(42, value.start_magnitude);
    record.add_double(43, value.end_magnitude);
    record.add_int16(71, value.start_continuity as i16);
    record.add_int16(72, value.end_continuity as i16);
    record.add_double(44, value.start_bulge);
    record.add_double(45, value.end_bulge);
    record.add_bool(290, value.closed);
    record.add_bool(291, value.surface);
    record.add_bool(292, value.align_direction);
    record.add_bool(293, value.periodic);
    let ghost p = value@;
    assert(record.model() =~= settings_entries(p));
    let mut i: usize = 0;
    while i < value.section_counts.len()
        invariant
            p == value@,
            i <= value.section_counts@.len(),
            record.model() == settings_entries(p) + count_entries(value.section_counts@.take(i as int)),
            record.name@ == loft_key(),
            record.handle.value == 0,
            record.owner.value == 0,
            record.xdictionary_handle is None,
            record.object_references@.len() == 0,
            record.entries_complete,
        decreases value.section_counts@.len() - i,
    {
        let ghost before = record.model();
        record.add_int32(91, value.section_counts[i] as i32);
        assert(count_entries(value.section_counts@.take(i + 1)) =~= count_entries(value.section_counts@.take(i as int)).push(
            EntryModel { code: 91, value: ValueModel::Int32(value.section_counts@[i as int] as i32) }));
        i += 1;
    }
    assert(value.section_counts@.take(value.section_counts@.len() as int) =~= value.section_counts@);
    match &value.path_entity {
        Some(e) => {
            let ghost base = record.model();
            record.add_int32(92, e.type_code);
            record.add_int32(93, e.bit_count as i32);
            let ghost head = record.model();
            let mut start: usize = 0;
            let ghost mut done: Seq<EntryModel> = Seq::empty();
            assert(e.bytes@.skip(0) =~= e.bytes@);
            while start < e.bytes.len()
                invariant
                    start <= e.bytes@.len(),
                    record.model() == head + done,
                    done + chunk_entries(e.bytes@.skip(start as int)) == chunk_entries(e.bytes@),
                    record.name@ == loft_key(),
                    record.handle.value == 0,
                    record.owner.value == 0,
                    record.xdictionary_handle is None,
                    record.object_references@.len() == 0,
                    record.entries_complete,
                decreases e.bytes@.len() - start,
            {
                let rest = e.bytes.len() - start;
                let end = if rest > 127 {
                    start + 127
                } else {
                    e.bytes.len()
                };
                let chunk = copy_range(&e.bytes, start, end);
                let ghost tail = e.bytes@.skip(start as int);
                let ghost c = chunk@;
                proof {
                    if rest > 127 {
                        assert(c =~= tail.take(127));
                        assert(tail.skip(127) =~= e.bytes@.skip(end as int));
                    } else {
                        assert(c =~= tail);
                        assert(e.bytes@.skip(end as int) =~= Seq::<u8>::empty());
                    }
                }
                record.add_entry(XRecordEntry::new(310, XRecordValue::Chunk(chunk)));
                proof {
                    let item = EntryModel { code: 310, value: ValueModel::Chunk(c) };
                    assert(chunk_entries(tail) == seq![item] + chunk_entries(e.bytes@.skip(end as int)));
                    assert(done.push(item) + chunk_entries(e.bytes@.skip(end as int)) =~= done + chunk_entries(tail));
                    done = done.push(item);
                }
                start = end;
            }
            proof {
                assert(e.bytes@.skip(start as int) =~= Seq::<u8>::empty());
                assert(done =~= chunk_entries(e.bytes@));
                assert(record.model() =~= settings_entries(p) + count_entries(p.section_counts) + path_entries(p.path_entity));
            }
        },
        None => {
            assert(record.model() =~= settings_entries(p) + count_entries(p.section_counts) + path_entries(p.path_entity));
        },
    }
    record
}

/// Settings that can be written and read back: in range, at most 100000
/// section counts of 1 to 100000 each, and a path entity of 1 to 64 Mi bits
/// with exactly the bytes that hold them.
pub open spec fn encodable(p: LoftParametersModel) -> bool {
    &&& settings_valid(p)
    &&& p.section_counts.len() <= 100_000
    &&& forall|i: int| 0 <= i < p.section_counts.len() ==> 1 <= #[trigger] p.section_counts[i] <= 100_000
    &&& match p.path_entity {
        None => true,
        Some(e) => 1 <= e.bit_count <= 67_108_864 && e.bytes.len() == byte_len(e.bit_count as int),
    }
}

/// The first entry with a code in a prefix stays the first after appending.
pub proof fn lemma_first_in_prefix(xs: Seq<EntryModel>, ys: Seq<EntryModel>, code: i32)
    requires
        first_with_code(xs, code) is Some,
    ensures
        first_with_code(xs + ys, code) == first_with_code(xs, code),
{
    let es = xs + ys;
    lemma_first_code_from(xs, code, 0);
    lemma_first_code_from(es, code, 0);
    let i = first_code_from(xs, code, 0);
    let f = first_code_from(es, code, 0);
    assert(es[i] == xs[i]);
    if f < i {
        assert(es[f] == xs[f]);
    }
}

/// With no entry of the code in a prefix, the first one is found after it.
pub proof fn lemma_first_after_prefix(xs: Seq<EntryModel>, ys: Seq<EntryModel>, code: i32)
    requires
        forall|j: int| 0 <= j < xs.len() ==> (#[trigger] xs[j]).code != code,
        first_with_code(ys, code) is Some,
    ensures
        first_with_code(xs + ys, code) == Some(xs.len() + first_with_code(ys, code)->0),
{
    let es = xs + ys;
    lemma_first_code_from(ys, code, 0);
    lemma_first_code_from(es, code, 0);
    let i = first_code_from(ys, code, 0);
    let f = first_code_from(es, code, 0);
    assert(es[xs.len() + i] == ys[i]);
    if f < xs.len() {
        assert(es[f] == xs[f]);
    } else if f < xs.len() + i {
        assert(es[f] == ys[f - xs.len()]);
    }
}

/// Entries without the code 91 add no section counts.
pub proof fn lemma_counts_skip(xs: Seq<EntryModel>, ys: Seq<EntryModel>)
    requires
        forall|j: int| 0 <= j < ys.len() ==> (#[trigger] ys[j]).code != 91,
    ensures
        section_counts_of(xs + ys) == section_counts_of(xs),
    decreases ys.len(),
{
    if ys.len() > 0 {
        assert((xs + ys).drop_last() =~= xs + ys.drop_last());
        assert((xs + ys).last() == ys.last());
        assert(ys.last() == ys[ys.len() - 1]);
        lemma_counts_skip(xs, ys.drop_last());
    } else {
        assert(xs + ys =~= xs);
    }
}

/// Count entries of valid counts add those counts.
pub proof fn lemma_counts_read(xs: Seq<EntryModel>, acc: Seq<usize>, cs: Seq<usize>)
    requires
        section_counts_of(xs) == Some(acc),
        acc.len() + cs.len() <= 100_000,
        forall|i: int| 0 <= i < cs.len() ==> 1 <= #[trigger] cs[i] <= 100_000,
    ensures
        section_counts_of(xs + count_entries(cs)) == Some(acc + cs),
    decreases cs.len(),
{
    if cs.len() == 0 {
        assert(xs + count_entries(cs) =~= xs);
        assert(acc + cs =~= acc);
    } else {
        let c = cs[0];
        let item = EntryModel { code: 91, value: ValueModel::Int32(c as i32) };
        let xs2 = xs.push(item);
        assert(xs2.drop_last() =~= xs);
        assert(c as i32 == c);
        assert(section_counts_of(xs2) == Some(acc.push(c)));
        assert forall|i: int| 0 <= i < cs.skip(1).len() implies 1 <= #[trigger] cs.skip(1)[i] <= 100_000 by {
            assert(cs.skip(1)[i] == cs[i + 1]);
        }
        lemma_counts_read(xs2, acc.push(c), cs.skip(1));
        assert(count_entries(cs) =~= seq![item] + count_entries(cs.skip(1)));
        assert(xs + count_entries(cs) =~= xs2 + count_entries(cs.skip(1)));
        assert(acc.push(c) + cs.skip(1) =~= acc + cs);
    }
}

/// Entries without the code 310 add no chunk bytes.
pub proof fn lemma_chunks_skip(xs: Seq<EntryModel>, ys: Seq<EntryModel>, limit: int)
    requires
        forall|j: int| 0 <= j < ys.len() ==> (#[trigger] ys[j]).code != 310,
    ensures
        chunks_within(xs + ys, limit) == chunks_within(xs, limit),
    decreases ys.len(),
{
    if ys.len() > 0 {
        assert((xs + ys).drop_last() =~= xs + ys.drop_last());
        assert((xs + ys).last() == ys.last());
        assert(ys.last() == ys[ys.len() - 1]);
        lemma_chunks_skip(xs, ys.drop_last(), limit);
    } else {
        assert(xs + ys =~= xs);
    }
}

/// Chunk entries of some bytes add those bytes, within the limit.
pub proof fn lemma_chunks_read(xs: Seq<EntryModel>, acc: Seq<u8>, bytes: Seq<u8>, limit: int)
    requires
        chunks_within(xs, limit) == Some(acc),
        acc.len() + bytes.len() <= limit,
    ensures
        chunks_within(xs + chunk_entries(bytes), limit) == Some(acc + bytes),
    decreases bytes.len(),
{
    if bytes.len() == 0 {
        assert(xs + chunk_entries(bytes) =~= xs);
        assert(acc + bytes =~= acc);
    } else {
        let head = if bytes.len() <= 127 { bytes } else { bytes.take(127) };
        let tail = if bytes.len() <= 127 { Seq::<u8>::empty() } else { bytes.skip(127) };
        let item = EntryModel { code: 310, value: ValueModel::Chunk(head) };
        let xs2 = xs.push(item);
        assert(xs2.drop_last() =~= xs);
        assert(chunks_within(xs2, limit) == Some(acc + head));
        assert(head + tail =~= bytes);
        if bytes.len() <= 127 {
            assert(chunk_entries(bytes) =~= seq![item]);
            assert(xs + chunk_entries(bytes) =~= xs2);
        } else {
            lemma_chunks_read(xs2, acc + head, tail, limit);
            assert(chunk_entries(bytes) == seq![item] + chunk_entries(tail));
            assert(xs + chunk_entries(bytes) =~= xs2 + chunk_entries(tail));
            assert(acc + head + tail =~= acc + bytes);
        }
    }
}

/// Loft settings that can be written are read back as they were written.
#[verifier::spinoff_prover]
#[verifier::rlimit(60)]
pub proof fn law_decode_encode(p: LoftParametersModel)
    requires
        encodable(p),
    ensures
        decoded(encoded(p)) == Some(p),
{
    let st = settings_entries(p);
    let counts = count_entries(p.section_counts);
    let path = path_entries(p.path_entity);
    let es = encoded(p);
    assert(es == st + counts + path);
    // The scalar settings are found among the first entries.
    assert(first_with_code(st, 90) == Some(0int)) by { reveal_with_fuel(first_code_from, 16); }
    assert(first_with_code(st, 70) == Some(1int)) by { reveal_with_fuel(first_code_from, 16); }
    assert(first_with_code(st, 40) == Some(2int)) by { reveal_with_fuel(first_code_from, 16); }
    assert(first_with_code(st, 41) == Some(3int)) by { reveal_with_fuel(first_code_from, 16); }
    assert(first_with_code(st, 42) == Some(4int)) by { reveal_with_fuel(first_code_from, 16); }
    assert(first_with_code(st, 43) == Some(5int)) by { reveal_with_fuel(first_code_from, 16); }
    assert(first_with_code(st, 71) == Some(6int)) by { reveal_with_fuel(first_code_from, 16); }
    assert(first_with_code(st, 72) == Some(7int)) by { reveal_with_fuel(first_code_from, 16); }
    assert(first_with_code(st, 44) == Some(8int)) by { reveal_with_fuel(first_code_from, 16); }
    assert(first_with_code(st, 45) == Some(9int)) by { reveal_with_fuel(first_code_from, 16); }
    assert(first_with_code(st, 290) == Some(10int)) by { reveal_with_fuel(first_code_from, 16); }
    assert(first_with_code(st, 291) == Some(11int)) by { reveal_with_fuel(first_code_from, 16); }
    assert(first_with_code(st, 292) == Some(12int)) by { reveal_with_fuel(first_code_from, 16); }
    assert(first_with_code(st, 293) == Some(13int)) by { reveal_with_fuel(first_code_from, 16); }
    let rest = counts + path;
    assert(es =~= st + rest);
    lemma_first_in_prefix(st, rest, 90);
    lemma_first_in_prefix(st, rest, 70);
    lemma_first_in_prefix(st, rest, 40);
    lemma_first_in_prefix(st, rest, 41);
    lemma_first_in_prefix(st, rest, 42);
    lemma_first_in_prefix(st, rest, 43);
    lemma_first_in_prefix(st, rest, 71);
    lemma_first_in_prefix(st, rest, 72);
    lemma_first_in_prefix(st, rest, 44);
    lemma_first_in_prefix(st, rest, 45);
    lemma_first_in_prefix(st, rest, 290);
    lemma_first_in_prefix(st, rest, 291);
    lemma_first_in_prefix(st, rest, 292);
    lemma_first_in_prefix(st, rest, 293);
    assert(es[0] == st[0]);
    assert(int_entry(es, 90) == Some(1i32));
    assert(es[1] == st[1]);
    assert((p.normals as i16) as i32 == p.normals);
    assert(int_entry(es, 70) == Some(p.normals));
    assert(es[6] == st[6]);
    assert(es[7] == st[7]);
    assert((p.start_continuity as i16) as i32 == p.start_continuity);
    assert((p.end_continuity as i16) as i32 == p.end_continuity);
    assert(int_or(es, 71, 1) == Some(p.start_continuity));
    assert(int_or(es, 72, 1) == Some(p.end_continuity));
    assert(es[2] == st[2] && es[3] == st[3] && es[4] == st[4] && es[5] == st[5] && es[8] == st[8] && es[9] == st[9]);
    assert(es[10] == st[10] && es[11] == st[11] && es[12] == st[12] && es[13] == st[13]);
    // Section counts.
    let head = st + counts;
    assert forall|j: int| 0 <= j < st.len() implies (#[trigger] st[j]).code != 91 by {}
    lemma_counts_skip(Seq::empty(), st);
    assert(Seq::<EntryModel>::empty() + st =~= st);
    lemma_counts_read(st, Seq::empty(), p.section_counts);
    assert(Seq::<usize>::empty() + p.section_counts =~= p.section_counts);
    assert forall|j: int| 0 <= j < path.len() implies (#[trigger] path[j]).code != 91 by {
        match p.path_entity {
            Some(e) => {
                let pre = seq![
                    EntryModel { code: 92, value: ValueModel::Int32(e.type_code) },
                    EntryModel { code: 93, value: ValueModel::Int32(e.bit_count as i32) },
                ];
                if j >= 2 {
                    assert(path[j] == chunk_entries(e.bytes)[j - 2]);
                    lemma_chunk_codes(e.bytes);
                }
            },
            None => {},
        }
    }
    lemma_counts_skip(head, path);
    assert(es =~= head + path);
    assert(section_counts_of(es) == Some(p.section_counts));
    // The path entity.
    assert forall|j: int| 0 <= j < head.len() implies (#[trigger] head[j]).code != 92 && head[j].code != 93
        && head[j].code != 310 by {
        if j >= st.len() {
            assert(head[j] == counts[j - st.len()]);
        }
    }
    match p.path_entity {
        None => {
            lemma_first_code_from(es, 92, 0);
            assert(path =~= Seq::<EntryModel>::empty());
            assert(es =~= head);
            assert(first_with_code(es, 92) is None);
            assert(path_of(es) == Some(None::<EncodedEntityModel>));
        },
        Some(e) => {
            let pre = seq![
                EntryModel { code: 92, value: ValueModel::Int32(e.type_code) },
                EntryModel { code: 93, value: ValueModel::Int32(e.bit_count as i32) },
            ];
            assert(path == pre + chunk_entries(e.bytes));
            assert(first_with_code(path, 92) == Some(0int)) by { reveal_with_fuel(first_code_from, 3); }
            assert(first_with_code(path, 93) == Some(1int)) by { reveal_with_fuel(first_code_from, 3); }
            lemma_first_after_prefix(head, path, 92);
            lemma_first_after_prefix(head, path, 93);
            assert(es[head.len() as int] == path[0]);
            assert(es[head.len() as int + 1] == path[1]);
            assert(e.bit_count as i32 == e.bit_count);
            let limit = byte_len(e.bit_count as int);
            lemma_chunks_skip(Seq::empty(), head + pre, limit);
            assert(Seq::<EntryModel>::empty() + (head + pre) =~= head + pre);
            assert forall|j: int| 0 <= j < (head + pre).len() implies (#[trigger] (head + pre)[j]).code != 310 by {
                if j < head.len() {
                    assert((head + pre)[j] == head[j]);
                }
            }
            lemma_chunks_read(head + pre, Seq::empty(), e.bytes, limit);
            assert(es =~= (head + pre) + chunk_entries(e.bytes));
            assert(Seq::<u8>::empty() + e.bytes =~= e.bytes);
            assert(chunks_within(es, limit) == Some(e.bytes));
            assert(path_of(es) == Some(Some(e)));
        },
    }
}

/// Every chunk entry has the code 310.
pub proof fn lemma_chunk_codes(bytes: Seq<u8>)
    ensures
        forall|j: int| 0 <= j < chunk_entries(bytes).len() ==> (#[trigger] chunk_entries(bytes)[j]).code == 310,
    decreases bytes.len(),
{
    if bytes.len() > 127 {
        lemma_chunk_codes(bytes.skip(127));
        let item = EntryModel { code: 310, value: ValueModel::Chunk(bytes.take(127)) };
        assert forall|j: int| 0 <= j < chunk_entries(bytes).len() implies (#[trigger] chunk_entries(bytes)[j]).code == 310 by {
            if j > 0 {
                assert(chunk_entries(bytes)[j] == chunk_entries(bytes.skip(127))[j - 1]);
            }
        }
    }
}

/// Settings that the record of a loft node's extension dictionary holds, for
/// the object under `k` when it is a loft node.
pub open spec fn stored_settings(objects: Map<u64, ObjectType>, k: u64) -> Option<LoftParametersModel> {
    if objects.contains_key(k) {
        match objects[k] {
            ObjectType::DynamicBlock(b) => match b.data {
                DynamicBlockData::SolidHistoryNode(SolidHistoryOperation::Loft(_)) => match b.xdictionary_handle {
                    Some(x) => match dictionary_at(objects, x) {
                        Some(d) => match lookup(d.model(), loft_key()) {
                            Some(h) => match xrecord_at(objects, h) {
                                Some(r) => decoded(r.model()),
                                None => None,
                            },
                            None => None,
                        },
                        None => None,
                    },
                    None => None,
                },
                _ => None,
            },
            _ => None,
        }
    } else {
        None
    }
}

/// `b` is the loft node `a` with its settings set to `m`.
pub open spec fn settings_restored(a: ObjectType, b: ObjectType, m: LoftParametersModel) -> bool {
    match (a, b) {
        (ObjectType::DynamicBlock(x), ObjectType::DynamicBlock(y)) => {
            &&& y.handle == x.handle
            &&& y.owner == x.owner
            &&& y.xdictionary_handle == x.xdictionary_handle
            &&& y.data matches DynamicBlockData::SolidHistoryNode(SolidHistoryOperation::Loft(l))
                && l.parameters matches Some(p) && p@ == m
        },
        _ => false,
    }
}

/// Settings stored for the object under `k` (see `stored_settings`).
fn settings_of(document: &CadDocument, k: u64) -> (r: Option<SolidHistoryLoftParameters>)
    ensures
        match stored_settings(document.objects@, k) {
            Some(m) => r matches Some(p) && p@ == m,
            None => r is None,
        },
{
    let x = match document.objects.get(&k) {
        Some(ObjectType::DynamicBlock(b)) => match &b.data {
            DynamicBlockData::SolidHistoryNode(SolidHistoryOperation::Loft(_)) => match b.xdictionary_handle {
                Some(x) => x,
                None => return None,
            },
            _ => return None,
        },
        _ => return None,
    };
    let h = match document.objects.get(&x.value) {
        Some(ObjectType::Dictionary(d)) => match d.get("CADCODEC_LOFT_OPTIONS_V1") {
            Some(h) => h,
            None => return None,
        },
        _ => return None,
    };
    match document.objects.get(&h.value) {
        Some(ObjectType::XRecord(r)) => decode(r),
        _ => None,
    }
}

/// Give a loft node its settings.
fn set_settings(document: &mut CadDocument, k: u64, settings: SolidHistoryLoftParameters)
    requires
        stored_settings(old(document).objects@, k) is Some,
    ensures
        final(document).objects@.dom() == old(document).objects@.dom(),
        forall|j: u64| j != k && #[trigger] old(document).objects@.contains_key(j)
            ==> final(document).objects@[j] == old(document).objects@[j],
        settings_restored(old(document).objects@[k], final(document).objects@[k], settings@),
        final(document).header == old(document).header,
        same_besides_objects(*final(document), *old(document)),
{
    let ghost before = document.objects@;
    match document.objects.remove(&k) {
        Some(ObjectType::DynamicBlock(mut b)) => {
            match b.data {
                DynamicBlockData::SolidHistoryNode(SolidHistoryOperation::Loft(mut l)) => {
                    l.parameters = Some(settings);
                    b.data = DynamicBlockData::SolidHistoryNode(SolidHistoryOperation::Loft(l));
                },
                _ => {
                    assert(false);
                },
            }
            document.objects.insert(k, ObjectType::DynamicBlock(b));
            assert(document.objects@.dom() =~= before.dom());
        },
        _ => {
            assert(false);
        },
    }
}

/// The handles under which the document stores objects, each once.
fn object_keys(document: &CadDocument) -> (r: Vec<u64>)
    ensures
        r@.no_duplicates(),
        forall|k: u64| document.objects@.contains_key(k) <==> r@.contains(k),
{
    let mut keys: Vec<u64> = Vec::new();
    for (k, _o) in it: document.objects.iter()
        invariant
            forall|j: int| 0 <= j < it.seq().len() ==> document.objects@.contains_key(*(#[trigger] it.seq()[j]).0)
                && document.objects@[*it.seq()[j].0] == *it.seq()[j].1,
            forall|key: u64| #[trigger] document.objects@.contains_key(key) ==> it.seq().contains((&key, &document.objects@[key])),
            it.seq().no_duplicates(),
            keys@.len() == it.index(),
            forall|j: int| 0 <= j < it.index() ==> keys@[j] == *(#[trigger] it.seq()[j]).0,
            keys@.no_duplicates(),
            forall|j: int| 0 <= j < keys@.len() ==> document.objects@.contains_key(#[trigger] keys@[j]),
        ensures
            forall|key: u64| #[trigger] document.objects@.contains_key(key) ==> keys@.contains(key),
            forall|j: int| 0 <= j < keys@.len() ==> document.objects@.contains_key(#[trigger] keys@[j]),
            keys@.no_duplicates(),
    {
        let ghost idx = it.index();
        proof {
            assert forall|j: int| 0 <= j < idx implies keys@[j] != *k by {
                if keys@[j] == *k {
                    assert(*it.seq()[j].0 == *it.seq()[idx].0);
                    assert(*it.seq()[j].1 == *it.seq()[idx].1);
                    assert(it.seq()[j] == it.seq()[idx]);
                }
            }
        }
        let ghost k0 = keys@;
        keys.push(*k);
        proof {
            assert forall|a: int, b: int| 0 <= a < b < keys@.len() implies keys@[a] != keys@[b] by {
                if b < k0.len() {
                    assert(k0[a] != k0[b]);
                }
            }
        }
    }

    keys
}

/// Give each loft node the settings its extension dictionary's record holds,
/// when they read back (see `decoded`); other objects stay as they are.
#[verifier::spinoff_prover]
#[verifier::rlimit(60)]
pub fn restore_settings(document: &mut CadDocument)
    ensures
        final(document).objects@.dom() == old(document).objects@.dom(),
        forall|k: u64| #[trigger] old(document).objects@.contains_key(k) ==> match stored_settings(old(document).objects@, k) {
            Some(m) => settings_restored(old(document).objects@[k], final(document).objects@[k], m),
            None => final(document).objects@[k] == old(document).objects@[k],
        },
        final(document).header == old(document).header,
        same_besides_objects(*final(document), *old(document)),
{
    let ghost objects0 = document.objects@;
    let keys = object_keys(document);
    let mut found: Vec<(u64, SolidHistoryLoftParameters)> = Vec::new();
    let mut i: usize = 0;
    while i < keys.len()
        invariant
            objects0 == document.objects@,
            i <= keys@.len(),
            keys@.no_duplicates(),
            forall|k: u64| objects0.contains_key(k) <==> keys@.contains(k),
            found@.len() <= i,
            forall|n: int| 0 <= n < found@.len() ==> stored_settings(objects0, (#[trigger] found@[n]).0) == Some(found@[n].1@),
            forall|n: int| 0 <= n < found@.len() ==> exists|j: int| 0 <= j < i && keys@[j] == (#[trigger] found@[n]).0,
            forall|n1: int, n2: int| 0 <= n1 < n2 < found@.len() ==> (#[trigger] found@[n1]).0 != (#[trigger] found@[n2]).0,
            forall|j: int| 0 <= j < i && (#[trigger] stored_settings(objects0, keys@[j])) is Some
                ==> exists|n: int| 0 <= n < found@.len() && found@[n].0 == keys@[j],
        decreases keys@.len() - i,
    {
        let k = keys[i];
        let ghost f0 = found@;
        match settings_of(document, k) {
            Some(p) => {
                proof {
                    assert forall|n: int| 0 <= n < f0.len() implies f0[n].0 != k by {
                        let j = choose|j: int| 0 <= j < i && keys@[j] == f0[n].0;
                    }
                }
                found.push((k, p));
                assert(found@[f0.len() as int].0 == k);
            },
            None => {},
        }
        proof {
            assert forall|n: int| 0 <= n < found@.len() implies exists|j: int| 0 <= j < i + 1 && keys@[j] == (#[trigger] found@[n]).0 by {
                if n < f0.len() {
                    assert(found@[n] == f0[n]);
                    let j = choose|j: int| 0 <= j < i && keys@[j] == f0[n].0;
                } else {
                    assert(keys@[i as int] == found@[n].0);
                }
            }
            assert forall|j: int| 0 <= j < i + 1 && (#[trigger] stored_settings(objects0, keys@[j])) is Some
                implies exists|n: int| 0 <= n < found@.len() && found@[n].0 == keys@[j] by {
                if j < i {
                    let n = choose|n: int| 0 <= n < f0.len() && f0[n].0 == keys@[j];
                    assert(found@[n] == f0[n]);
                } else {
                    assert(found@[f0.len() as int].0 == keys@[j]);
                }
            }
        }
        i += 1;
    }
    proof {
        assert forall|key: u64| #[trigger] objects0.contains_key(key) && stored_settings(objects0, key) is Some
            implies exists|n: int| 0 <= n < found@.len() && found@[n].0 == key by {
            assert(keys@.contains(key));
            let j = choose|j: int| 0 <= j < keys@.len() && keys@[j] == key;
            assert(stored_settings(objects0, keys@[j]) is Some);
        }
    }
    let ghost all = found@;
    while found.len() > 0
        invariant
            found@ == all.take(found@.len() as int),
            found@.len() <= all.len(),
            document.objects@.dom() == objects0.dom(),
            forall|n: int| 0 <= n < all.len() ==> stored_settings(objects0, (#[trigger] all[n]).0) == Some(all[n].1@),
            forall|i1: int, i2: int| 0 <= i1 < i2 < all.len() ==> (#[trigger] all[i1]).0 != (#[trigger] all[i2]).0,
            forall|n: int| found@.len() <= n < all.len()
                ==> settings_restored(objects0[(#[trigger] all[n]).0], document.objects@[all[n].0], all[n].1@),
            forall|key: u64| #[trigger] objects0.contains_key(key)
                && (forall|n: int| found@.len() <= n < all.len() ==> (#[trigger] all[n]).0 != key)
                ==> document.objects@[key] == objects0[key],
            document.header == old(document).header,
            same_besides_objects(*document, *old(document)),
        decreases found@.len(),
    {
        let ghost m = found@.len() - 1;
        let (k, settings) = match found.pop() {
            Some(x) => x,
            None => {
                assert(false);
                return;
            },
        };
        let ghost before = document.objects@;
        proof {
            assert(all[m] == (k, settings));
            assert(objects0.contains_key(k));
            assert forall|n: int| m < n < all.len() implies (#[trigger] all[n]).0 != k by {}
            assert(before[k] == objects0[k]);
        }
        set_settings(document, k, settings);
        proof {
            assert(found@ =~= all.take(m));
            assert forall|n: int| m <= n < all.len() implies settings_restored(objects0[(#[trigger] all[n]).0],
                document.objects@[all[n].0], all[n].1@) by {
                if n > m {
                    assert(all[n].0 != k);
                }
            }
            assert forall|key: u64| #[trigger] objects0.contains_key(key)
                && (forall|n: int| m <= n < all.len() ==> (#[trigger] all[n]).0 != key)
                implies document.objects@[key] == objects0[key] by {
                assert(all[m].0 != key);
            }
        }
    }
    proof {
        assert forall|key: u64| #[trigger] objects0.contains_key(key) implies match stored_settings(objects0, key) {
            Some(m) => settings_restored(objects0[key], document.objects@[key], m),
            None => document.objects@[key] == objects0[key],
        } by {
            match stored_settings(objects0, key) {
                Some(m) => {
                    let n = choose|n: int| 0 <= n < all.len() && all[n].0 == key;
                },
                None => {
                    assert forall|n: int| 0 <= n < all.len() implies (#[trigger] all[n]).0 != key by {}
                },
            }
        }
    }
}

/// What restoring leaves of a document's objects: loft nodes with stored
/// settings that read back have them; other objects stay as they are.
pub open spec fn settings_restored_all(a: Map<u64, ObjectType>, b: Map<u64, ObjectType>) -> bool {
    &&& b.dom() == a.dom()
    &&& forall|k: u64| #[trigger] a.contains_key(k) ==> match stored_settings(a, k) {
        Some(m) => settings_restored(a[k], b[k], m),
        None => b[k] == a[k],
    }
}

/// Restore what a file keeps as fallback records: the lofted surfaces'
/// inputs (see `loft_surface_curves::restore`), then the surfaces'
/// history links (see `surface_history::restore`) and the loft nodes'
/// settings (see `restore_settings`). Everything else stays as it is.
pub fn restore(document: &mut CadDocument)
    ensures
        exists|mid: Seq<EntityType>| inputs_restored_all(old(document).objects@, old(document).entities@, mid)
            && final(document).entities@ == apply_links(mid,
                restored_links(old(document).objects@, old(document).xdic_by_handle@, mid)),
        settings_restored_all(old(document).objects@, final(document).objects@),
        final(document).header == old(document).header,
        final(document).xdic_by_handle == old(document).xdic_by_handle,
        metadata_frame_but_entities(*old(document), *final(document)),
{
    loft_surface_curves::restore(document);
    let ghost mid = document.entities@;
    surface_history::restore(document);
    restore_settings(document);
    assert(inputs_restored_all(old(document).objects@, old(document).entities@, mid));
}

/// Copy of loft settings.
fn copy_parameters(p: &SolidHistoryLoftParameters) -> (r: SolidHistoryLoftParameters)
    ensures
        r@ == p@,
{
    let path_entity = match &p.path_entity {
        Some(e) => Some(EncodedEntity { type_code: e.type_code, bit_count: e.bit_count, bytes: copy_bytes(&e.bytes) }),
        None => None,
    };
    SolidHistoryLoftParameters {
        normals: p.normals,
        start_draft_angle: p.start_draft_angle,
        end_draft_angle: p.end_draft_angle,
        start_magnitude: p.start_magnitude,
        end_magnitude: p.end_magnitude,
        start_continuity: p.start_continuity,
        end_continuity: p.end_continuity,
        start_bulge: p.start_bulge,
        end_bulge: p.end_bulge,
        closed: p.closed,
        surface: p.surface,
        align_direction: p.align_direction,
        periodic: p.periodic,
        section_counts: copy_vec(&p.section_counts),
        path_entity,
    }
}

/// The loft node `a` with `x` as its extension dictionary.
pub open spec fn node_with_xdictionary(a: ObjectType, x: Option<Handle>) -> ObjectType {
    match a {
        ObjectType::DynamicBlock(b) => ObjectType::DynamicBlock(DynamicBlock { xdictionary_handle: x, ..b }),
        _ => a,
    }
}

/// A loft node: a dynamic block whose data is a loft of a construction history.
pub open spec fn is_loft_node(o: ObjectType) -> bool {
    o matches ObjectType::DynamicBlock(b) && b.data matches DynamicBlockData::SolidHistoryNode(SolidHistoryOperation::Loft(_))
}

/// Give the object under `k` the extension dictionary `x`.
fn set_node_xdictionary(document: &mut CadDocument, k: u64, x: Option<Handle>)
    requires
        is_loft_node(old(document).objects@[k]),
        old(document).objects@.contains_key(k),
    ensures
        final(document).objects@ == old(document).objects@.insert(k, node_with_xdictionary(old(document).objects@[k], x)),
        final(document).header == old(document).header,
        same_besides_objects(*final(document), *old(document)),
{
    match document.objects.remove(&k) {
        Some(ObjectType::DynamicBlock(mut b)) => {
            b.xdictionary_handle = x;
            document.objects.insert(k, ObjectType::DynamicBlock(b));
        },
        _ => {
            assert(false);
        },
    }
}

/// What storing one loft node's settings does (see `store_settings_one`): the
/// node and its link take the dictionary `d`, the other links stay and new
/// ones lie from the seed on; `d` is fresh, or the node's own that nothing
/// else used; with settings, `d` names under the key the record `r`, fresh or
/// one that `d` owned, which holds them as written; without, `d` has no such
/// key. Other objects stay as they were, but for a record that `d` owned, and
/// new ones lie from the seed on.
pub open spec fn settings_stored_one(
    a: CadDocument,
    b: CadDocument,
    node: u64,
    previous: Option<Handle>,
    settings: Option<LoftParametersModel>,
    d: Handle,
    r: Option<Handle>,
) -> bool {
    &&& b.xdic_by_handle@.contains_key(node)
    &&& b.xdic_by_handle@[node] == d.value
    &&& forall|k: u64| #[trigger] a.xdic_by_handle@.contains_key(k) && k != node
        ==> b.xdic_by_handle@.contains_key(k) && b.xdic_by_handle@[k] == a.xdic_by_handle@[k]
    &&& forall|k: u64| #[trigger] b.xdic_by_handle@.contains_key(k) && k != node
        && !a.xdic_by_handle@.contains_key(k) ==> a.header.handle_seed <= k
    &&& ((a.header.handle_seed <= d.value && !a.objects@.contains_key(d.value))
        || (previous == Some(d) && dictionary_at(a.objects@, d) is Some
            && !shared_dictionary(a, Handle { value: node }, previous)))
    &&& d.value != node
    &&& dictionary_at(b.objects@, d) is Some
    &&& b.objects@.contains_key(node)
    &&& b.objects@[node] == node_with_xdictionary(a.objects@[node], Some(d))
    &&& (settings is Some ==> {
        &&& r is Some && r->0 != d && r->0.value != node
        &&& ((a.header.handle_seed <= r->0.value && !a.objects@.contains_key(r->0.value))
            || (xrecord_at(a.objects@, r->0) matches Some(x) && x.owner == d))
        &&& lookup(dictionary_at(b.objects@, d)->0.model(), loft_key()) == r
        &&& xrecord_at(b.objects@, r->0) matches Some(x) && x.owner == d && x.model() == encoded(settings->0)
    })
    &&& (settings is None ==> r is None && lookup(dictionary_at(b.objects@, d)->0.model(), loft_key()) is None)
    &&& forall|k: u64| #[trigger] a.objects@.contains_key(k) && k != d.value && k != node && r != Some(Handle { value: k })
        ==> if b.objects@.contains_key(k) {
            b.objects@[k] == a.objects@[k]
        } else {
            xrecord_at(a.objects@, Handle { value: k }) matches Some(x) && x.owner == d
        }
    &&& forall|k: u64| #[trigger] b.objects@.contains_key(k) && !a.objects@.contains_key(k) ==> a.header.handle_seed <= k
}

/// Chunk entries hold no handle.
pub proof fn lemma_chunks_no_handles(bytes: Seq<u8>)
    ensures
        forall|j: int| 0 <= j < chunk_entries(bytes).len() ==> (#[trigger] chunk_entries(bytes)[j]).value is Chunk,
    decreases bytes.len(),
{
    if bytes.len() > 127 {
        lemma_chunks_no_handles(bytes.skip(127));
        assert forall|j: int| 0 <= j < chunk_entries(bytes).len() implies (#[trigger] chunk_entries(bytes)[j]).value is Chunk by {
            if j > 0 {
                assert(chunk_entries(bytes)[j] == chunk_entries(bytes.skip(127))[j - 1]);
            }
        }
    }
}

/// The record of loft settings holds no handle.
pub proof fn lemma_encoded_no_handles(p: LoftParametersModel)
    ensures
        forall|j: int| 0 <= j < encoded(p).len() ==> !((#[trigger] encoded(p)[j]).value is Handle),
{
    let st = settings_entries(p);
    let counts = count_entries(p.section_counts);
    let path = path_entries(p.path_entity);
    assert forall|j: int| 0 <= j < encoded(p).len() implies !((#[trigger] encoded(p)[j]).value is Handle) by {
        if j < st.len() {
            assert(encoded(p)[j] == st[j]);
        } else if j < st.len() + counts.len() {
            assert(encoded(p)[j] == counts[j - st.len()]);
        } else {
            let m = j - st.len() - counts.len();
            assert(encoded(p)[j] == path[m]);
            match p.path_entity {
                Some(e) => {
                    if m >= 2 {
                        assert(path[m] == chunk_entries(e.bytes)[m - 2]);
                        lemma_chunks_no_handles(e.bytes);
                    }
                },
                None => {},
            }
        }
    }
}

/// Store one loft node's settings in its extension dictionary, made writable
/// for it (see `writable_dictionary`): with settings, the dictionary's record
/// under the key holds them (see `encode`), the record being reused when the
/// dictionary already owns one; without, the key and its record go. Gives the
/// dictionary's handle and the record's.
fn store_settings_one(
    document: &mut CadDocument,
    node: u64,
    previous: Option<Handle>,
    settings: Option<SolidHistoryLoftParameters>,
    Ghost(known): Ghost<Set<u64>>,
    Ghost(seed0): Ghost<u64>,
) -> (r: (Handle, Option<Handle>))
    requires
        old(document).handles_wf(),
        known_closed(known, *old(document), seed0),
        seed0 <= old(document).header.handle_seed,
        old(document).header.handle_seed + known.len() + 3 <= u64::MAX,
        old(document).objects@.contains_key(node),
        is_loft_node(old(document).objects@[node]),
        old(document).objects@[node]->DynamicBlock_0.xdictionary_handle == previous,
        previous matches Some(p) ==> p.value < seed0,
    ensures
        final(document).handles_wf(),
        known_closed(
            if known.contains(r.0.value) && r.1 is Some { known.insert(r.1->0.value) } else { known },
            *final(document),
            seed0,
        ),
        old(document).header.handle_seed <= final(document).header.handle_seed,
        final(document).header.handle_seed <= old(document).header.handle_seed + known.len() + 2,
        final(document).header.named_objects_dict_handle == old(document).header.named_objects_dict_handle,
        final(document).header.acad_plotstylename_dict_handle == old(document).header.acad_plotstylename_dict_handle,
        final(document).header.acad_material_dict_handle == old(document).header.acad_material_dict_handle,
        metadata_frame_but_entities(*old(document), *final(document)),
        final(document).entities == old(document).entities,
        settings_stored_one(*old(document), *final(document), node, previous,
            match settings {
                Some(p) => Some(p@),
                None => None,
            }, r.0, r.1),
{
    let ghost doc0 = *document;
    let owner = Handle::new(node);
    proof {
        lemma_known_closed(known, *document, seed0);
        match previous {
            Some(p) => {
                lemma_among_within(known, document.objects@, seed0, p);
            },
            None => {},
        }
    }
    let mut dictionary = writable_dictionary(document, owner, previous, Ghost(known));
    let ghost doc1 = *document;
    let ghost d1 = dictionary;
    let dh = dictionary.handle;
    proof {
        lemma_known_closed_grow(known, doc0, doc1, seed0);
        if known.contains(dh.value) {
            assert(dh.value < doc0.header.handle_seed);
        }
        assert(doc1.objects@[node] == doc0.objects@[node]);
        if dh.value == node {
            assert(doc1.objects@.contains_key(dh.value));
            assert(dictionary_at(doc0.objects@, dh) is Some);
        }
        assert(dh.value != node);
        lemma_objects_wf_insert(doc1.objects@, doc1.header.handle_seed, node,
            node_with_xdictionary(doc1.objects@[node], Some(dh)));
    }
    set_node_xdictionary(document, node, Some(dh));
    document.xdic_by_handle.insert(node, dh.value);
    let ghost doc2 = *document;
    proof {
        assert(known_closed(known, doc2, seed0)) by {
            assert forall|k: u64| #[trigger] known.contains(k) && doc2.objects@.contains_key(k) implies {
                &&& refs_among(doc2.objects@[k], known, seed0)
                &&& copyable_kind(doc2.objects@[k]) ==> opt_among(known, seed0, extension_of(doc2.xdic_by_handle@, Handle { value: k }))
            } by {
                if k != node {
                    assert(doc2.objects@[k] == doc1.objects@[k]);
                    assert(extension_of(doc2.xdic_by_handle@, Handle { value: k }) == extension_of(doc1.xdic_by_handle@, Handle { value: k }));
                }
            }
            assert forall|k: u64| #[trigger] doc2.objects@.contains_key(k) && k < seed0 implies known.contains(k) by {
                assert(doc1.objects@.contains_key(k));
            }
        }
    }
    match settings {
        Some(p) => {
            let existing = dictionary.get("CADCODEC_LOFT_OPTIONS_V1");
            let reuse = match existing {
                Some(x) => match document.objects.get(&x.value) {
                    Some(ObjectType::XRecord(rec)) => if rec.owner.value == dh.value {
                        Some(x)
                    } else {
                        None
                    },
                    _ => None,
                },
                None => None,
            };
            let record_handle = match reuse {
                Some(x) => x,
                None => document.allocate_handle(),
            };
            let ghost doc3 = *document;
            proof {
                reveal_strlit("CADCODEC_LOFT_OPTIONS_V1");
                lemma_objects_wf_grow(doc2.objects@, doc2.header.handle_seed, doc3.header.handle_seed);
                lemma_without_key(d1.model(), loft_key());
                law_lookup_after_add_entry(without_key(d1.model(), loft_key()), loft_key(), record_handle, loft_key());
            }
            let mut record = encode(&p);
            record.handle = record_handle;
            record.owner = dh;
            proof {
                lemma_encoded_no_handles(p@);
                assert forall|h: Handle| !refers_to(record, h) by {
                    if exists|i: int| 0 <= i < record.entries@.len() && model_as_handle(#[trigger] record.model()[i].value) == Some(h) {
                        let i = choose|i: int| 0 <= i < record.entries@.len() && model_as_handle(#[trigger] record.model()[i].value) == Some(h);
                        assert(record.model().len() == record.entries@.len());
                        assert(!(encoded(p@)[i].value is Handle));
                    }
                }
            }
            dictionary.remove_entries("CADCODEC_LOFT_OPTIONS_V1");
            dictionary.add_entry("CADCODEC_LOFT_OPTIONS_V1", record_handle);
            dictionary.set_entry_hard_owner("CADCODEC_LOFT_OPTIONS_V1", true);
            let ghost d2 = dictionary;
            proof {
                let es = d2.model();
                let w = without_key(d1.model(), loft_key());
                assert forall|i: int| 0 <= i < es.len() implies (#[trigger] es[i]).1.value < doc3.header.handle_seed by {
                    let k = key_index_from(w, loft_key(), 0);
                    lemma_key_index_from(w, loft_key(), 0);
                    if es[i].1 != record_handle {
                        if k < w.len() {
                            assert(es == w.update(k, (loft_key(), record_handle)));
                            assert(es[i] == w[i]);
                        } else {
                            assert(es == w.push((loft_key(), record_handle)));
                            assert(es[i] == w[i]);
                        }
                        assert(d1.model().contains(w[i]));
                        let j = choose|j: int| 0 <= j < d1.model().len() && d1.model()[j] == w[i];
                        assert(d1.model()[j].1.value < doc1.header.handle_seed);
                    }
                }
            }
            let ghost o3 = document.objects@;
            proof {
                if o3.contains_key(dh.value) {
                    assert(doc1.objects@.contains_key(dh.value));
                    assert(dictionary_at(doc0.objects@, dh) is Some);
                }
                assert(record_handle != dh);
                assert(record_handle.value != node);
                lemma_objects_wf_insert(o3, doc3.header.handle_seed, record_handle.value, ObjectType::XRecord(record));
                lemma_objects_wf_insert(o3.insert(record_handle.value, ObjectType::XRecord(record)), doc3.header.handle_seed,
                    dh.value, ObjectType::Dictionary(d2));
            }
            document.objects.insert(record_handle.value, ObjectType::XRecord(record));
            document.objects.insert(dh.value, ObjectType::Dictionary(dictionary));
            proof {
                let known2 = if known.contains(dh.value) { known.insert(record_handle.value) } else { known };
                let fin = *document;
                assert(fin.objects@ == o3.insert(record_handle.value, ObjectType::XRecord(record)).insert(dh.value, ObjectType::Dictionary(d2)));
                assert forall|k: u64| #[trigger] known2.contains(k) implies k < fin.header.handle_seed by {
                    if k != record_handle.value {
                        assert(known.contains(k));
                    }
                }
                assert forall|k: u64| #[trigger] fin.objects@.contains_key(k) && k < seed0 implies known2.contains(k) by {
                    if k == dh.value {
                        assert(doc1.objects@.contains_key(k));
                    } else {
                        assert(doc2.objects@.contains_key(k));
                    }
                }
                assert forall|k: u64| #[trigger] known2.contains(k) && fin.objects@.contains_key(k) implies {
                    &&& refs_among(fin.objects@[k], known2, seed0)
                    &&& copyable_kind(fin.objects@[k]) ==> opt_among(known2, seed0, extension_of(fin.xdic_by_handle@, Handle { value: k }))
                } by {
                    if k == dh.value {
                        assert(known.contains(k));
                        assert(doc1.objects@.contains_key(k));
                        let d0 = dictionary_at(doc0.objects@, dh)->0;
                        assert(refs_among(doc2.objects@[k], known, seed0));
                        assert(d1.model() == d0.model());
                        let es = d2.model();
                        let w = without_key(d1.model(), loft_key());
                        assert forall|i: int| 0 <= i < es.len() implies among(known2, seed0, #[trigger] es[i].1) by {
                            let kk = key_index_from(w, loft_key(), 0);
                            lemma_key_index_from(w, loft_key(), 0);
                            if es[i].1 != record_handle {
                                if kk < w.len() {
                                    assert(es == w.update(kk, (loft_key(), record_handle)));
                                    assert(es[i] == w[i]);
                                } else {
                                    assert(es == w.push((loft_key(), record_handle)));
                                    assert(es[i] == w[i]);
                                }
                                let j = choose|j: int| 0 <= j < d1.model().len() && d1.model()[j] == w[i];
                                assert(among(known, seed0, d0.model()[j].1));
                            }
                        }
                        assert(k != node);
                        assert(extension_of(fin.xdic_by_handle@, dh) == extension_of(doc1.xdic_by_handle@, dh));
                    } else if k == record_handle.value {
                        if !known.contains(k) {
                            if reuse is Some {
                                let d0 = dictionary_at(doc0.objects@, dh)->0;
                                assert(doc1.objects@.contains_key(dh.value));
                                assert(refs_among(doc1.objects@[dh.value], known, seed0));
                                lemma_key_index_from(d1.model(), loft_key(), 0);
                                let j = key_index_from(d1.model(), loft_key(), 0);
                                assert(d1.model()[j].1 == record_handle);
                                assert(among(known, seed0, d0.model()[j].1));
                                assert(doc2.objects@.contains_key(k));
                                assert(false);
                            }
                            assert(k == doc2.header.handle_seed);
                            assert(!doc2.xdic_by_handle@.contains_key(k));
                        } else {
                            assert(k != node);
                            assert(extension_of(fin.xdic_by_handle@, record_handle) == extension_of(doc2.xdic_by_handle@, record_handle));
                        }
                    } else {
                        assert(known.contains(k));
                        assert(fin.objects@[k] == doc2.objects@[k]);
                        lemma_refs_among_grow(doc2.objects@[k], known, known2, seed0);
                    }
                }
                assert(known_closed(known2, fin, seed0));
                assert forall|k: u64| #[trigger] doc0.objects@.contains_key(k) && k != dh.value && k != node
                    && Some(record_handle) != Some(Handle { value: k }) implies fin.objects@.contains_key(k)
                    && fin.objects@[k] == doc0.objects@[k] by {
                    assert(k != record_handle.value);
                }
                if doc0.objects@.contains_key(record_handle.value) {
                    assert(doc2.objects@[record_handle.value] == doc0.objects@[record_handle.value]);
                }
            }
            (dh, Some(record_handle))
        },
        None => {
            proof {
                reveal_strlit("CADCODEC_LOFT_OPTIONS_V1");
                lemma_without_key(d1.model(), loft_key());
            }
            remove_record(document, &mut dictionary, "CADCODEC_LOFT_OPTIONS_V1");
            let ghost d2 = dictionary;
            let ghost o3 = document.objects@;
            proof {
                let w = d2.model();
                assert(w == without_key(d1.model(), loft_key()));
                match lookup(d1.model(), loft_key()) {
                    Some(x) => {
                        if o3 != doc2.objects@ {
                            lemma_objects_wf_remove(doc2.objects@, doc2.header.handle_seed, x.value);
                        }
                    },
                    None => {},
                }
                assert forall|i: int| 0 <= i < w.len() implies (#[trigger] w[i]).1.value < doc2.header.handle_seed by {
                    let j = choose|j: int| 0 <= j < d1.model().len() && d1.model()[j] == w[i];
                    assert(d1.model()[j].1.value < doc1.header.handle_seed);
                }
                lemma_objects_wf_insert(o3, doc2.header.handle_seed, dh.value, ObjectType::Dictionary(d2));
            }
            document.objects.insert(dh.value, ObjectType::Dictionary(dictionary));
            proof {
                let fin = *document;
                assert(fin.objects@ == o3.insert(dh.value, ObjectType::Dictionary(d2)));
                assert forall|k: u64| #[trigger] fin.objects@.contains_key(k) && k < seed0 implies known.contains(k) by {
                    assert(doc2.objects@.contains_key(k));
                }
                assert forall|k: u64| #[trigger] known.contains(k) && fin.objects@.contains_key(k) implies {
                    &&& refs_among(fin.objects@[k], known, seed0)
                    &&& copyable_kind(fin.objects@[k]) ==> opt_among(known, seed0, extension_of(fin.xdic_by_handle@, Handle { value: k }))
                } by {
                    assert(doc2.objects@.contains_key(k));
                    if k == dh.value {
                        let d0 = dictionary_at(doc0.objects@, dh)->0;
                        assert(doc1.objects@.contains_key(k));
                        assert(refs_among(doc2.objects@[k], known, seed0));
                        let w = d2.model();
                        assert forall|i: int| 0 <= i < w.len() implies among(known, seed0, #[trigger] w[i].1) by {
                            let j = choose|j: int| 0 <= j < d1.model().len() && d1.model()[j] == w[i];
                            assert(among(known, seed0, d0.model()[j].1));
                        }
                    } else {
                        assert(fin.objects@[k] == doc2.objects@[k]);
                    }
                }
                assert(known_closed(known, fin, seed0));
            }
            (dh, None)
        },
    }
}

/// The reference a loft node leaves to store: its extension dictionary, as the
/// node records it, and its settings; only for a loft node with settings or a
/// settings record.
pub open spec fn settings_reference(objects: Map<u64, ObjectType>, k: u64) -> Option<(Option<Handle>, Option<LoftParametersModel>)> {
    if objects.contains_key(k) {
        match objects[k] {
            ObjectType::DynamicBlock(b) => match b.data {
                DynamicBlockData::SolidHistoryNode(SolidHistoryOperation::Loft(l)) => {
                    let settings = match l.parameters {
                        Some(p) => Some(p@),
                        None => None,
                    };
                    if settings is Some || has_record_spec(objects, b.xdictionary_handle, loft_key()) {
                        Some((b.xdictionary_handle, settings))
                    } else {
                        None
                    }
                },
                _ => None,
            },
            _ => None,
        }
    } else {
        None
    }
}

/// What storing leaves for the object under `k` of the objects before: a loft
/// node with settings that can be written has them read back from its record;
/// one with only a stale record has it dropped.
pub open spec fn node_stored(objects: Map<u64, ObjectType>, objects0: Map<u64, ObjectType>, k: u64) -> bool {
    match settings_reference(objects0, k) {
        Some((_, Some(p))) => encodable(p) ==> {
            &&& stored_settings(objects, k) == Some(p)
            &&& settings_slot(objects, k) matches Some((x, Some(h)))
                && xrecord_at(objects, h) matches Some(r) && r.owner == x
        },
        Some((_, None)) => stored_settings(objects, k) is None && settings_slot(objects, k) matches Some((_, None)),
        None => true,
    }
}

/// A stored node stays stored through storing for entities (see
/// `objects_kept_but`): the node, the dictionary it uses, which is a dynamic
/// block's, and the record that dictionary owns are none of what such storing
/// changes.
pub proof fn lemma_node_stored_kept(
    a: Map<u64, ObjectType>,
    b: Map<u64, ObjectType>,
    objects0: Map<u64, ObjectType>,
    dicts: Set<u64>,
    seed: u64,
    k: u64,
)
    requires
        node_stored(a, objects0, k),
        objects_kept_but(a, b, dicts, seed),
        forall|h: u64| #[trigger] a.contains_key(h) ==> h < seed,
    ensures
        node_stored(b, objects0, k),
{
    if settings_slot(a, k) is Some {
        let (x, slot) = settings_slot(a, k)->0;
        assert(a.contains_key(k));
        assert(!object_writable(a, dicts, seed, k));
        assert(b[k] == a[k]);
        assert(a.contains_key(x.value));
        assert(block_dictionary(a, x.value));
        assert(!object_writable(a, dicts, seed, x.value));
        assert(b[x.value] == a[x.value]);
        match slot {
            Some(h) => {
                if xrecord_at(a, h) matches Some(r) && r.owner == x {
                    assert(a.contains_key(h.value));
                    assert(!object_writable(a, dicts, seed, h.value));
                    assert(b[h.value] == a[h.value]);
                }
            },
            None => {},
        }
    }
}

/// The extension dictionary of the loft node under `k`, when it is a plain
/// dictionary, and what it names under the settings key.
pub open spec fn settings_slot(objects: Map<u64, ObjectType>, k: u64) -> Option<(Handle, Option<Handle>)> {
    if objects.contains_key(k) {
        match objects[k] {
            ObjectType::DynamicBlock(b) => match b.data {
                DynamicBlockData::SolidHistoryNode(SolidHistoryOperation::Loft(_)) => match b.xdictionary_handle {
                    Some(x) => match dictionary_at(objects, x) {
                        Some(d) => Some((x, lookup(d.model(), loft_key()))),
                        None => None,
                    },
                    None => None,
                },
                _ => None,
            },
            _ => None,
        }
    } else {
        None
    }
}

/// One more stored node keeps what the earlier ones left: the next dictionary
/// and record are neither an earlier node, dictionary or record, and the next
/// link is written for another node.
pub proof fn lemma_store_settings_step(
    objects0: Map<u64, ObjectType>,
    refs: Seq<(u64, Option<Handle>, Option<LoftParametersModel>)>,
    ds: Seq<Handle>,
    rs: Seq<Option<Handle>>,
    before: CadDocument,
    fin: CadDocument,
    j: int,
    d: Handle,
    r: Option<Handle>,
)
    requires
        0 <= j < refs.len(),
        ds.len() == j,
        rs.len() == j,
        forall|a: int, b: int| 0 <= a < b < refs.len() ==> (#[trigger] refs[a]).0 != (#[trigger] refs[b]).0,
        before.handles_wf(),
        forall|m: int| j <= m < refs.len() ==> {
            &&& before.objects@.contains_key((#[trigger] refs[m]).0)
            &&& before.objects@[refs[m].0] == objects0[refs[m].0]
            &&& is_loft_node(objects0[refs[m].0])
            &&& objects0[refs[m].0]->DynamicBlock_0.xdictionary_handle == refs[m].1
        },
        forall|m: int| 0 <= m < j ==> {
            &&& before.xdic_by_handle@.contains_key((#[trigger] refs[m]).0)
            &&& before.xdic_by_handle@[refs[m].0] == ds[m].value
            &&& before.objects@.contains_key(refs[m].0)
            &&& before.objects@[refs[m].0] == node_with_xdictionary(objects0[refs[m].0], Some(ds[m]))
            &&& is_loft_node(objects0[refs[m].0])
            &&& dictionary_at(before.objects@, ds[m]) is Some
            &&& lookup(dictionary_at(before.objects@, ds[m])->0.model(), loft_key()) == rs[m]
            &&& (refs[m].2 is Some ==> {
                &&& rs[m] is Some && rs[m]->0 != ds[m]
                &&& xrecord_at(before.objects@, rs[m]->0) matches Some(x) && x.owner == ds[m]
                    && x.model() == encoded(refs[m].2->0)
            })
            &&& (refs[m].2 is None ==> rs[m] is None)
            &&& forall|l: int| j <= l < refs.len() ==> refs[l].1 != Some(ds[m])
        },
        settings_stored_one(before, fin, refs[j].0, refs[j].1, refs[j].2, d, r),
    ensures
        forall|m: int| j + 1 <= m < refs.len() ==> {
            &&& fin.objects@.contains_key((#[trigger] refs[m]).0)
            &&& fin.objects@[refs[m].0] == objects0[refs[m].0]
        },
        forall|m: int| 0 <= m < j + 1 ==> {
            &&& fin.xdic_by_handle@.contains_key((#[trigger] refs[m]).0)
            &&& fin.xdic_by_handle@[refs[m].0] == ds.push(d)[m].value
            &&& fin.objects@.contains_key(refs[m].0)
            &&& fin.objects@[refs[m].0] == node_with_xdictionary(objects0[refs[m].0], Some(ds.push(d)[m]))
            &&& dictionary_at(fin.objects@, ds.push(d)[m]) is Some
            &&& lookup(dictionary_at(fin.objects@, ds.push(d)[m])->0.model(), loft_key()) == rs.push(r)[m]
            &&& (refs[m].2 is Some ==> {
                &&& rs.push(r)[m] is Some && rs.push(r)[m]->0 != ds.push(d)[m]
                &&& xrecord_at(fin.objects@, rs.push(r)[m]->0) matches Some(x) && x.owner == ds.push(d)[m]
                    && x.model() == encoded(refs[m].2->0)
            })
            &&& (refs[m].2 is None ==> rs.push(r)[m] is None)
            &&& forall|l: int| j + 1 <= l < refs.len() ==> refs[l].1 != Some(ds.push(d)[m])
        },
{
    let (node, previous, settings) = refs[j];
    // A later node does not name the new dictionary.
    assert forall|l: int| j + 1 <= l < refs.len() implies refs[l].1 != Some(d) by {
        if refs[l].1 == Some(d) {
            let nl = refs[l].0;
            assert(nl != node);
            assert(before.objects@[nl] == objects0[nl]);
            if before.header.handle_seed <= d.value && !before.objects@.contains_key(d.value) {
                assert(refs_below(before.objects@[nl], before.header.handle_seed));
            } else {
                assert(crate::io::metadata_copy::object_shares(before.objects@[nl], nl, before.xdic_by_handle@,
                    Handle { value: node }, previous));
                assert(shared_dictionary(before, Handle { value: node }, previous));
            }
        }
    }
    assert forall|m: int| j + 1 <= m < refs.len() implies {
        &&& fin.objects@.contains_key((#[trigger] refs[m]).0)
        &&& fin.objects@[refs[m].0] == objects0[refs[m].0]
    } by {
        let nm = refs[m].0;
        assert(nm != node);
        assert(before.objects@.contains_key(nm));
        if nm == d.value {
            assert(dictionary_at(before.objects@, d) is Some);
        }
        if r == Some(Handle { value: nm }) {
            assert(false);
        }
    }
    assert forall|m: int| 0 <= m < j implies {
        &&& fin.xdic_by_handle@.contains_key((#[trigger] refs[m]).0)
        &&& fin.xdic_by_handle@[refs[m].0] == ds[m].value
        &&& fin.objects@.contains_key(refs[m].0)
        &&& fin.objects@[refs[m].0] == node_with_xdictionary(objects0[refs[m].0], Some(ds[m]))
        &&& dictionary_at(fin.objects@, ds[m]) is Some
        &&& lookup(dictionary_at(fin.objects@, ds[m])->0.model(), loft_key()) == rs[m]
        &&& (refs[m].2 is Some ==> {
            &&& rs[m] is Some && rs[m]->0 != ds[m]
            &&& xrecord_at(fin.objects@, rs[m]->0) matches Some(x) && x.owner == ds[m]
                && x.model() == encoded(refs[m].2->0)
        })
    } by {
        let nm = refs[m].0;
        let dm = ds[m];
        assert(nm != node);
        assert(dm != d) by {
            assert(refs[j].1 != Some(dm));
        }
        assert(before.objects@.contains_key(dm.value));
        if r == Some(dm) {
            assert(false);
        }
        if dm.value == node {
            assert(false);
        }
        assert(fin.objects@.contains_key(dm.value));
        if nm == d.value {
            assert(false);
        }
        if r == Some(Handle { value: nm }) {
            assert(false);
        }
        assert(fin.objects@.contains_key(nm));
        if refs[m].2 is Some {
            let rm = rs[m]->0;
            assert(before.objects@.contains_key(rm.value));
            assert(rm != d);
            if r == Some(rm) {
                assert(false);
            }
            if rm.value == node {
                assert(false);
            }
            assert(fin.objects@.contains_key(rm.value));
        }
    }
}

/// Handles from `lo` up to `hi`.
pub open spec fn handle_range(lo: u64, hi: u64) -> Set<u64> {
    Set::new(|k: u64| lo <= k < hi)
}

/// The handles from `lo` up to `hi` number `hi - lo`.
pub proof fn lemma_handle_range(lo: u64, hi: u64)
    requires
        lo <= hi,
    ensures
        handle_range(lo, hi).finite(),
        handle_range(lo, hi).len() == hi - lo,
    decreases hi - lo,
{
    if lo == hi {
        assert(handle_range(lo, hi) =~= Set::<u64>::empty());
    } else {
        lemma_handle_range(lo, (hi - 1) as u64);
        assert(handle_range(lo, hi) =~= handle_range(lo, (hi - 1) as u64).insert((hi - 1) as u64));
    }
}

/// Objects stored only under old handles or handles from the old seed up to
/// the new one number at most the old ones and the new handles.
pub proof fn lemma_object_count(a: Map<u64, ObjectType>, b: Map<u64, ObjectType>, lo: u64, hi: u64)
    requires
        a.dom().finite(),
        lo <= hi,
        forall|k: u64| #[trigger] b.contains_key(k) && !a.contains_key(k) ==> lo <= k < hi,
    ensures
        b.dom().finite(),
        b.dom().len() <= a.dom().len() + (hi - lo),
{
    lemma_handle_range(lo, hi);
    let u = a.dom().union(handle_range(lo, hi));
    assert(b.dom().subset_of(u));
    vstd::set_lib::lemma_len_union(a.dom(), handle_range(lo, hi));
    vstd::set_lib::lemma_len_subset(b.dom(), u);
}

/// What storing the loft settings does (see `store_settings`): the document
/// stays well formed and, but for objects and links, as it was; the seed and
/// the object count grow within bounds; links of non-objects stay and new ones
/// are for objects or from the seed on; new objects lie from the seed on; and
/// each loft node is stored (see `node_stored`).
pub open spec fn settings_stored_all(a: CadDocument, b: CadDocument) -> bool {
    &&& b.handles_wf()
    &&& metadata_frame_but_entities(a, b)
    &&& b.entities == a.entities
    &&& b.header.named_objects_dict_handle == a.header.named_objects_dict_handle
    &&& b.header.acad_plotstylename_dict_handle == a.header.acad_plotstylename_dict_handle
    &&& b.header.acad_material_dict_handle == a.header.acad_material_dict_handle
    &&& a.header.handle_seed <= b.header.handle_seed
    &&& b.header.handle_seed <= a.header.handle_seed
        + a.objects@.dom().len() * (2 * a.objects@.dom().len() + 3)
    &&& b.objects@.dom().len() <= a.objects@.dom().len()
        + (b.header.handle_seed - a.header.handle_seed)
    &&& forall|k: u64| #[trigger] a.xdic_by_handle@.contains_key(k) && !a.objects@.contains_key(k)
        ==> b.xdic_by_handle@.contains_key(k)
        && b.xdic_by_handle@[k] == a.xdic_by_handle@[k]
    &&& forall|k: u64| #[trigger] b.xdic_by_handle@.contains_key(k) && !a.xdic_by_handle@.contains_key(k)
        ==> a.objects@.contains_key(k) || a.header.handle_seed <= k
    &&& forall|k: u64| #[trigger] b.objects@.contains_key(k) && !a.objects@.contains_key(k)
        ==> a.header.handle_seed <= k
    &&& forall|k: u64| #[trigger] a.objects@.contains_key(k)
        ==> node_stored(b.objects@, a.objects@, k)
}

/// Record each loft node's settings as a record of its extension dictionary,
/// made its own (see `writable_dictionary`): a node with settings gets a
/// record that holds them (see `encode`); a node with only a stale record has
/// it dropped. The nodes to store are taken from the document before any change.
#[verifier::rlimit(60)]
#[verifier::spinoff_prover]
pub fn store_settings(document: &mut CadDocument)
    requires
        old(document).handles_wf(),
        old(document).header.handle_seed + (old(document).objects@.dom().len() + 1)
            * (2 * old(document).objects@.dom().len() + 3) <= u64::MAX,
    ensures
        settings_stored_all(*old(document), *final(document)),
        (forall|k: u64| #[trigger] settings_reference(old(document).objects@, k) is None) ==> *final(document) == *old(document),
{
    let ghost doc0 = *document;
    let ghost objects0 = document.objects@;
    let ghost seed0 = document.header.handle_seed;
    let ghost n = objects0.dom().len();
    let keys = object_keys(document);
    proof {
        assert(keys@.to_set() =~= objects0.dom());
        keys@.unique_seq_to_set();
        assert(keys@.len() == n);
    }
    let mut refs: Vec<(u64, Option<Handle>, Option<SolidHistoryLoftParameters>)> = Vec::new();
    let mut i: usize = 0;
    while i < keys.len()
        invariant
            *document == doc0,
            objects0 == doc0.objects@,
            i <= keys@.len(),
            keys@.len() == n,
            keys@.no_duplicates(),
            forall|k: u64| objects0.contains_key(k) <==> keys@.contains(k),
            refs@.len() <= i,
            forall|m: int| 0 <= m < refs@.len() ==> settings_reference(objects0, (#[trigger] refs@[m]).0)
                == Some((refs@[m].1, match refs@[m].2 {
                    Some(p) => Some(p@),
                    None => None,
                })),
            forall|m: int| 0 <= m < refs@.len() ==> exists|j: int| 0 <= j < i && keys@[j] == (#[trigger] refs@[m]).0,
            forall|a: int, b: int| 0 <= a < b < refs@.len() ==> (#[trigger] refs@[a]).0 != (#[trigger] refs@[b]).0,
            forall|j: int| 0 <= j < i && (#[trigger] settings_reference(objects0, keys@[j])) is Some
                ==> exists|m: int| 0 <= m < refs@.len() && refs@[m].0 == keys@[j],
        decreases keys@.len() - i,
    {
        let k = keys[i];
        let ghost r0 = refs@;
        let found = match document.objects.get(&k) {
            Some(ObjectType::DynamicBlock(b)) => match &b.data {
                DynamicBlockData::SolidHistoryNode(SolidHistoryOperation::Loft(loft)) => {
                    let settings = match &loft.parameters {
                        Some(p) => Some(copy_parameters(p)),
                        None => None,
                    };
                    proof {
                        reveal_strlit("CADCODEC_LOFT_OPTIONS_V1");
                    }
                    if settings.is_some() || has_record(document, b.xdictionary_handle, "CADCODEC_LOFT_OPTIONS_V1") {
                        Some((b.xdictionary_handle, settings))
                    } else {
                        None
                    }
                },
                _ => None,
            },
            _ => None,
        };
        match found {
            Some((previous, settings)) => {
                proof {
                    assert forall|m: int| 0 <= m < r0.len() implies r0[m].0 != k by {
                        let j = choose|j: int| 0 <= j < i && keys@[j] == r0[m].0;
                    }
                }
                refs.push((k, previous, settings));
                assert(refs@[r0.len() as int].0 == k);
            },
            None => {
                assert(settings_reference(objects0, k) is None);
            },
        }
        proof {
            assert forall|m: int| 0 <= m < refs@.len() implies exists|j: int| 0 <= j < i + 1 && keys@[j] == (#[trigger] refs@[m]).0 by {
                if m < r0.len() {
                    assert(refs@[m] == r0[m]);
                    let j = choose|j: int| 0 <= j < i && keys@[j] == r0[m].0;
                } else {
                    assert(keys@[i as int] == refs@[m].0);
                }
            }
            assert forall|j: int| 0 <= j < i + 1 && (#[trigger] settings_reference(objects0, keys@[j])) is Some
                implies exists|m: int| 0 <= m < refs@.len() && refs@[m].0 == keys@[j] by {
                if j < i {
                    let m = choose|m: int| 0 <= m < r0.len() && r0[m].0 == keys@[j];
                    assert(refs@[m] == r0[m]);
                } else {
                    assert(refs@[r0.len() as int].0 == keys@[j]);
                }
            }
        }
        i += 1;
    }
    let ghost cost: int = (2 * n + 3) as int;
    let ghost mut known: Set<u64> = objects0.dom();
    let ghost mut ds: Seq<Handle> = Seq::empty();
    let ghost mut rs: Seq<Option<Handle>> = Seq::empty();
    let ghost rmodel = refs@.map_values(|t: (u64, Option<Handle>, Option<SolidHistoryLoftParameters>)| (t.0, t.1, match t.2 {
        Some(p) => Some(p@),
        None => None,
    }));
    proof {
        assert(known_closed(known, *document, seed0)) by {
            assert forall|k: u64| #[trigger] known.contains(k) && document.objects@.contains_key(k) implies {
                &&& refs_among(document.objects@[k], known, seed0)
                &&& copyable_kind(document.objects@[k]) ==> opt_among(known, seed0, extension_of(document.xdic_by_handle@, Handle { value: k }))
            } by {
                crate::io::surface_history::lemma_refs_below_among(document.objects@[k], known, seed0);
            }
        }
        assert forall|m: int| 0 <= m < refs@.len() implies objects0.contains_key((#[trigger] refs@[m]).0) by {
            let j = choose|j: int| 0 <= j < keys@.len() && keys@[j] == refs@[m].0;
        }
    }
    let ghost nothing = forall|k: u64| #[trigger] settings_reference(objects0, k) is None;
    proof {
        if nothing && refs@.len() > 0 {
            assert(settings_reference(objects0, refs@[0].0) is Some);
        }
    }
    let mut j: usize = 0;
    while j < refs.len()
        invariant
            j <= refs@.len(),
            j == 0 ==> *document == doc0,
            nothing ==> refs@.len() == 0,
            nothing == forall|k: u64| #[trigger] settings_reference(objects0, k) is None,
            refs@.len() <= n,
            n == objects0.dom().len(),
            cost == 2 * n + 3,
            rmodel.len() == refs@.len(),
            forall|m: int| 0 <= m < refs@.len() ==> (#[trigger] rmodel[m]) == ((refs@[m]).0, refs@[m].1, match refs@[m].2 {
                Some(p) => Some(p@),
                None => None,
            }),
            document.handles_wf(),
            known_closed(known, *document, seed0),
            known.len() <= n + j,
            seed0 <= document.header.handle_seed,
            document.header.handle_seed <= seed0 + j * cost,
            document.header.handle_seed + (n + 1 - j) * cost <= u64::MAX,
            doc0.objects@ == objects0,
            doc0.header.handle_seed == seed0,
            doc0.handles_wf(),
            metadata_frame_but_entities(doc0, *document),
            document.entities == doc0.entities,
            document.header.named_objects_dict_handle == doc0.header.named_objects_dict_handle,
            document.header.acad_plotstylename_dict_handle == doc0.header.acad_plotstylename_dict_handle,
            document.header.acad_material_dict_handle == doc0.header.acad_material_dict_handle,
            forall|m: int| 0 <= m < refs@.len() ==> settings_reference(objects0, (#[trigger] refs@[m]).0)
                == Some((refs@[m].1, match refs@[m].2 {
                    Some(p) => Some(p@),
                    None => None,
                })),
            forall|m: int| 0 <= m < refs@.len() ==> objects0.contains_key((#[trigger] refs@[m]).0),
            forall|a: int, b: int| 0 <= a < b < refs@.len() ==> (#[trigger] refs@[a]).0 != (#[trigger] refs@[b]).0,
            forall|k: u64| #[trigger] objects0.contains_key(k) && settings_reference(objects0, k) is Some
                ==> exists|m: int| 0 <= m < refs@.len() && refs@[m].0 == k,
            forall|k: u64| #[trigger] document.objects@.contains_key(k) && !objects0.contains_key(k) ==> seed0 <= k,
            forall|k: u64| #[trigger] doc0.xdic_by_handle@.contains_key(k) && !objects0.contains_key(k)
                ==> document.xdic_by_handle@.contains_key(k) && document.xdic_by_handle@[k] == doc0.xdic_by_handle@[k],
            forall|k: u64| #[trigger] document.xdic_by_handle@.contains_key(k) && !doc0.xdic_by_handle@.contains_key(k)
                ==> objects0.contains_key(k) || seed0 <= k,
            ds.len() == j,
            rs.len() == j,
            forall|m: int| j <= m < refs@.len() ==> {
                &&& document.objects@.contains_key((#[trigger] rmodel[m]).0)
                &&& document.objects@[rmodel[m].0] == objects0[rmodel[m].0]
                &&& is_loft_node(objects0[rmodel[m].0])
                &&& objects0[rmodel[m].0]->DynamicBlock_0.xdictionary_handle == rmodel[m].1
            },
            forall|m: int| 0 <= m < j ==> {
                &&& document.xdic_by_handle@.contains_key((#[trigger] rmodel[m]).0)
                &&& document.xdic_by_handle@[rmodel[m].0] == ds[m].value
                &&& document.objects@.contains_key(rmodel[m].0)
                &&& document.objects@[rmodel[m].0] == node_with_xdictionary(objects0[rmodel[m].0], Some(ds[m]))
                &&& is_loft_node(objects0[rmodel[m].0])
                &&& dictionary_at(document.objects@, ds[m]) is Some
                &&& lookup(dictionary_at(document.objects@, ds[m])->0.model(), loft_key()) == rs[m]
                &&& (rmodel[m].2 is Some ==> {
                    &&& rs[m] is Some && rs[m]->0 != ds[m]
                    &&& xrecord_at(document.objects@, rs[m]->0) matches Some(x) && x.owner == ds[m]
                        && x.model() == encoded(rmodel[m].2->0)
                })
                &&& (rmodel[m].2 is None ==> rs[m] is None)
                &&& forall|l: int| j <= l < refs@.len() ==> rmodel[l].1 != Some(ds[m])
            },
        decreases refs@.len() - j,
    {
        let ghost before = *document;
        let node = refs[j].0;
        let previous = refs[j].1;
        let settings = match &refs[j].2 {
            Some(p) => Some(copy_parameters(p)),
            None => None,
        };
        proof {
            assert(rmodel[j as int] == (node, previous, match settings {
                Some(p) => Some(p@),
                None => None,
            }));
            assert(objects0.contains_key(node));
            assert(refs_below(objects0[node], seed0));
            assert(known.len() <= cost - 3);
            assert((n + 1 - j) * cost >= cost) by (nonlinear_arith)
                requires 1 <= n + 1 - j, 0 <= cost;
        }
        let (dh, rh) = store_settings_one(document, node, previous, settings, Ghost(known), Ghost(seed0));
        proof {
            let fin = *document;
            let known2 = if known.contains(dh.value) && rh is Some { known.insert(rh->0.value) } else { known };
            assert(known2.len() <= known.len() + 1) by {
                if known.contains(dh.value) && rh is Some {
                    vstd::set_lib::lemma_len_subset(known, known2);
                }
            }
            assert((n + 1 - j) * cost == (n - j) * cost + cost) by (nonlinear_arith);
            assert((j + 1) * cost == j * cost + cost) by (nonlinear_arith);
            assert forall|k: u64| #[trigger] fin.objects@.contains_key(k) && !objects0.contains_key(k) implies seed0 <= k by {
                if !before.objects@.contains_key(k) {
                    assert(before.header.handle_seed <= k);
                }
            }
            assert forall|k: u64| #[trigger] doc0.xdic_by_handle@.contains_key(k) && !objects0.contains_key(k)
                implies fin.xdic_by_handle@.contains_key(k) && fin.xdic_by_handle@[k] == doc0.xdic_by_handle@[k] by {
                assert(k != node);
            }
            assert forall|k: u64| #[trigger] fin.xdic_by_handle@.contains_key(k) && !doc0.xdic_by_handle@.contains_key(k)
                implies objects0.contains_key(k) || seed0 <= k by {
                if k != node && !before.xdic_by_handle@.contains_key(k) {
                    assert(before.header.handle_seed <= k);
                }
            }
            lemma_store_settings_step(objects0, rmodel, ds, rs, before, fin, j as int, dh, rh);
            known = known2;
            ds = ds.push(dh);
            rs = rs.push(rh);
        }
        j += 1;
    }
    proof {
        assert(refs@.len() * cost <= n * cost) by (nonlinear_arith)
            requires refs@.len() <= n, 0 <= cost;
        lemma_object_count(objects0, document.objects@, seed0, document.header.handle_seed);
        assert forall|k: u64| #[trigger] objects0.contains_key(k) implies node_stored(document.objects@, objects0, k) by {
            match settings_reference(objects0, k) {
                Some(t) => {
                    let m = choose|m: int| 0 <= m < refs@.len() && refs@[m].0 == k;
                    assert(rmodel[m].0 == k);
                    let dm = ds[m];
                    let node_obj = document.objects@[k];
                    assert(node_obj == node_with_xdictionary(objects0[k], Some(dm)));
                    match t.1 {
                        Some(p) => {
                            let x = xrecord_at(document.objects@, rs[m]->0)->0;
                            if encodable(p) {
                                law_decode_encode(p);
                                assert(decoded(x.model()) == Some(p));
                            }
                        },
                        None => {},
                    }
                },
                None => {},
            }
        }
    }
}

/// Room for preparing a document: for storing the loft settings, then the
/// lofted surfaces' inputs in what that leaves at most, and then the
/// surfaces' history links in what those leave at most.
pub open spec fn prepare_room(doc: CadDocument) -> bool {
    let n = doc.objects@.dom().len();
    let m = doc.entities@.len();
    let seed1 = doc.header.handle_seed + n * (2 * n + 3);
    let n1 = n + n * (2 * n + 3);
    let seed2 = seed1 + m * (n1 + m + 3);
    let n2 = n1 + m * (n1 + m + 3);
    &&& doc.header.handle_seed + (n + 1) * (2 * n + 3) <= u64::MAX
    &&& seed1 + (m + 1) * (n1 + m + 3) <= u64::MAX
    &&& seed2 + (m + 1) * (n2 + m + 3) <= u64::MAX
}

/// Nothing to prepare: no loft node has settings or a settings record, no
/// lofted surface has inputs or an inputs record (see `has_inputs`), and no
/// surface has a history root or a history record (see `has_references`).
pub open spec fn nothing_to_prepare(doc: CadDocument) -> bool {
    &&& forall|k: u64| #[trigger] settings_reference(doc.objects@, k) is None
    &&& forall|i: int| 0 <= i < doc.entities@.len()
        ==> (#[trigger] loft_surface_curves::inputs_reference(doc.objects@, doc.entities@[i])) is None
    &&& forall|i: int| 0 <= i < doc.entities@.len()
        ==> !surface_history::references_history(doc.objects@, doc.xdic_by_handle@, #[trigger] doc.entities@[i])
}

/// A document prepared for writing: the loft nodes' settings (see
/// `store_settings`), the lofted surfaces' inputs (see
/// `loft_surface_curves::store`) and the surfaces' history links (see
/// `surface_history::store`) kept as records, for formats whose records have
/// no slot for them. The settings records stay through the two later steps,
/// which change no dynamic block and no dictionary or record that one uses.
pub fn prepared(document: CadDocument) -> (r: CadDocument)
    requires
        document.handles_wf(),
        surface_history::surfaces_apart(document),
        loft_surface_curves::lofted_apart(document),
        prepare_room(document),
    ensures
        exists|m1: CadDocument, m2: CadDocument| settings_stored_all(document, m1)
            && loft_surface_curves::inputs_stored_all(m1, m2) && surface_history::histories_stored_all(m2, r),
        forall|k: u64| #[trigger] document.objects@.contains_key(k) ==> node_stored(r.objects@, document.objects@, k),
        nothing_to_prepare(document) ==> r == document,
{
    let mut output = document;
    let ghost doc0 = output;
    let ghost n = doc0.objects@.dom().len();
    let ghost m = doc0.entities@.len();
    let ghost seed1 = doc0.header.handle_seed + n * (2 * n + 3);
    let ghost n1 = n + n * (2 * n + 3);
    store_settings(&mut output);
    let ghost mid1 = output;
    proof {
        assert forall|i: int| 0 <= i < mid1.entities@.len() && loft_surface_curves::is_lofted(#[trigger] mid1.entities@[i]) implies {
            &&& mid1.entities@[i].common_spec().handle.value < mid1.header.handle_seed
            &&& !mid1.objects@.contains_key(mid1.entities@[i].common_spec().handle.value)
            &&& opt_below(mid1.entities@[i].common_spec().xdictionary_handle, mid1.header.handle_seed)
        } by {
            assert(loft_surface_curves::is_lofted(doc0.entities@[i]));
        }
        let k1 = mid1.objects@.dom().len();
        assert(mid1.header.handle_seed <= seed1);
        assert(k1 <= n1);
        assert((m + 1) * (k1 + m + 3) <= (m + 1) * (n1 + m + 3)) by (nonlinear_arith)
            requires k1 <= n1;
    }
    loft_surface_curves::store(&mut output);
    let ghost mid2 = output;
    proof {
        let k1 = mid1.objects@.dom().len();
        let k2 = mid2.objects@.dom().len();
        assert(m * (k1 + m + 3) <= m * (n1 + m + 3)) by (nonlinear_arith)
            requires k1 <= n1;
        let seed2 = seed1 + m * (n1 + m + 3);
        let n2 = n1 + m * (n1 + m + 3);
        assert(mid2.header.handle_seed <= seed2);
        assert(k2 <= n2);
        assert((m + 1) * (k2 + m + 3) <= (m + 1) * (n2 + m + 3)) by (nonlinear_arith)
            requires k2 <= n2;
        assert forall|i: int| 0 <= i < mid2.entities@.len() && (#[trigger] mid2.entities@[i]) is Surface implies {
            &&& mid2.entities@[i].common_spec().handle.value < mid2.header.handle_seed
            &&& !mid2.objects@.contains_key(mid2.entities@[i].common_spec().handle.value)
        } by {
            assert(surface_history::same_but_xdictionary(mid1.entities@[i], mid2.entities@[i]));
            loft_surface_curves::lemma_same_but_xdictionary_handle(mid1.entities@[i], mid2.entities@[i]);
            assert(mid1.entities@[i] is Surface);
            assert(doc0.entities@[i] is Surface);
        }
    }
    proof {
        if nothing_to_prepare(doc0) {
            assert(mid2 == doc0);
            assert forall|i: int| 0 <= i < mid2.entities@.len() implies (#[trigger] surface_history::stored_reference(
                mid2.objects@, mid2.xdic_by_handle@, mid2.entities@[i])) is None by {
                assert(!surface_history::references_history(doc0.objects@, doc0.xdic_by_handle@, doc0.entities@[i]));
            }
        }
    }
    surface_history::store(&mut output);
    assert(settings_stored_all(doc0, mid1) && loft_surface_curves::inputs_stored_all(mid1, mid2)
        && surface_history::histories_stored_all(mid2, output));
    proof {
        // The settings stored first survive the two later steps.
        assert forall|k: u64| #[trigger] doc0.objects@.contains_key(k) implies node_stored(output.objects@, doc0.objects@, k) by {
            lemma_node_stored_kept(mid1.objects@, mid2.objects@, doc0.objects@,
                loft_surface_curves::inputs_dictionaries(mid1), mid1.header.handle_seed, k);
            lemma_node_stored_kept(mid2.objects@, output.objects@, doc0.objects@,
                surface_history::history_dictionaries(mid2), mid2.header.handle_seed, k);
        }
    }
    output
}

} // verus!
