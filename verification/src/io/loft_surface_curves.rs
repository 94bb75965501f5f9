//! The entities a lofted surface was lofted through, kept as a record of its
//! extension dictionary for formats whose surface records hold only database
//! references to them.

use vstd::prelude::*;
use crate::entities::embedded_entity::{EncodedEntity, EncodedEntityModel};
use crate::io::loft_parameters::{byte_len, chunk_entries, lemma_chunk_codes, lemma_chunks_no_handles, append_bytes, copy_range};
use crate::objects::xrecord::{EntryModel, ValueModel, XRecord, XRecordEntry, XRecordValue, model_as_i32};
use crate::entities::entity::{EntityType, Surface, SurfaceData};
use crate::document::{CadDocument, dictionary_at, same_besides_entities};
use crate::objects::dictionary::{ObjectType, lookup};
use crate::io::surface_history::{xrecord_at, entity_position, with_xdictionary, set_entity_xdictionary,
    metadata_frame_but_entities, lemma_refs_among_grow};
use crate::io::surface_history::{extension_of, entity_index_from, lemma_entity_index_from, same_but_xdictionary,
    lemma_with_common_twice, lemma_with_xdictionary, lemma_increasing_at_least, lemma_refs_below_among};
use crate::entities::entity::EntityCommon;
use crate::io::metadata_copy::{writable_dictionary, known_closed, lemma_known_closed, lemma_known_closed_grow,
    lemma_among_within, shared_dictionary, entity_shares, opt_among, among, refs_among, copyable_kind,
    objects_kept_but, lemma_kept_but_step};
use crate::io::extension_dictionary::{has_record, has_record_spec, remove_record};
use crate::objects::dictionary::{with_entry, without_key, key_index_from, lemma_key_index_from, lemma_without_key,
    law_lookup_after_add_entry};
use crate::objects::xrecord::{refers_to, model_as_handle, copy_bytes};
use crate::document::{lemma_objects_wf_grow, lemma_objects_wf_insert, lemma_objects_wf_remove, refs_below, opt_below};
use crate::types::Handle;

verus! {

/// Key of the inputs record in a lofted surface's extension dictionary.
pub open spec fn curves_key() -> Seq<char> {
    "CADCODEC_LOFT_CURVES_V1"@
}

/// Inputs of a lofted surface: cross sections, guides and the path.
pub type InputsModel = (Seq<EncodedEntityModel>, Seq<EncodedEntityModel>, Option<EncodedEntityModel>);

/// Bytes of the run of chunk entries (code 310) from `i`, and where the run
/// ends; none when a run entry is not a chunk or the bytes exceed `limit`.
pub open spec fn run_bytes(es: Seq<EntryModel>, i: int, limit: int, acc: Seq<u8>) -> Option<(Seq<u8>, int)>
    decreases es.len() - i,
{
    if 0 <= i < es.len() && es[i].code == 310 {
        match es[i].value {
            ValueModel::Chunk(c) => if acc.len() + c.len() > limit {
                None
            } else {
                run_bytes(es, i + 1, limit, acc + c)
            },
            _ => None,
        }
    } else {
        Some((acc, i))
    }
}

/// Inputs after adding an entity in a role: 0 a cross section, 1 a guide, 2
/// the path (only once); none for another role.
pub open spec fn with_input(acc: InputsModel, role: i32, e: EncodedEntityModel) -> Option<InputsModel> {
    if role == 0 {
        Some((acc.0.push(e), acc.1, acc.2))
    } else if role == 1 {
        Some((acc.0, acc.1.push(e), acc.2))
    } else if role == 2 && acc.2 is None {
        Some((acc.0, acc.1, Some(e)))
    } else {
        None
    }
}

/// Inputs read from position `index` on: groups of a role (code 70), an
/// entity type (91), a bit length (92, from 1 to 64 Mi) and the chunks of the
/// entity body, exactly as many bytes as hold the bits.
pub open spec fn parse_inputs(es: Seq<EntryModel>, index: int, acc: InputsModel) -> Option<InputsModel>
    decreases es.len() - index,
    via parse_inputs_decreases
{
    if index < 0 || index >= es.len() {
        Some(acc)
    } else if index + 2 >= es.len() {
        None
    } else if es[index].code != 70 || es[index + 1].code != 91 || es[index + 2].code != 92 {
        None
    } else {
        match (model_as_i32(es[index].value), model_as_i32(es[index + 1].value), model_as_i32(es[index + 2].value)) {
            (Some(role), Some(kind), Some(b)) => if b <= 0 || b > 67_108_864 {
                None
            } else {
                match run_bytes(es, index + 3, byte_len(b as int), Seq::empty()) {
                    None => None,
                    Some((bytes, next)) => if bytes.len() != byte_len(b as int) {
                        None
                    } else {
                        match with_input(acc, role, EncodedEntityModel { type_code: kind, bit_count: b as usize, bytes }) {
                            None => None,
                            Some(acc2) => parse_inputs(es, next, acc2),
                        }
                    },
                }
            },
            _ => None,
        }
    }
}

/// Each group read moves past its role, type and length entries.
#[via_fn]
proof fn parse_inputs_decreases(es: Seq<EntryModel>, index: int, acc: InputsModel) {
    if 0 <= index && index + 2 < es.len() {
        match model_as_i32(es[index + 2].value) {
            Some(b) => {
                lemma_run_bytes_end(es, index + 3, byte_len(b as int), Seq::empty());
            },
            None => {},
        }
    }
}

/// A run of chunks ends at or after where it starts, and not past the end.
pub proof fn lemma_run_bytes_end(es: Seq<EntryModel>, i: int, limit: int, acc: Seq<u8>)
    requires
        0 <= i <= es.len(),
    ensures
        run_bytes(es, i, limit, acc) matches Some((_, next)) ==> i <= next <= es.len(),
    decreases es.len() - i,
{
    if 0 <= i < es.len() && es[i].code == 310 {
        match es[i].value {
            ValueModel::Chunk(c) => {
                if acc.len() + c.len() <= limit {
                    lemma_run_bytes_end(es, i + 1, limit, acc + c);
                }
            },
            _ => {},
        }
    }
}

/// Inputs a record's entries hold: a version entry (code 90) of 1 first, then
/// the groups of `parse_inputs`.
pub open spec fn decoded_inputs(es: Seq<EntryModel>) -> Option<InputsModel> {
    if es.len() == 0 || es[0].code != 90 || model_as_i32(es[0].value) != Some(1i32) {
        None
    } else {
        parse_inputs(es, 1, (Seq::empty(), Seq::empty(), None))
    }
}

/// Models of encoded entities.
pub open spec fn entities_model(v: Seq<EncodedEntity>) -> Seq<EncodedEntityModel> {
    v.map_values(|e: EncodedEntity| e@)
}

/// Model of inputs.
pub open spec fn inputs_model(
    sections: Seq<EncodedEntity>,
    guides: Seq<EncodedEntity>,
    path: Option<EncodedEntity>,
) -> InputsModel {
    (entities_model(sections), entities_model(guides), match path {
        Some(e) => Some(e@),
        None => None,
    })
}

/// Entries of one input: its role (70), entity type (91), bit length (92) and body in chunks.
pub open spec fn group_entries(role: i16, e: EncodedEntityModel) -> Seq<EntryModel> {
    seq![
        EntryModel { code: 70, value: ValueModel::Int16(role) },
        EntryModel { code: 91, value: ValueModel::Int32(e.type_code) },
        EntryModel { code: 92, value: ValueModel::Int32(e.bit_count as i32) },
    ] + chunk_entries(e.bytes)
}

/// Entries of inputs in one role, in order.
pub open spec fn groups(role: i16, es: Seq<EncodedEntityModel>) -> Seq<EntryModel>
    decreases es.len(),
{
    if es.len() == 0 {
        Seq::empty()
    } else {
        groups(role, es.drop_last()) + group_entries(role, es.last())
    }
}

/// Entries of the inputs record: the version, then the cross sections (role
/// 0), the guides (role 1) and the path (role 2).
pub open spec fn encoded_inputs(i: InputsModel) -> Seq<EntryModel> {
    seq![EntryModel { code: 90, value: ValueModel::Int32(1) }] + groups(0, i.0) + groups(1, i.1) + match i.2 {
        Some(e) => group_entries(2, e),
        None => Seq::empty(),
    }
}

/// An entity body that can be written and read back: 1 to 64 Mi bits, and
/// exactly the bytes that hold them.
pub open spec fn encodable_entity(e: EncodedEntityModel) -> bool {
    1 <= e.bit_count <= 67_108_864 && e.bytes.len() == byte_len(e.bit_count as int)
}

/// Inputs that can be written and read back.
pub open spec fn encodable_inputs(i: InputsModel) -> bool {
    &&& forall|k: int| 0 <= k < i.0.len() ==> encodable_entity(#[trigger] i.0[k])
    &&& forall|k: int| 0 <= k < i.1.len() ==> encodable_entity(#[trigger] i.1[k])
    &&& i.2 matches Some(e) ==> encodable_entity(e)
}

/// A run of chunk entries of some bytes, followed by the end or by an entry
/// that is not a chunk entry, reads back those bytes within the limit.
pub proof fn lemma_run_chunks(es: Seq<EntryModel>, i: int, bytes: Seq<u8>, limit: int, acc: Seq<u8>)
    requires
        0 <= i,
        i + chunk_entries(bytes).len() <= es.len(),
        es.subrange(i, i + chunk_entries(bytes).len()) == chunk_entries(bytes),
        i + chunk_entries(bytes).len() < es.len() ==> es[i + chunk_entries(bytes).len()].code != 310,
        acc.len() + bytes.len() <= limit,
    ensures
        run_bytes(es, i, limit, acc) == Some((acc + bytes, i + chunk_entries(bytes).len())),
    decreases bytes.len(),
{
    let k = chunk_entries(bytes).len() as int;
    if bytes.len() == 0 {
        assert(acc + bytes =~= acc);
    } else {
        let head = if bytes.len() <= 127 { bytes } else { bytes.take(127) };
        let tail = if bytes.len() <= 127 { Seq::<u8>::empty() } else { bytes.skip(127) };
        assert(chunk_entries(bytes) == seq![EntryModel { code: 310, value: ValueModel::Chunk(head) }] + chunk_entries(tail)) by {
            if bytes.len() <= 127 {
                assert(chunk_entries(tail) =~= Seq::<EntryModel>::empty());
                assert(seq![EntryModel { code: 310, value: ValueModel::Chunk(head) }] + chunk_entries(tail)
                    =~= seq![EntryModel { code: 310, value: ValueModel::Chunk(head) }]);
            }
        }
        assert(es[i] == chunk_entries(bytes)[0]);
        assert(head + tail =~= bytes);
        assert(es.subrange(i + 1, i + 1 + chunk_entries(tail).len()) =~= chunk_entries(tail)) by {
            assert forall|j: int| 0 <= j < chunk_entries(tail).len() implies
                es.subrange(i + 1, i + 1 + chunk_entries(tail).len())[j] == chunk_entries(tail)[j] by {
                assert(es[i + 1 + j] == es.subrange(i, i + k)[1 + j]);
            }
        }
        lemma_run_chunks(es, i + 1, tail, limit, acc + head);
        assert(acc + head + tail =~= acc + bytes);
    }
}

/// One input's entries, followed by the end or an entry that is not a chunk
/// entry, read back that input.
pub proof fn lemma_parse_group(es: Seq<EntryModel>, i: int, role: i16, e: EncodedEntityModel, acc: InputsModel)
    requires
        0 <= i,
        i + group_entries(role, e).len() <= es.len(),
        es.subrange(i, i + group_entries(role, e).len()) == group_entries(role, e),
        i + group_entries(role, e).len() < es.len() ==> es[i + group_entries(role, e).len()].code != 310,
        encodable_entity(e),
    ensures
        parse_inputs(es, i, acc) == match with_input(acc, role as i32, e) {
            Some(acc2) => parse_inputs(es, i + group_entries(role, e).len(), acc2),
            None => None,
        },
{
    let g = group_entries(role, e);
    let c = chunk_entries(e.bytes);
    assert(es[i] == g[0]);
    assert(es[i + 1] == g[1]);
    assert(es[i + 2] == g[2]);
    assert(e.bit_count as i32 == e.bit_count);
    assert(es.subrange(i + 3, i + 3 + c.len()) =~= c) by {
        assert forall|j: int| 0 <= j < c.len() implies es.subrange(i + 3, i + 3 + c.len())[j] == c[j] by {
            assert(es[i + 3 + j] == es.subrange(i, i + g.len())[3 + j]);
            assert(g[3 + j] == c[j]);
        }
    }
    lemma_run_chunks(es, i + 3, e.bytes, byte_len(e.bit_count as int), Seq::empty());
    assert(Seq::<u8>::empty() + e.bytes =~= e.bytes);
    let m = EncodedEntityModel { type_code: e.type_code, bit_count: (e.bit_count as i32) as usize, bytes: e.bytes };
    assert(m == e);
}

/// The entries of inputs in one role, followed by the end or an entry that is
/// not a chunk entry, read back those inputs in order.
pub proof fn lemma_parse_groups(es: Seq<EntryModel>, i: int, role: i16, list: Seq<EncodedEntityModel>, acc: InputsModel)
    requires
        0 <= i,
        role == 0 || role == 1,
        i + groups(role, list).len() <= es.len(),
        es.subrange(i, i + groups(role, list).len()) == groups(role, list),
        i + groups(role, list).len() < es.len() ==> es[i + groups(role, list).len()].code != 310,
        forall|k: int| 0 <= k < list.len() ==> encodable_entity(#[trigger] list[k]),
    ensures
        parse_inputs(es, i, acc) == parse_inputs(es, i + groups(role, list).len(),
            if role == 0 { (acc.0 + list, acc.1, acc.2) } else { (acc.0, acc.1 + list, acc.2) }),
    decreases list.len(),
{
    if list.len() == 0 {
        assert(acc.0 + list =~= acc.0);
        assert(acc.1 + list =~= acc.1);
    } else {
        let front = list.drop_last();
        let last = list.last();
        let gf = groups(role, front);
        let gl = group_entries(role, last);
        assert(groups(role, list) == gf + gl);
        assert(gl[0].code == 70);
        assert(es.subrange(i, i + gf.len()) =~= gf) by {
            assert forall|j: int| 0 <= j < gf.len() implies es.subrange(i, i + gf.len())[j] == gf[j] by {
                assert(es[i + j] == es.subrange(i, i + gf.len() + gl.len())[j]);
            }
        }
        assert(es[i + gf.len()] == gl[0]) by {
            assert(es[i + gf.len()] == es.subrange(i, i + gf.len() + gl.len())[gf.len() as int]);
        }
        assert forall|k: int| 0 <= k < front.len() implies encodable_entity(#[trigger] front[k]) by {
            assert(front[k] == list[k]);
        }
        lemma_parse_groups(es, i, role, front, acc);
        let acc1 = if role == 0 { (acc.0 + front, acc.1, acc.2) } else { (acc.0, acc.1 + front, acc.2) };
        assert(es.subrange(i + gf.len(), i + gf.len() + gl.len()) =~= gl) by {
            assert forall|j: int| 0 <= j < gl.len() implies es.subrange(i + gf.len(), i + gf.len() + gl.len())[j] == gl[j] by {
                assert(es[i + gf.len() + j] == es.subrange(i, i + gf.len() + gl.len())[gf.len() + j]);
            }
        }
        assert(encodable_entity(last)) by {
            assert(last == list[list.len() - 1]);
        }
        lemma_parse_group(es, i + gf.len(), role, last, acc1);
        assert(acc.0 + front.push(last) =~= acc.0 + list);
        assert(acc.1 + front.push(last) =~= acc.1 + list);
        assert(front.push(last) =~= list);
        assert((acc.0 + front).push(last) =~= acc.0 + list);
        assert((acc.1 + front).push(last) =~= acc.1 + list);
    }
}

/// Inputs that can be written are read back as they were written.
pub proof fn law_inputs_decode_encode(i: InputsModel)
    requires
        encodable_inputs(i),
    ensures
        decoded_inputs(encoded_inputs(i)) == Some(i),
{
    let es = encoded_inputs(i);
    let head = seq![EntryModel { code: 90, value: ValueModel::Int32(1) }];
    let g0 = groups(0, i.0);
    let g1 = groups(1, i.1);
    let n0: int = g0.len() as int;
    let n1: int = g1.len() as int;
    let gp = match i.2 {
        Some(e) => group_entries(2, e),
        None => Seq::<EntryModel>::empty(),
    };
    assert(es == head + g0 + g1 + gp);
    assert(es[0] == head[0]);
    let empty: InputsModel = (Seq::empty(), Seq::empty(), None);
    // Cross sections.
    assert(es.subrange(1, 1 + n0) =~= g0);
    if 1 + n0 < es.len() {
        if g1.len() > 0 {
            lemma_groups_start(1, i.1);
            assert(es[1 + n0] == g1[0]);
        } else {
            assert(es[1 + n0] == gp[0]);
        }
    }
    lemma_parse_groups(es, 1, 0, i.0, empty);
    assert(Seq::<EncodedEntityModel>::empty() + i.0 =~= i.0);
    let acc0: InputsModel = (i.0, Seq::empty(), None);
    // Guides.
    let at1: int = 1 + n0;
    assert(es.subrange(at1, at1 + n1) =~= g1);
    if at1 + n1 < es.len() {
        assert(es[at1 + n1] == gp[0]);
    }
    lemma_parse_groups(es, at1, 1, i.1, acc0);
    assert(Seq::<EncodedEntityModel>::empty() + i.1 =~= i.1);
    let acc1: InputsModel = (i.0, i.1, None);
    // The path.
    let at2: int = at1 + n1;
    match i.2 {
        Some(e) => {
            assert(es.subrange(at2, at2 + gp.len() as int) =~= gp);
            lemma_parse_group(es, at2, 2, e, acc1);
        },
        None => {
            assert(at2 == es.len());
        },
    }
}

/// The entries of inputs in a role begin with a role entry, when there are any.
pub proof fn lemma_groups_start(role: i16, list: Seq<EncodedEntityModel>)
    requires
        list.len() > 0,
    ensures
        groups(role, list).len() > 0,
        groups(role, list)[0].code == 70,
    decreases list.len(),
{
    let front = list.drop_last();
    if front.len() > 0 {
        lemma_groups_start(role, front);
        assert(groups(role, list)[0] == groups(role, front)[0]);
    } else {
        assert(groups(role, front) =~= Seq::<EntryModel>::empty());
        assert(groups(role, list)[0] == group_entries(role, list.last())[0]);
    }
}

/// Read the inputs of a lofted surface from their record (see `decoded_inputs`).
pub fn decode(record: &XRecord) -> (r: Option<(Vec<EncodedEntity>, Vec<EncodedEntity>, Option<EncodedEntity>)>)
    ensures
        match decoded_inputs(record.model()) {
            Some(m) => r matches Some(t) && inputs_model(t.0@, t.1@, t.2) == m,
            None => r is None,
        },
{
    let ghost es = record.model();
    let n = record.entries.len();
    proof {
        assert(es.len() == n);
    }
    if n == 0 || record.entries[0].code != 90 {
        return None;
    }
    assert(es[0] == record.entries@[0]@);
    match record.entries[0].value.as_i32() {
        Some(v) => {
            if v != 1 {
                return None;
            }
        },
        None => return None,
    }
    let mut sections: Vec<EncodedEntity> = Vec::new();
    let mut guides: Vec<EncodedEntity> = Vec::new();
    let mut path: Option<EncodedEntity> = None;
    let mut index: usize = 1;
    proof {
        assert(inputs_model(sections@, guides@, path) =~= (Seq::<EncodedEntityModel>::empty(), Seq::<EncodedEntityModel>::empty(), None::<EncodedEntityModel>));
    }
    while index < n
        invariant
            es == record.model(),
            n == es.len(),
            1 <= index <= n,
            decoded_inputs(es) == parse_inputs(es, index as int, inputs_model(sections@, guides@, path)),
        decreases n - index,
    {
        let ghost acc = inputs_model(sections@, guides@, path);
        if n - index <= 2 {
            return None;
        }
        proof {
            assert(es[index as int] == record.entries@[index as int]@);
            assert(es[index + 1] == record.entries@[index + 1]@);
            assert(es[index + 2] == record.entries@[index + 2]@);
        }
        if record.entries[index].code != 70 || record.entries[index + 1].code != 91 || record.entries[index + 2].code != 92 {
            return None;
        }
        let role = match record.entries[index].value.as_i32() {
            Some(v) => v,
            None => return None,
        };
        let kind = match record.entries[index + 1].value.as_i32() {
            Some(v) => v,
            None => return None,
        };
        let b = match record.entries[index + 2].value.as_i32() {
            Some(v) => v,
            None => return None,
        };
        if b <= 0 || b > 67_108_864 {
            return None;
        }
        let bits = b as usize;
        let need = (bits + 7) / 8;
        let start = index + 3;
        let mut at = start;
        let mut bytes: Vec<u8> = Vec::new();
        proof {
            assert(byte_len(b as int) == need);
            assert(run_bytes(es, start as int, need as int, Seq::empty()) is None
                ==> parse_inputs(es, index as int, acc) is None);
        }
        while at < n && record.entries[at].code == 310
            invariant
                es == record.model(),
                n == es.len(),
                start <= at <= n,
                run_bytes(es, start as int, need as int, Seq::empty()) is None ==> decoded_inputs(es) is None,
                bytes@.len() <= need,
                run_bytes(es, start as int, need as int, Seq::empty()) == run_bytes(es, at as int, need as int, bytes@),
            decreases n - at,
        {
            proof {
                assert(es[at as int] == record.entries@[at as int]@);
            }
            match &record.entries[at].value {
                XRecordValue::Chunk(chunk) => {
                    if chunk.len() > need - bytes.len() {
                        return None;
                    }
                    append_bytes(&mut bytes, chunk);
                },
                _ => {
                    return None;
                },
            }
            at += 1;
        }
        proof {
            if at < n {
                assert(es[at as int] == record.entries@[at as int]@);
            }
            assert(run_bytes(es, at as int, need as int, bytes@) == Some((bytes@, at as int)));
        }
        if bytes.len() != need {
            return None;
        }
        let entity = EncodedEntity { type_code: kind, bit_count: bits, bytes };
        if role == 0 {
            sections.push(entity);
        } else if role == 1 {
            guides.push(entity);
        } else if role == 2 && path.is_none() {
            path = Some(entity);
        } else {
            return None;
        }
        proof {
            assert(inputs_model(sections@, guides@, path) == with_input(acc, role, entity@)->0) by {
                assert(entities_model(sections@) =~= if role == 0 { acc.0.push(entity@) } else { acc.0 });
                assert(entities_model(guides@) =~= if role == 1 { acc.1.push(entity@) } else { acc.1 });
            }
        }
        index = at;
    }
    Some((sections, guides, path))
}

/// Write the inputs of a lofted surface as a record (see `encoded_inputs`).
pub fn encode_inputs(sections: &Vec<EncodedEntity>, guides: &Vec<EncodedEntity>, path: &Option<EncodedEntity>) -> (r: XRecord)
    ensures
        r.model() == encoded_inputs(inputs_model(sections@, guides@, *path)),
        r.name@ == curves_key(),
        r.handle.value == 0,
        r.owner.value == 0,
        r.xdictionary_handle is None,
        r.object_references@.len() == 0,
        r.entries_complete,
{
    let mut record = XRecord::named("CADCODEC_LOFT_CURVES_V1");
    proof {
        reveal_strlit("CADCODEC_LOFT_CURVES_V1");
    }
    record.add_int32(90, 1);
    let ghost head = record.model();
    assert(head =~= seq![EntryModel { code: 90, value: ValueModel::Int32(1) }]);
    add_groups(&mut record, 0, sections);
    add_groups(&mut record, 1, guides);
    match path {
        Some(e) => {
            add_group(&mut record, 2, e);
        },
        None => {},
    }
    proof {
        let i = inputs_model(sections@, guides@, *path);
        assert(record.model() =~= encoded_inputs(i));
    }
    record
}

/// Append one input's entries (see `group_entries`).
fn add_group(record: &mut XRecord, role: i16, e: &EncodedEntity)
    requires
        old(record).object_references@.len() == 0,
    ensures
        final(record).model() == old(record).model() + group_entries(role, e@),
        final(record).name == old(record).name,
        final(record).handle == old(record).handle,
        final(record).owner == old(record).owner,
        final(record).xdictionary_handle == old(record).xdictionary_handle,
        final(record).object_references@.len() == 0,
        final(record).entries_complete,
{
    let ghost base = record.model();
    record.add_int16(70, role);
    record.add_int32(91, e.type_code);
    record.add_int32(92, e.bit_count as i32);
    let ghost head = record.model();
    let mut start: usize = 0;
    let ghost mut done: Seq<EntryModel> = Seq::empty();
    assert(e.bytes@.skip(0) =~= e.bytes@);
    while start < e.bytes.len()
        invariant
            start <= e.bytes@.len(),
            record.model() == head + done,
            done + chunk_entries(e.bytes@.skip(start as int)) == chunk_entries(e.bytes@),
            record.name == old(record).name,
            record.handle == old(record).handle,
            record.owner == old(record).owner,
            record.xdictionary_handle == old(record).xdictionary_handle,
            record.object_references@.len() == 0,
            record.entries_complete,
        decreases e.bytes@.len() - start,
    {
        let rest = e.bytes.len() - start;
        let end = if rest > 127 {
            start + 127
        } else {
            e.bytes.len()
        };
        let chunk = copy_range(&e.bytes, start, end);
        let ghost tail = e.bytes@.skip(start as int);
        let ghost c = chunk@;
        proof {
            if rest > 127 {
                assert(c =~= tail.take(127));
                assert(tail.skip(127) =~= e.bytes@.skip(end as int));
            } else {
                assert(c =~= tail);
                assert(e.bytes@.skip(end as int) =~= Seq::<u8>::empty());
            }
        }
        record.add_entry(XRecordEntry::new(310, XRecordValue::Chunk(chunk)));
        proof {
            let item = EntryModel { code: 310, value: ValueModel::Chunk(c) };
            assert(chunk_entries(tail) == seq![item] + chunk_entries(e.bytes@.skip(end as int)));
            assert(done.push(item) + chunk_entries(e.bytes@.skip(end as int)) =~= done + chunk_entries(tail));
            done = done.push(item);
        }
        start = end;
    }
    proof {
        assert(e.bytes@.skip(start as int) =~= Seq::<u8>::empty());
        assert(done =~= chunk_entries(e.bytes@));
        assert(record.model() =~= base + group_entries(role, e@));
    }
}

/// Append the entries of inputs in one role (see `groups`).
fn add_groups(record: &mut XRecord, role: i16, list: &Vec<EncodedEntity>)
    requires
        old(record).object_references@.len() == 0,
    ensures
        final(record).model() == old(record).model() + groups(role, entities_model(list@)),
        final(record).name == old(record).name,
        final(record).handle == old(record).handle,
        final(record).owner == old(record).owner,
        final(record).xdictionary_handle == old(record).xdictionary_handle,
        final(record).object_references@.len() == 0,
        final(record).entries_complete || old(record).entries_complete == final(record).entries_complete,
{
    let ghost base = record.model();
    let mut i: usize = 0;
    assert(entities_model(list@).take(0) =~= Seq::<EncodedEntityModel>::empty());
    assert(base + groups(role, Seq::<EncodedEntityModel>::empty()) =~= base);
    while i < list.len()
        invariant
            i <= list@.len(),
            record.model() == base + groups(role, entities_model(list@).take(i as int)),
            record.name == old(record).name,
            record.handle == old(record).handle,
            record.owner == old(record).owner,
            record.xdictionary_handle == old(record).xdictionary_handle,
            record.object_references@.len() == 0,
            record.entries_complete || old(record).entries_complete == record.entries_complete,
        decreases list@.len() - i,
    {
        add_group(record, role, &list[i]);
        proof {
            let m = entities_model(list@);
            assert(m.take(i + 1).drop_last() =~= m.take(i as int));
            assert(m.take(i + 1).last() == list@[i as int]@);
            assert(record.model() =~= base + groups(role, m.take(i + 1)));
        }
        i += 1;
    }
    assert(entities_model(list@).take(list@.len() as int) =~= entities_model(list@));
}

/// A lofted surface whose native input group is empty: no cross sections, guides or path.
pub open spec fn inputs_empty(s: Surface) -> bool {
    s.surface_data matches SurfaceData::Lofted { cross_section_entities, guide_entities, path_entity }
        && cross_section_entities@.len() == 0 && guide_entities@.len() == 0 && path_entity is None
}

/// The inputs record that a surface's own extension dictionary names.
pub open spec fn inputs_record(objects: Map<u64, ObjectType>, s: Surface) -> Option<XRecord> {
    match s.common.xdictionary_handle {
        Some(x) => match dictionary_at(objects, x) {
            Some(d) => match lookup(d.model(), curves_key()) {
                Some(h) => xrecord_at(objects, h),
                None => None,
            },
            None => None,
        },
        None => None,
    }
}

/// The inputs a lofted surface regains on restore: a lofted surface with an
/// empty native input group (which is authoritative when present) whose
/// record reads back.
pub open spec fn inputs_to_restore(objects: Map<u64, ObjectType>, e: EntityType) -> Option<InputsModel> {
    match e {
        EntityType::Surface(s) => if inputs_empty(s) {
            match inputs_record(objects, s) {
                Some(r) => decoded_inputs(r.model()),
                None => None,
            }
        } else {
            None
        },
        _ => None,
    }
}

/// `b` is `a` with at most the inputs of its lofted data changed.
pub open spec fn same_but_inputs(a: EntityType, b: EntityType) -> bool {
    match (a, b) {
        (EntityType::Surface(x), EntityType::Surface(y)) => {
            &&& y.common == x.common
            &&& y.history_handle == x.history_handle
            &&& (x.surface_data is Lofted) == (y.surface_data is Lofted)
            &&& !(x.surface_data is Lofted) ==> y.surface_data == x.surface_data
        },
        _ => b == a,
    }
}

/// `b` is the lofted surface `a` with the inputs `i`.
pub open spec fn inputs_given(a: EntityType, b: EntityType, i: InputsModel) -> bool {
    &&& same_but_inputs(a, b)
    &&& b matches EntityType::Surface(y) && y.surface_data matches SurfaceData::Lofted {
        cross_section_entities, guide_entities, path_entity }
        && inputs_model(cross_section_entities@, guide_entities@, path_entity) == i
}

/// No two entities share a handle.
pub open spec fn entity_handles_distinct(es: Seq<EntityType>) -> bool {
    forall|i: int, j: int| 0 <= i < j < es.len() ==> (#[trigger] es[i]).common_spec().handle != (#[trigger] es[j]).common_spec().handle
}

/// What restoring inputs leaves of a document's entities `es0` (with the
/// objects `objects`): the same number of entities, each differing at most in
/// its lofted inputs; and, with distinct entity handles, each lofted surface
/// with an empty native input group whose record reads back has those inputs.
pub open spec fn inputs_restored_all(objects: Map<u64, ObjectType>, es0: Seq<EntityType>, es: Seq<EntityType>) -> bool {
    &&& es.len() == es0.len()
    &&& forall|k: int| 0 <= k < es0.len() ==> same_but_inputs(#[trigger] es0[k], es[k])
    &&& entity_handles_distinct(es0) ==> forall|k: int| 0 <= k < es0.len()
        ==> match inputs_to_restore(objects, #[trigger] es0[k]) {
            Some(i) => inputs_given(es0[k], es[k], i),
            None => es[k] == es0[k],
        }
}

/// The inputs record that a surface's own extension dictionary names.
fn record_of<'a>(document: &'a CadDocument, s: &Surface) -> (r: Option<&'a XRecord>)
    ensures
        match inputs_record(document.objects@, *s) {
            Some(rec) => r == Some(&rec),
            None => r is None,
        },
{
    let x = match s.common.xdictionary_handle {
        Some(x) => x,
        None => return None,
    };
    let h = match document.objects.get(&x.value) {
        Some(ObjectType::Dictionary(d)) => match d.get("CADCODEC_LOFT_CURVES_V1") {
            Some(h) => h,
            None => return None,
        },
        _ => return None,
    };
    proof {
        reveal_strlit("CADCODEC_LOFT_CURVES_V1");
    }
    match document.objects.get(&h.value) {
        Some(ObjectType::XRecord(r)) => Some(r),
        _ => None,
    }
}

/// Give each lofted surface with an empty native input group the inputs its
/// record holds, when they read back (see `inputs_to_restore`). With
/// distinct entity handles each such surface gets its own; everything else
/// stays as it is.
pub fn restore(document: &mut CadDocument)
    ensures
        inputs_restored_all(old(document).objects@, old(document).entities@, final(document).entities@),
        same_besides_entities(*final(document), *old(document)),
{
    let ghost es0 = document.entities@;
    let ghost objects = document.objects@;
    let ghost dist = entity_handles_distinct(es0);
    let mut found: Vec<(Handle, (Vec<EncodedEntity>, Vec<EncodedEntity>, Option<EncodedEntity>))> = Vec::new();
    let ghost mut pos: Seq<int> = Seq::empty();
    let mut i: usize = 0;
    while i < document.entities.len()
        invariant
            es0 == document.entities@,
            objects == document.objects@,
            i <= es0.len(),
            pos.len() == found@.len(),
            forall|m: int| 0 <= m < found@.len() ==> 0 <= #[trigger] pos[m] < i
                && found@[m].0 == es0[pos[m]].common_spec().handle
                && inputs_to_restore(objects, es0[pos[m]]) == Some(inputs_model(found@[m].1.0@, found@[m].1.1@, found@[m].1.2)),
            forall|a: int, b: int| 0 <= a < b < found@.len() ==> #[trigger] pos[a] < #[trigger] pos[b],
            forall|k: int| 0 <= k < i && (#[trigger] inputs_to_restore(objects, es0[k])) is Some
                ==> exists|m: int| 0 <= m < found@.len() && pos[m] == k,
        decreases es0.len() - i,
    {
        let ghost pos0 = pos;
        let ghost f0 = found@;
        let got = match &document.entities[i] {
            EntityType::Surface(s) => {
                let empty = match &s.surface_data {
                    SurfaceData::Lofted { cross_section_entities, guide_entities, path_entity } =>
                        cross_section_entities.len() == 0 && guide_entities.len() == 0 && path_entity.is_none(),
                    _ => false,
                };
                if empty {
                    match record_of(document, s) {
                        Some(r) => match decode(r) {
                            Some(t) => Some((s.common.handle, t)),
                            None => None,
                        },
                        None => None,
                    }
                } else {
                    None
                }
            },
            _ => None,
        };
        match got {
            Some(item) => {
                found.push(item);
                proof {
                    pos = pos.push(i as int);
                }
            },
            None => {},
        }
        proof {
            assert forall|k: int| 0 <= k < i + 1 && (#[trigger] inputs_to_restore(objects, es0[k])) is Some
                implies exists|m: int| 0 <= m < found@.len() && pos[m] == k by {
                if k < i {
                    let m = choose|m: int| 0 <= m < f0.len() && pos0[m] == k;
                    assert(pos[m] == pos0[m]);
                } else {
                    assert(pos[f0.len() as int] == k);
                }
            }
            assert forall|m: int| 0 <= m < found@.len() implies 0 <= #[trigger] pos[m] < i + 1
                && found@[m].0 == es0[pos[m]].common_spec().handle
                && inputs_to_restore(objects, es0[pos[m]]) == Some(inputs_model(found@[m].1.0@, found@[m].1.1@, found@[m].1.2)) by {
                if m < f0.len() {
                    assert(pos[m] == pos0[m]);
                    assert(found@[m] == f0[m]);
                }
            }
        }
        i += 1;
    }
    let ghost all_pos = pos;
    let ghost count = found@.len();
    while found.len() > 0
        invariant
            found@.len() <= count,
            all_pos.len() == count,
            forall|a: int, b: int| 0 <= a < b < count ==> #[trigger] all_pos[a] < #[trigger] all_pos[b],
            forall|m: int| 0 <= m < count ==> 0 <= #[trigger] all_pos[m] < es0.len(),
            forall|m: int| 0 <= m < found@.len() ==> (#[trigger] found@[m]).0 == es0[all_pos[m]].common_spec().handle
                && inputs_to_restore(objects, es0[all_pos[m]]) == Some(inputs_model(found@[m].1.0@, found@[m].1.1@, found@[m].1.2)),
            forall|k: int| 0 <= k < es0.len() && (#[trigger] inputs_to_restore(objects, es0[k])) is Some
                ==> exists|m: int| 0 <= m < count && all_pos[m] == k,
            document.entities@.len() == es0.len(),
            forall|k: int| 0 <= k < es0.len() ==> same_but_inputs(#[trigger] es0[k], document.entities@[k]),
            dist == entity_handles_distinct(es0),
            dist ==> forall|k: int| 0 <= k < es0.len() ==> match inputs_to_restore(objects, #[trigger] es0[k]) {
                Some(inputs) => (exists|m: int| found@.len() <= m < count && all_pos[m] == k)
                    ==> inputs_given(es0[k], document.entities@[k], inputs),
                None => document.entities@[k] == es0[k],
            },
            dist ==> forall|k: int| 0 <= k < es0.len() && (forall|m: int| found@.len() <= m < count ==> all_pos[m] != k)
                ==> #[trigger] document.entities@[k] == es0[k],
            same_besides_entities(*document, *old(document)),
            es0 == old(document).entities@,
            objects == old(document).objects@,
        decreases found@.len(),
    {
        let ghost m = found@.len() - 1;
        let ghost before = document.entities@;
        let (owner, (sections, guides, path)) = match found.pop() {
            Some(x) => x,
            None => {
                assert(false);
                return;
            },
        };
        let ghost target = all_pos[m];
        let k = entity_position(&document.entities, owner);
        proof {
            if dist {
                crate::io::surface_history::lemma_entity_index_from(before, owner, 0);
                assert(owner == es0[target].common_spec().handle);
                assert(before[target].common_spec().handle == owner) by {
                    assert(same_but_inputs(es0[target], before[target]));
                }
                if k < target {
                    assert(before[k as int].common_spec().handle == es0[k as int].common_spec().handle) by {
                        assert(same_but_inputs(es0[k as int], before[k as int]));
                    }
                }
                if k > target {
                    assert(before[target].common_spec().handle != owner);
                }
                assert(k == target);
            }
        }
        if k < document.entities.len() {
            let e = document.entities.remove(k);
            let ghost e0 = e;
            let updated = match e {
                EntityType::Surface(mut s) => {
                    match s.surface_data {
                        SurfaceData::Lofted { .. } => {
                            s.surface_data = SurfaceData::Lofted {
                                cross_section_entities: sections,
                                guide_entities: guides,
                                path_entity: path,
                            };
                        },
                        _ => {},
                    }
                    EntityType::Surface(s)
                },
                other => other,
            };
            document.entities.insert(k, updated);
            proof {
                assert(document.entities@ =~= before.update(k as int, updated));
                assert(same_but_inputs(e0, updated));
                assert(same_but_inputs(es0[k as int], updated)) by {
                    assert(same_but_inputs(es0[k as int], e0));
                }
            }
        }
        proof {
            if dist {
                assert forall|kk: int| 0 <= kk < es0.len() implies match inputs_to_restore(objects, #[trigger] es0[kk]) {
                    Some(inputs) => (exists|mm: int| m <= mm < count && all_pos[mm] == kk)
                        ==> inputs_given(es0[kk], document.entities@[kk], inputs),
                    None => document.entities@[kk] == es0[kk],
                } by {
                    if kk == target {
                        match inputs_to_restore(objects, es0[kk]) {
                            Some(inputs) => {
                                assert(es0[kk] is Surface);
                            },
                            None => {},
                        }
                    } else {
                        if exists|mm: int| m <= mm < count && all_pos[mm] == kk {
                            let mm = choose|mm: int| m <= mm < count && all_pos[mm] == kk;
                            assert(mm != m);
                        }
                    }
                }
                assert forall|kk: int| 0 <= kk < es0.len() && (forall|mm: int| m <= mm < count ==> all_pos[mm] != kk)
                    implies #[trigger] document.entities@[kk] == es0[kk] by {
                    assert(all_pos[m] != kk);
                }
            }
        }
    }
    proof {
        if dist {
            assert forall|k: int| 0 <= k < es0.len() implies match inputs_to_restore(objects, #[trigger] es0[k]) {
                Some(i) => inputs_given(es0[k], document.entities@[k], i),
                None => document.entities@[k] == es0[k],
            } by {
                match inputs_to_restore(objects, es0[k]) {
                    Some(inputs) => {
                        let mm = choose|mm: int| 0 <= mm < count && all_pos[mm] == k;
                    },
                    None => {},
                }
            }
        }
    }
}

/// What storing one lofted surface's inputs does (see `store_inputs_one`):
/// `owner` takes the dictionary `d` as its extension dictionary, the other
/// links stay and new ones lie from the seed on; `d` is fresh, or the owner's
/// own that nothing else used; with inputs, `d` names under the key the record
/// `r`, fresh or one that `d` owned, which holds them as written; without,
/// `d` has no such key. Other objects stay as they were, but for a record that
/// `d` owned, and new ones lie from the seed on.
pub open spec fn inputs_stored_one(
    a: CadDocument,
    b: CadDocument,
    owner: Handle,
    previous: Option<Handle>,
    inputs: Option<InputsModel>,
    d: Handle,
    r: Option<Handle>,
) -> bool {
    &&& b.xdic_by_handle@.contains_key(owner.value)
    &&& b.xdic_by_handle@[owner.value] == d.value
    &&& forall|k: u64| #[trigger] a.xdic_by_handle@.contains_key(k) && k != owner.value
        ==> b.xdic_by_handle@.contains_key(k) && b.xdic_by_handle@[k] == a.xdic_by_handle@[k]
    &&& forall|k: u64| #[trigger] b.xdic_by_handle@.contains_key(k) && k != owner.value
        && !a.xdic_by_handle@.contains_key(k) ==> a.header.handle_seed <= k
    &&& ((a.header.handle_seed <= d.value && !a.objects@.contains_key(d.value))
        || (previous == Some(d) && dictionary_at(a.objects@, d) is Some && !shared_dictionary(a, owner, previous)))
    &&& dictionary_at(b.objects@, d) is Some
    &&& (inputs is Some ==> {
        &&& r is Some && r->0 != d
        &&& ((a.header.handle_seed <= r->0.value && !a.objects@.contains_key(r->0.value))
            || (xrecord_at(a.objects@, r->0) matches Some(x) && x.owner == d))
        &&& lookup(dictionary_at(b.objects@, d)->0.model(), curves_key()) == r
        &&& xrecord_at(b.objects@, r->0) matches Some(x) && x.owner == d && x.model() == encoded_inputs(inputs->0)
    })
    &&& (inputs is None ==> r is None && lookup(dictionary_at(b.objects@, d)->0.model(), curves_key()) is None)
    &&& forall|k: u64| #[trigger] a.objects@.contains_key(k) && k != d.value && r != Some(Handle { value: k })
        ==> if b.objects@.contains_key(k) {
            b.objects@[k] == a.objects@[k]
        } else {
            xrecord_at(a.objects@, Handle { value: k }) matches Some(x) && x.owner == d
        }
    &&& forall|k: u64| #[trigger] b.objects@.contains_key(k) && !a.objects@.contains_key(k) ==> a.header.handle_seed <= k
}

/// The record of inputs holds no handle.
pub proof fn lemma_inputs_no_handles(i: InputsModel)
    ensures
        forall|j: int| 0 <= j < encoded_inputs(i).len() ==> !((#[trigger] encoded_inputs(i)[j]).value is Handle),
{
    lemma_groups_no_handles(0, i.0);
    lemma_groups_no_handles(1, i.1);
    let head = seq![EntryModel { code: 90, value: ValueModel::Int32(1) }];
    let g0 = groups(0, i.0);
    let g1 = groups(1, i.1);
    let gp = match i.2 {
        Some(e) => group_entries(2, e),
        None => Seq::<EntryModel>::empty(),
    };
    match i.2 {
        Some(e) => {
            lemma_group_no_handles(2, e);
        },
        None => {},
    }
    let es = encoded_inputs(i);
    assert(es == head + g0 + g1 + gp);
    assert forall|j: int| 0 <= j < es.len() implies !((#[trigger] es[j]).value is Handle) by {
        if j < 1 {
        } else if j < 1 + g0.len() {
            assert(es[j] == g0[j - 1]);
        } else if j < 1 + g0.len() + g1.len() {
            assert(es[j] == g1[j - 1 - g0.len()]);
        } else {
            assert(es[j] == gp[j - 1 - g0.len() - g1.len()]);
        }
    }
}

/// One input's entries hold no handle.
pub proof fn lemma_group_no_handles(role: i16, e: EncodedEntityModel)
    ensures
        forall|j: int| 0 <= j < group_entries(role, e).len() ==> !((#[trigger] group_entries(role, e)[j]).value is Handle),
{
    lemma_chunks_no_handles(e.bytes);
    let g = group_entries(role, e);
    assert forall|j: int| 0 <= j < g.len() implies !((#[trigger] g[j]).value is Handle) by {
        if j >= 3 {
            assert(g[j] == chunk_entries(e.bytes)[j - 3]);
        }
    }
}

/// The entries of inputs in one role hold no handle.
pub proof fn lemma_groups_no_handles(role: i16, list: Seq<EncodedEntityModel>)
    ensures
        forall|j: int| 0 <= j < groups(role, list).len() ==> !((#[trigger] groups(role, list)[j]).value is Handle),
    decreases list.len(),
{
    if list.len() > 0 {
        lemma_groups_no_handles(role, list.drop_last());
        lemma_group_no_handles(role, list.last());
        let a = groups(role, list.drop_last());
        let b = group_entries(role, list.last());
        assert forall|j: int| 0 <= j < groups(role, list).len() implies !((#[trigger] groups(role, list)[j]).value is Handle) by {
            if j < a.len() {
                assert(groups(role, list)[j] == a[j]);
            } else {
                assert(groups(role, list)[j] == b[j - a.len()]);
            }
        }
    }
}

fn store_inputs_one(
    document: &mut CadDocument,
    owner: Handle,
    previous: Option<Handle>,
    inputs: Option<(Vec<EncodedEntity>, Vec<EncodedEntity>, Option<EncodedEntity>)>,
    Ghost(known): Ghost<Set<u64>>,
    Ghost(seed0): Ghost<u64>,
) -> (r: (Handle, Option<Handle>))
    requires
        old(document).handles_wf(),
        known_closed(known, *old(document), seed0),
        seed0 <= old(document).header.handle_seed,
        old(document).header.handle_seed + known.len() + 3 <= u64::MAX,
        !known.contains(owner.value),
        owner.value < seed0,
        previous matches Some(p) ==> p.value < seed0,
    ensures
        final(document).handles_wf(),
        known_closed(
            if known.contains(r.0.value) && r.1 is Some { known.insert(r.1->0.value) } else { known },
            *final(document),
            seed0,
        ),
        old(document).header.handle_seed <= final(document).header.handle_seed,
        final(document).header.handle_seed <= old(document).header.handle_seed + known.len() + 2,
        final(document).header.named_objects_dict_handle == old(document).header.named_objects_dict_handle,
        final(document).header.acad_plotstylename_dict_handle == old(document).header.acad_plotstylename_dict_handle,
        final(document).header.acad_material_dict_handle == old(document).header.acad_material_dict_handle,
        metadata_frame_but_entities(*old(document), *final(document)),
        final(document).entities@ == with_xdictionary(old(document).entities@, owner, Some(r.0)),
        inputs_stored_one(*old(document), *final(document), owner, previous,
            match inputs {
                Some(t) => Some(inputs_model(t.0@, t.1@, t.2)),
                None => None,
            }, r.0, r.1),
{
    let ghost doc0 = *document;
    proof {
        lemma_known_closed(known, *document, seed0);
        match previous {
            Some(p) => {
                lemma_among_within(known, document.objects@, seed0, p);
            },
            None => {},
        }
    }
    let mut dictionary = writable_dictionary(document, owner, previous, Ghost(known));
    let ghost doc1 = *document;
    let ghost d1 = dictionary;
    let dh = dictionary.handle;
    proof {
        lemma_known_closed_grow(known, doc0, doc1, seed0);
        // The dictionary is known exactly when it is the owner's own, below `seed0`.
        if known.contains(dh.value) {
            assert(dh.value < doc0.header.handle_seed);
        }
    }
    set_entity_xdictionary(document, owner, Some(dh));
    document.xdic_by_handle.insert(owner.value, dh.value);
    let ghost doc2 = *document;
    proof {
        assert(known_closed(known, doc2, seed0)) by {
            assert forall|k: u64| #[trigger] known.contains(k) && doc2.objects@.contains_key(k) implies
                copyable_kind(doc2.objects@[k]) ==> opt_among(known, seed0, extension_of(doc2.xdic_by_handle@, Handle { value: k })) by {
                assert(k != owner.value);
                assert(extension_of(doc2.xdic_by_handle@, Handle { value: k }) == extension_of(doc1.xdic_by_handle@, Handle { value: k }));
            }
        }
    }
    match inputs {
        Some(t) => {
            let existing = dictionary.get("CADCODEC_LOFT_CURVES_V1");
            let reuse = match existing {
                Some(x) => match document.objects.get(&x.value) {
                    Some(ObjectType::XRecord(rec)) => if rec.owner.value == dh.value {
                        Some(x)
                    } else {
                        None
                    },
                    _ => None,
                },
                None => None,
            };
            let record_handle = match reuse {
                Some(x) => x,
                None => document.allocate_handle(),
            };
            let ghost doc3 = *document;
            proof {
                reveal_strlit("CADCODEC_LOFT_CURVES_V1");
                lemma_objects_wf_grow(doc2.objects@, doc2.header.handle_seed, doc3.header.handle_seed);
                lemma_without_key(d1.model(), curves_key());
                law_lookup_after_add_entry(without_key(d1.model(), curves_key()), curves_key(), record_handle, curves_key());
            }
            let mut record = encode_inputs(&t.0, &t.1, &t.2);
            record.handle = record_handle;
            record.owner = dh;
            proof {
                lemma_inputs_no_handles(inputs_model(t.0@, t.1@, t.2));
                assert forall|h: Handle| !refers_to(record, h) by {
                    if exists|i: int| 0 <= i < record.entries@.len() && model_as_handle(#[trigger] record.model()[i].value) == Some(h) {
                        let i = choose|i: int| 0 <= i < record.entries@.len() && model_as_handle(#[trigger] record.model()[i].value) == Some(h);
                        assert(record.model().len() == record.entries@.len());
                        assert(!(encoded_inputs(inputs_model(t.0@, t.1@, t.2))[i].value is Handle));
                    }
                }
            }
            dictionary.remove_entries("CADCODEC_LOFT_CURVES_V1");
            dictionary.add_entry("CADCODEC_LOFT_CURVES_V1", record_handle);
            dictionary.set_entry_hard_owner("CADCODEC_LOFT_CURVES_V1", true);
            let ghost d2 = dictionary;
            proof {
                // References of the stored dictionary stay below the seed.
                let es = d2.model();
                let w = without_key(d1.model(), curves_key());
                assert forall|i: int| 0 <= i < es.len() implies (#[trigger] es[i]).1.value < doc3.header.handle_seed by {
                    let k = key_index_from(w, curves_key(), 0);
                    lemma_key_index_from(w, curves_key(), 0);
                    if es[i].1 != record_handle {
                        if k < w.len() {
                            assert(es == w.update(k, (curves_key(), record_handle)));
                            assert(es[i] == w[i]);
                        } else {
                            assert(es == w.push((curves_key(), record_handle)));
                            assert(es[i] == w[i]);
                        }
                        assert(d1.model().contains(w[i]));
                        let j = choose|j: int| 0 <= j < d1.model().len() && d1.model()[j] == w[i];
                        assert(d1.model()[j].1.value < doc1.header.handle_seed);
                    }
                }
            }
            let ghost o3 = document.objects@;
            proof {
                // The record and the dictionary sit under different handles.
                if o3.contains_key(dh.value) {
                    assert(doc1.objects@.contains_key(dh.value));
                    assert(dictionary_at(doc0.objects@, dh) is Some);
                }
                assert(record_handle != dh);
                lemma_objects_wf_insert(o3, doc3.header.handle_seed, record_handle.value, ObjectType::XRecord(record));
                lemma_objects_wf_insert(o3.insert(record_handle.value, ObjectType::XRecord(record)), doc3.header.handle_seed,
                    dh.value, ObjectType::Dictionary(d2));
            }
            document.objects.insert(record_handle.value, ObjectType::XRecord(record));
            document.objects.insert(dh.value, ObjectType::Dictionary(dictionary));
            proof {
                let known2 = if known.contains(dh.value) { known.insert(record_handle.value) } else { known };
                let fin = *document;
                assert(fin.objects@ == o3.insert(record_handle.value, ObjectType::XRecord(record)).insert(dh.value, ObjectType::Dictionary(d2)));
                assert forall|k: u64| #[trigger] known2.contains(k) implies k < fin.header.handle_seed by {
                    if k != record_handle.value {
                        assert(known.contains(k));
                    }
                }
                assert forall|k: u64| #[trigger] fin.objects@.contains_key(k) && k < seed0 implies known2.contains(k) by {
                    if k == dh.value {
                        assert(doc1.objects@.contains_key(k));
                    } else if k == record_handle.value {
                        assert(doc2.objects@.contains_key(k));
                    } else {
                        assert(doc2.objects@.contains_key(k));
                    }
                }
                assert forall|k: u64| #[trigger] known2.contains(k) && fin.objects@.contains_key(k) implies {
                    &&& refs_among(fin.objects@[k], known2, seed0)
                    &&& copyable_kind(fin.objects@[k]) ==> opt_among(known2, seed0, extension_of(fin.xdic_by_handle@, Handle { value: k }))
                } by {
                    assert(k != owner.value);
                    if k == dh.value {
                        assert(known.contains(k));
                        assert(doc1.objects@.contains_key(k));
                        let d0 = dictionary_at(doc0.objects@, dh)->0;
                        assert(refs_among(doc2.objects@[k], known, seed0));
                        assert(d1.model() == d0.model());
                        let es = d2.model();
                        let w = without_key(d1.model(), curves_key());
                        assert forall|i: int| 0 <= i < es.len() implies among(known2, seed0, #[trigger] es[i].1) by {
                            let kk = key_index_from(w, curves_key(), 0);
                            lemma_key_index_from(w, curves_key(), 0);
                            if es[i].1 != record_handle {
                                if kk < w.len() {
                                    assert(es == w.update(kk, (curves_key(), record_handle)));
                                    assert(es[i] == w[i]);
                                } else {
                                    assert(es == w.push((curves_key(), record_handle)));
                                    assert(es[i] == w[i]);
                                }
                                let j = choose|j: int| 0 <= j < d1.model().len() && d1.model()[j] == w[i];
                                assert(among(known, seed0, d0.model()[j].1));
                            }
                        }
                        assert(extension_of(fin.xdic_by_handle@, dh) == extension_of(doc1.xdic_by_handle@, dh));
                    } else if k == record_handle.value {
                        if !known.contains(k) {
                            if reuse is Some {
                                let d0 = dictionary_at(doc0.objects@, dh)->0;
                                assert(doc1.objects@.contains_key(dh.value));
                                assert(refs_among(doc1.objects@[dh.value], known, seed0));
                                lemma_key_index_from(d1.model(), curves_key(), 0);
                                let j = key_index_from(d1.model(), curves_key(), 0);
                                assert(d1.model()[j].1 == record_handle);
                                assert(among(known, seed0, d0.model()[j].1));
                                assert(doc2.objects@.contains_key(k));
                                assert(false);
                            }
                            assert(k == doc2.header.handle_seed);
                            assert(!doc2.xdic_by_handle@.contains_key(k));
                        } else {
                            assert(extension_of(fin.xdic_by_handle@, record_handle) == extension_of(doc2.xdic_by_handle@, record_handle));
                        }
                    } else {
                        assert(known.contains(k));
                        assert(fin.objects@[k] == doc2.objects@[k]);
                        lemma_refs_among_grow(doc2.objects@[k], known, known2, seed0);
                        match extension_of(fin.xdic_by_handle@, Handle { value: k }) {
                            Some(x) => {},
                            None => {},
                        }
                    }
                }
                assert(known_closed(known2, fin, seed0));
                assert forall|k: u64| #[trigger] doc0.objects@.contains_key(k) && k != dh.value
                    && Some(record_handle) != Some(Handle { value: k }) implies fin.objects@.contains_key(k)
                    && fin.objects@[k] == doc0.objects@[k] by {
                    assert(k != record_handle.value);
                }
                if doc0.objects@.contains_key(record_handle.value) {
                    assert(doc2.objects@[record_handle.value] == doc0.objects@[record_handle.value]);
                }
            }
            (dh, Some(record_handle))
        },
        None => {
            proof {
                reveal_strlit("CADCODEC_LOFT_CURVES_V1");
                lemma_without_key(d1.model(), curves_key());
            }
            remove_record(document, &mut dictionary, "CADCODEC_LOFT_CURVES_V1");
            let ghost d2 = dictionary;
            let ghost o3 = document.objects@;
            proof {
                let w = d2.model();
                assert(w == without_key(d1.model(), curves_key()));
                match lookup(d1.model(), curves_key()) {
                    Some(x) => {
                        if o3 != doc2.objects@ {
                            lemma_objects_wf_remove(doc2.objects@, doc2.header.handle_seed, x.value);
                        }
                    },
                    None => {},
                }
                assert forall|i: int| 0 <= i < w.len() implies (#[trigger] w[i]).1.value < doc2.header.handle_seed by {
                    let j = choose|j: int| 0 <= j < d1.model().len() && d1.model()[j] == w[i];
                    assert(d1.model()[j].1.value < doc1.header.handle_seed);
                }
                lemma_objects_wf_insert(o3, doc2.header.handle_seed, dh.value, ObjectType::Dictionary(d2));
            }
            document.objects.insert(dh.value, ObjectType::Dictionary(dictionary));
            proof {
                let fin = *document;
                assert(fin.objects@ == o3.insert(dh.value, ObjectType::Dictionary(d2)));
                assert forall|k: u64| #[trigger] fin.objects@.contains_key(k) && k < seed0 implies known.contains(k) by {
                    assert(doc2.objects@.contains_key(k));
                }
                assert forall|k: u64| #[trigger] known.contains(k) && fin.objects@.contains_key(k) implies {
                    &&& refs_among(fin.objects@[k], known, seed0)
                    &&& copyable_kind(fin.objects@[k]) ==> opt_among(known, seed0, extension_of(fin.xdic_by_handle@, Handle { value: k }))
                } by {
                    assert(k != owner.value);
                    assert(doc2.objects@.contains_key(k));
                    if k == dh.value {
                        let d0 = dictionary_at(doc0.objects@, dh)->0;
                        assert(doc1.objects@.contains_key(k));
                        assert(refs_among(doc2.objects@[k], known, seed0));
                        let w = d2.model();
                        assert forall|i: int| 0 <= i < w.len() implies among(known, seed0, #[trigger] w[i].1) by {
                            let j = choose|j: int| 0 <= j < d1.model().len() && d1.model()[j] == w[i];
                            assert(among(known, seed0, d0.model()[j].1));
                        }
                    } else {
                        assert(fin.objects@[k] == doc2.objects@[k]);
                    }
                }
                assert(known_closed(known, fin, seed0));
            }
            (dh, None)
        },
    }
}

/// Copy of an encoded entity.
fn copy_entity(e: &EncodedEntity) -> (r: EncodedEntity)
    ensures
        r@ == e@,
{
    EncodedEntity { type_code: e.type_code, bit_count: e.bit_count, bytes: copy_bytes(&e.bytes) }
}

/// Copy of a list of encoded entities.
fn copy_entities(v: &Vec<EncodedEntity>) -> (r: Vec<EncodedEntity>)
    ensures
        entities_model(r@) == entities_model(v@),
{
    let mut r: Vec<EncodedEntity> = Vec::new();
    let mut i: usize = 0;
    while i < v.len()
        invariant
            i <= v@.len(),
            entities_model(r@) == entities_model(v@).take(i as int),
        decreases v@.len() - i,
    {
        let ghost before = r@;
        r.push(copy_entity(&v[i]));
        assert(entities_model(r@) =~= entities_model(before).push(v@[i as int]@));
        assert(entities_model(v@).take(i + 1) =~= entities_model(v@).take(i as int).push(v@[i as int]@));
        i += 1;
    }
    assert(entities_model(v@).take(v@.len() as int) =~= entities_model(v@));
    r
}

/// The reference a lofted surface leaves to store: its handle, its extension
/// dictionary, and its inputs when it has any; only for a lofted surface with
/// inputs or an inputs record.
pub open spec fn inputs_reference(objects: Map<u64, ObjectType>, e: EntityType) -> Option<(Handle, Option<Handle>, Option<InputsModel>)> {
    match e {
        EntityType::Surface(s) => match s.surface_data {
            SurfaceData::Lofted { cross_section_entities, guide_entities, path_entity } => {
                let any = cross_section_entities@.len() > 0 || guide_entities@.len() > 0 || path_entity is Some;
                if any || has_record_spec(objects, s.common.xdictionary_handle, curves_key()) {
                    Some((s.common.handle, s.common.xdictionary_handle, if any {
                        Some(inputs_model(cross_section_entities@, guide_entities@, path_entity))
                    } else {
                        None
                    }))
                } else {
                    None
                }
            },
            _ => None,
        },
        _ => None,
    }
}

/// A lofted surface.
pub open spec fn is_lofted(e: EntityType) -> bool {
    e matches EntityType::Surface(s) && s.surface_data is Lofted
}

/// Each lofted surface's handle is below the seed and names no object, and so
/// is its extension dictionary.
pub open spec fn lofted_apart(doc: CadDocument) -> bool {
    forall|i: int| 0 <= i < doc.entities@.len() && is_lofted(#[trigger] doc.entities@[i]) ==> {
        &&& doc.entities@[i].common_spec().handle.value < doc.header.handle_seed
        &&& !doc.objects@.contains_key(doc.entities@[i].common_spec().handle.value)
        &&& opt_below(doc.entities@[i].common_spec().xdictionary_handle, doc.header.handle_seed)
    }
}

/// What storing leaves for the entity `e` after and `e0` before (with the
/// objects before): a lofted surface with inputs has a record that holds them
/// as written; one with only a stale record has it dropped.
pub open spec fn inputs_stored(objects: Map<u64, ObjectType>, e: EntityType, objects0: Map<u64, ObjectType>, e0: EntityType) -> bool {
    match inputs_reference(objects0, e0) {
        Some((_, _, Some(i))) => e matches EntityType::Surface(s) && inputs_record(objects, s) matches Some(r)
            && r.model() == encoded_inputs(i),
        Some((_, _, None)) => e matches EntityType::Surface(s) && inputs_record(objects, s) is None,
        None => true,
    }
}

/// After storing, a lofted surface whose native inputs are then lost regains
/// them on restore, when they can be written and read back.
pub proof fn law_inputs_restored_after_store(objects: Map<u64, ObjectType>, s: Surface, i: InputsModel)
    requires
        inputs_record(objects, s) matches Some(r) && r.model() == encoded_inputs(i),
        encodable_inputs(i),
        inputs_empty(s),
    ensures
        inputs_to_restore(objects, EntityType::Surface(s)) == Some(i),
{
    law_inputs_decode_encode(i);
}

/// Restoring never overrides native inputs: a lofted surface that has any
/// keeps them.
pub proof fn law_native_inputs_kept(objects: Map<u64, ObjectType>, s: Surface)
    requires
        !inputs_empty(s),
    ensures
        inputs_to_restore(objects, EntityType::Surface(s)) is None,
{
}

/// With distinct entity handles, the first entity with a handle is the one at
/// a position that has it.
pub proof fn lemma_index_of_distinct(es: Seq<EntityType>, k: int)
    requires
        0 <= k < es.len(),
        entity_handles_distinct(es),
    ensures
        entity_index_from(es, es[k].common_spec().handle, 0) == k,
{
    let h = es[k].common_spec().handle;
    lemma_entity_index_from(es, h, 0);
    let f = entity_index_from(es, h, 0);
    if f < k {
        assert(es[f].common_spec().handle == h);
    }
}

/// Model of a reference to store: the surface's handle, its extension
/// dictionary, and its inputs when it has any.
pub open spec fn reference_model(
    t: (Handle, Option<Handle>, Option<(Vec<EncodedEntity>, Vec<EncodedEntity>, Option<EncodedEntity>)>),
) -> (Handle, Option<Handle>, Option<InputsModel>) {
    (t.0, t.1, match t.2 {
        Some(x) => Some(inputs_model(x.0@, x.1@, x.2)),
        None => None,
    })
}

/// Whether the entity is a lofted surface with inputs or an inputs record.
fn wants_inputs(document: &CadDocument, e: &EntityType) -> (b: bool)
    ensures
        b == inputs_reference(document.objects@, *e) is Some,
{
    proof {
        reveal_strlit("CADCODEC_LOFT_CURVES_V1");
    }
    match e {
        EntityType::Surface(s) => match &s.surface_data {
            SurfaceData::Lofted { cross_section_entities, guide_entities, path_entity } =>
                cross_section_entities.len() > 0 || guide_entities.len() > 0 || path_entity.is_some()
                    || has_record(document, s.common.xdictionary_handle, "CADCODEC_LOFT_CURVES_V1"),
            _ => false,
        },
        _ => false,
    }
}

/// The reference a lofted surface leaves to store (see `inputs_reference`),
/// with copies of its inputs.
fn reference_of(
    document: &CadDocument,
    e: &EntityType,
) -> (r: Option<(Handle, Option<Handle>, Option<(Vec<EncodedEntity>, Vec<EncodedEntity>, Option<EncodedEntity>)>)>)
    ensures
        match r {
            Some(t) => inputs_reference(document.objects@, *e) == Some(reference_model(t)),
            None => inputs_reference(document.objects@, *e) is None,
        },
{
    if !wants_inputs(document, e) {
        return None;
    }
    match e {
        EntityType::Surface(s) => match &s.surface_data {
            SurfaceData::Lofted { cross_section_entities, guide_entities, path_entity } => {
                let any = cross_section_entities.len() > 0 || guide_entities.len() > 0 || path_entity.is_some();
                let inputs = if any {
                    let path = match path_entity {
                        Some(p) => Some(copy_entity(p)),
                        None => None,
                    };
                    Some((copy_entities(cross_section_entities), copy_entities(guide_entities), path))
                } else {
                    None
                };
                Some((s.common.handle, s.common.xdictionary_handle, inputs))
            },
            _ => None,
        },
        _ => None,
    }
}

/// Whether some lofted surface has inputs or an inputs record (see `inputs_reference`).
pub fn has_inputs(document: &CadDocument) -> (b: bool)
    ensures
        b == exists|i: int| 0 <= i < document.entities@.len()
            && (#[trigger] inputs_reference(document.objects@, document.entities@[i])) is Some,
{
    let mut i: usize = 0;
    while i < document.entities.len()
        invariant
            i <= document.entities@.len(),
            forall|k: int| 0 <= k < i ==> (#[trigger] inputs_reference(document.objects@, document.entities@[k])) is None,
        decreases document.entities@.len() - i,
    {
        if wants_inputs(document, &document.entities[i]) {
            return true;
        }
        i += 1;
    }
    false
}

/// What storing left for the reference `t` of the surface at position `p`:
/// the surface takes the dictionary `d`, which names under the key the record
/// `r`, one that `d` owns and that holds the inputs as written; with no
/// inputs, `d` has no such key.
pub open spec fn input_done(
    doc: CadDocument,
    t: (Handle, Option<Handle>, Option<InputsModel>),
    p: int,
    d: Handle,
    r: Option<Handle>,
) -> bool {
    &&& doc.entities@[p].common_spec().xdictionary_handle == Some(d)
    &&& dictionary_at(doc.objects@, d) is Some
    &&& lookup(dictionary_at(doc.objects@, d)->0.model(), curves_key()) == r
    &&& (t.2 is Some ==> {
        &&& r is Some && r->0 != d
        &&& xrecord_at(doc.objects@, r->0) matches Some(x) && x.owner == d && x.model() == encoded_inputs(t.2->0)
    })
    &&& (t.2 is None ==> r is None)
}

/// An entity changed at most in its extension dictionary keeps its handle.
pub proof fn lemma_same_but_xdictionary_handle(a: EntityType, b: EntityType)
    requires
        same_but_xdictionary(a, b),
    ensures
        b.common_spec().handle == a.common_spec().handle,
{
    let c = EntityCommon { xdictionary_handle: b.common_spec().xdictionary_handle, ..a.common_spec() };
    lemma_with_common_twice(a, c, c);
}

/// One more stored reference keeps what the earlier ones left, when entities
/// have distinct handles: the next dictionary and record are neither an
/// earlier dictionary nor record, only the next surface takes a dictionary,
/// and no later surface had the new dictionary as its own.
#[verifier::spinoff_prover]
pub proof fn lemma_store_inputs_step(
    objects0: Map<u64, ObjectType>,
    es0: Seq<EntityType>,
    seed0: u64,
    refs: Seq<(Handle, Option<Handle>, Option<InputsModel>)>,
    pos: Seq<int>,
    ds: Seq<Handle>,
    rs: Seq<Option<Handle>>,
    before: CadDocument,
    fin: CadDocument,
    j: int,
    d: Handle,
    r: Option<Handle>,
)
    requires
        0 <= j < refs.len(),
        ds.len() == j,
        rs.len() == j,
        entity_handles_distinct(es0),
        pos.len() == refs.len(),
        forall|k: int| 0 <= k < refs.len() ==> 0 <= #[trigger] pos[k] < es0.len()
            && inputs_reference(objects0, es0[pos[k]]) == Some(refs[k]),
        forall|j1: int, j2: int| 0 <= j1 < j2 < refs.len() ==> #[trigger] pos[j1] < #[trigger] pos[j2],
        forall|k: int| 0 <= k < refs.len() ==> opt_below((#[trigger] refs[k]).1, seed0),
        seed0 <= before.header.handle_seed,
        before.entities@.len() == es0.len(),
        forall|i: int| 0 <= i < es0.len() ==> same_but_xdictionary(#[trigger] es0[i], before.entities@[i]),
        forall|k: int| j <= k < refs.len() ==> before.entities@[#[trigger] pos[k]] == es0[pos[k]],
        forall|k: int| 0 <= k < j ==> input_done(before, #[trigger] refs[k], pos[k], ds[k], rs[k])
            && forall|m: int| j <= m < refs.len() ==> refs[m].1 != Some(ds[k]),
        inputs_stored_one(before, fin, refs[j].0, refs[j].1, refs[j].2, d, r),
        fin.entities@ == with_xdictionary(before.entities@, refs[j].0, Some(d)),
    ensures
        forall|k: int| j + 1 <= k < refs.len() ==> fin.entities@[#[trigger] pos[k]] == es0[pos[k]],
        forall|k: int| 0 <= k < j ==> input_done(fin, #[trigger] refs[k], pos[k], ds[k], rs[k]),
        forall|k: int, m: int| 0 <= k < j && j + 1 <= m < refs.len() ==> #[trigger] refs[m].1 != Some(#[trigger] ds[k]),
        input_done(fin, refs[j], pos[j], d, r),
        forall|m: int| j + 1 <= m < refs.len() ==> (#[trigger] refs[m]).1 != Some(d),
{
    let (owner, previous, inputs) = refs[j];
    let es = before.entities@;
    assert forall|i: int| 0 <= i < es.len() implies (#[trigger] es[i]).common_spec().handle == es0[i].common_spec().handle by {
        lemma_same_but_xdictionary_handle(es0[i], es[i]);
    }
    assert(entity_handles_distinct(es)) by {
        assert forall|a: int, b: int| 0 <= a < b < es.len() implies (#[trigger] es[a]).common_spec().handle
            != (#[trigger] es[b]).common_spec().handle by {
            assert(es0[a].common_spec().handle != es0[b].common_spec().handle);
        }
    }
    // Each reference holds its surface's handle and extension dictionary.
    assert forall|k: int| 0 <= k < refs.len() implies (#[trigger] refs[k]).0 == es0[pos[k]].common_spec().handle
        && refs[k].1 == es0[pos[k]].common_spec().xdictionary_handle by {
        assert(es0[pos[k]] is Surface);
    }
    let p = pos[j];
    assert(es[p] == es0[p]);
    lemma_index_of_distinct(es, p);
    let c = EntityCommon { xdictionary_handle: Some(d), ..es[p].common_spec() };
    assert(fin.entities@ == es.update(p, es[p].with_common(c)));
    lemma_with_common_twice(es[p], c, c);
    // No later surface had the new dictionary as its own.
    assert forall|m: int| j + 1 <= m < refs.len() implies refs[m].1 != Some(d) by {
        if refs[m].1 == Some(d) {
            assert(pos[j] < pos[m]);
            assert(es[pos[m]] == es0[pos[m]]);
            assert(es0[pos[m]].common_spec().handle != es0[p].common_spec().handle);
            if before.header.handle_seed <= d.value && !before.objects@.contains_key(d.value) {
                assert(opt_below(refs[m].1, seed0));
            } else {
                assert(entity_shares(es[pos[m]], owner, previous));
                assert(shared_dictionary(before, owner, previous));
            }
        }
    }
    assert forall|k: int| j + 1 <= k < refs.len() implies fin.entities@[#[trigger] pos[k]] == es0[pos[k]] by {
        assert(pos[j] < pos[k]);
    }
    assert forall|k: int| 0 <= k < j implies input_done(fin, #[trigger] refs[k], pos[k], ds[k], rs[k]) by {
        let dk = ds[k];
        assert(pos[k] < p);
        assert(fin.entities@[pos[k]] == es[pos[k]]);
        assert(dk != d) by {
            assert(refs[j].1 != Some(dk));
        }
        assert(before.objects@.contains_key(dk.value));
        if r == Some(dk) {
            assert(false);
        }
        assert(fin.objects@.contains_key(dk.value));
        if refs[k].2 is Some {
            let rk = rs[k]->0;
            assert(before.objects@.contains_key(rk.value));
            assert(rk != d);
            if r == Some(rk) {
                assert(false);
            }
            assert(fin.objects@.contains_key(rk.value));
        }
    }
    assert(input_done(fin, refs[j], p, d, r));
    assert forall|k: int, m: int| 0 <= k < j && j + 1 <= m < refs.len() implies #[trigger] refs[m].1 != Some(#[trigger] ds[k]) by {
        let t = refs[k];
        assert(j <= m);
    }
}

/// The extension dictionaries that the lofted surfaces of `a` with inputs to
/// store have (see `inputs_reference`).
pub open spec fn inputs_dictionaries(a: CadDocument) -> Set<u64> {
    Set::new(|k: u64| exists|i: int| 0 <= i < a.entities@.len()
        && ((#[trigger] inputs_reference(a.objects@, a.entities@[i])) matches Some(t)
        && t.1 == Some(Handle { value: k })))
}

/// What storing the lofted surfaces' inputs does (see `store`): the
/// document stays well formed and, but for links, the entities' extension
/// dictionaries and the objects that storing for those surfaces may change
/// (see `objects_kept_but`), as it was; the seed and the object count grow
/// within bounds and new objects lie from the seed on; and, when entities have
/// distinct handles, each lofted surface is stored (see `inputs_stored`).
pub open spec fn inputs_stored_all(a: CadDocument, b: CadDocument) -> bool {
    &&& b.handles_wf()
    &&& objects_kept_but(a.objects@, b.objects@, inputs_dictionaries(a), a.header.handle_seed)
    &&& metadata_frame_but_entities(a, b)
    &&& a.header.handle_seed <= b.header.handle_seed
    &&& b.header.handle_seed <= a.header.handle_seed
        + a.entities@.len() * (a.objects@.dom().len() + a.entities@.len() + 3)
    &&& b.objects@.dom().len() <= a.objects@.dom().len() + (b.header.handle_seed - a.header.handle_seed)
    &&& forall|k: u64| #[trigger] b.objects@.contains_key(k) && !a.objects@.contains_key(k)
        ==> a.header.handle_seed <= k
    &&& b.header.named_objects_dict_handle == a.header.named_objects_dict_handle
    &&& b.header.acad_plotstylename_dict_handle == a.header.acad_plotstylename_dict_handle
    &&& b.header.acad_material_dict_handle == a.header.acad_material_dict_handle
    &&& b.entities@.len() == a.entities@.len()
    &&& forall|i: int| 0 <= i < a.entities@.len()
        ==> same_but_xdictionary(#[trigger] a.entities@[i], b.entities@[i])
    &&& entity_handles_distinct(a.entities@) ==> forall|i: int| 0 <= i < a.entities@.len()
        ==> inputs_stored(b.objects@, b.entities@[i], a.objects@, #[trigger] a.entities@[i])
}

/// Record each lofted surface's inputs as a record of its extension
/// dictionary, for formats whose surface records hold only database
/// references to them: a lofted surface with inputs gets a record that holds
/// them; one with only a stale record has it dropped. The surface's extension
/// dictionary is first made its own (see `writable_dictionary`). The
/// references to store are taken from the document before any change.
pub fn store(document: &mut CadDocument)
    requires
        old(document).handles_wf(),
        lofted_apart(*old(document)),
        old(document).header.handle_seed + (old(document).entities@.len() + 1)
            * (old(document).objects@.dom().len() + old(document).entities@.len() + 3) <= u64::MAX,
    ensures
        inputs_stored_all(*old(document), *final(document)),
        (forall|i: int| 0 <= i < old(document).entities@.len()
            ==> (#[trigger] inputs_reference(old(document).objects@, old(document).entities@[i])) is None)
            ==> *final(document) == *old(document),
{
    let ghost doc0 = *document;
    let ghost objects0 = document.objects@;
    let ghost es0 = document.entities@;
    let ghost seed0 = document.header.handle_seed;
    let ghost dist = entity_handles_distinct(es0);
    let mut refs: Vec<(Handle, Option<Handle>, Option<(Vec<EncodedEntity>, Vec<EncodedEntity>, Option<EncodedEntity>)>)> =
        Vec::new();
    let ghost mut rm: Seq<(Handle, Option<Handle>, Option<InputsModel>)> = Seq::empty();
    let ghost mut pos: Seq<int> = Seq::empty();
    let mut i: usize = 0;
    while i < document.entities.len()
        invariant
            *document == doc0,
            objects0 == doc0.objects@,
            i <= es0.len(),
            es0 == document.entities@,
            pos.len() == refs@.len(),
            rm.len() == refs@.len(),
            forall|j: int| 0 <= j < refs@.len() ==> #[trigger] rm[j] == reference_model(refs@[j]),
            forall|j: int| 0 <= j < refs@.len() ==> 0 <= #[trigger] pos[j] < i
                && inputs_reference(objects0, es0[pos[j]]) == Some(rm[j]),
            forall|j1: int, j2: int| 0 <= j1 < j2 < refs@.len() ==> #[trigger] pos[j1] < #[trigger] pos[j2],
            forall|k: int| 0 <= k < i && (#[trigger] inputs_reference(objects0, es0[k])) is Some
                ==> exists|j: int| 0 <= j < refs@.len() && pos[j] == k,
        decreases es0.len() - i,
    {
        let ghost pos0 = pos;
        let ghost rm0 = rm;
        let ghost refs0 = refs@;
        match reference_of(document, &document.entities[i]) {
            Some(t) => {
                refs.push(t);
                proof {
                    pos = pos.push(i as int);
                    rm = rm.push(reference_model(t));
                }
            },
            None => {},
        }
        proof {
            assert forall|k: int| 0 <= k < i + 1 && (#[trigger] inputs_reference(objects0, es0[k])) is Some
                implies exists|jj: int| 0 <= jj < refs@.len() && pos[jj] == k by {
                if k < i {
                    let jj = choose|jj: int| 0 <= jj < refs0.len() && pos0[jj] == k;
                    assert(pos[jj] == pos0[jj]);
                } else {
                    assert(pos[refs@.len() - 1] == k);
                }
            }
            assert forall|jj: int| 0 <= jj < refs@.len() implies 0 <= #[trigger] pos[jj] < i + 1
                && inputs_reference(objects0, es0[pos[jj]]) == Some(rm[jj]) by {
                if jj < refs0.len() {
                    assert(pos[jj] == pos0[jj]);
                    assert(rm[jj] == rm0[jj]);
                }
            }
            assert forall|jj: int| 0 <= jj < refs@.len() implies #[trigger] rm[jj] == reference_model(refs@[jj]) by {
                if jj < refs0.len() {
                    assert(rm[jj] == rm0[jj]);
                    assert(refs@[jj] == refs0[jj]);
                }
            }
        }
        i += 1;
    }
    let total = refs.len();
    let ghost all = refs@;
    let ghost n = es0.len();
    let ghost cost: int = (objects0.dom().len() + n + 3) as int;
    let ghost mut known: Set<u64> = objects0.dom();
    let ghost mut ds: Seq<Handle> = Seq::empty();
    let ghost mut rs: Seq<Option<Handle>> = Seq::empty();
    proof {
        assert(all.len() <= n) by {
            if all.len() > n {
                assert(0 <= pos[all.len() - 1] < n);
                assert forall|j: int| 0 <= j < all.len() implies #[trigger] pos[j] >= j by {
                    lemma_increasing_at_least(pos, all.len() as int, j);
                }
                assert(pos[all.len() - 1] >= all.len() - 1);
            }
        }
        assert forall|k: int| 0 <= k < all.len() implies {
            &&& (#[trigger] rm[k]).0.value < seed0
            &&& !objects0.contains_key(rm[k].0.value)
            &&& opt_below(rm[k].1, seed0)
        } by {
            assert(is_lofted(es0[pos[k]]));
        }
        assert(known_closed(known, *document, seed0)) by {
            assert forall|k: u64| #[trigger] known.contains(k) && document.objects@.contains_key(k) implies {
                &&& refs_among(document.objects@[k], known, seed0)
                &&& copyable_kind(document.objects@[k]) ==> opt_among(known, seed0, extension_of(document.xdic_by_handle@, Handle { value: k }))
            } by {
                lemma_refs_below_among(document.objects@[k], known, seed0);
            }
        }
        assert(refs@ =~= all.subrange(0, total as int));
    }
    proof {
        if forall|i: int| 0 <= i < es0.len() ==> (#[trigger] inputs_reference(objects0, es0[i])) is None {
            if all.len() > 0 {
                assert(inputs_reference(objects0, es0[pos[0]]) is Some);
            }
        }
    }
    let mut j: usize = 0;
    while j < total
        invariant
            j <= total,
            j == 0 ==> *document == doc0,
            (forall|i: int| 0 <= i < es0.len() ==> (#[trigger] inputs_reference(objects0, es0[i])) is None)
                ==> total == 0,
            total == all.len(),
            refs@ == all.subrange(j as int, total as int),
            all.len() <= n,
            n == es0.len(),
            dist == entity_handles_distinct(es0),
            doc0.entities@ == es0,
            doc0.handles_wf(),
            doc0.objects@ == objects0,
            doc0.header.handle_seed == seed0,
            cost == objects0.dom().len() + n + 3,
            document.handles_wf(),
            known_closed(known, *document, seed0),
            known.len() <= objects0.dom().len() + j,
            forall|k: u64| #[trigger] known.contains(k) ==> objects0.contains_key(k) || seed0 <= k,
            forall|k: u64| #[trigger] document.objects@.contains_key(k) && k < seed0 ==> objects0.contains_key(k),
            seed0 <= document.header.handle_seed,
            document.header.handle_seed <= seed0 + j * cost,
            document.header.handle_seed + (n + 1 - j) * cost <= u64::MAX,
            metadata_frame_but_entities(doc0, *document),
            document.header.named_objects_dict_handle == doc0.header.named_objects_dict_handle,
            document.header.acad_plotstylename_dict_handle == doc0.header.acad_plotstylename_dict_handle,
            document.header.acad_material_dict_handle == doc0.header.acad_material_dict_handle,
            document.entities@.len() == n,
            forall|k: int| 0 <= k < n ==> same_but_xdictionary(#[trigger] es0[k], document.entities@[k]),
            // what each reference holds
            pos.len() == all.len(),
            rm.len() == all.len(),
            forall|k: int| 0 <= k < all.len() ==> #[trigger] rm[k] == reference_model(all[k]),
            forall|k: int| 0 <= k < all.len() ==> 0 <= #[trigger] pos[k] < n
                && inputs_reference(objects0, es0[pos[k]]) == Some(rm[k]),
            forall|j1: int, j2: int| 0 <= j1 < j2 < all.len() ==> #[trigger] pos[j1] < #[trigger] pos[j2],
            forall|k: int| 0 <= k < n && (#[trigger] inputs_reference(objects0, es0[k])) is Some
                ==> exists|jj: int| 0 <= jj < all.len() && pos[jj] == k,
            forall|k: int| 0 <= k < all.len() ==> {
                &&& (#[trigger] rm[k]).0.value < seed0
                &&& !objects0.contains_key(rm[k].0.value)
                &&& opt_below(rm[k].1, seed0)
            },
            objects_kept_but(objects0, document.objects@, inputs_dictionaries(doc0), seed0),
            // what storing has done so far
            ds.len() == j,
            rs.len() == j,
            dist ==> forall|k: int| j <= k < all.len() ==> document.entities@[#[trigger] pos[k]] == es0[pos[k]],
            dist ==> forall|k: int| 0 <= k < j ==> input_done(*document, #[trigger] rm[k], pos[k], ds[k], rs[k])
                && forall|m: int| j <= m < all.len() ==> rm[m].1 != Some(ds[k]),
        decreases total - j,
    {
        let ghost before = *document;
        let (owner, previous, inputs) = refs.remove(0);
        proof {
            assert(all[j as int] == (owner, previous, inputs));
            assert(refs@ =~= all.subrange(j + 1, total as int));
            assert(rm[j as int] == reference_model((owner, previous, inputs)));
            assert(!known.contains(owner.value));
            assert(known.len() <= cost - 3);
            assert(1 <= n + 1 - j);
            assert((n + 1 - j) * cost >= cost) by (nonlinear_arith)
                requires 1 <= n + 1 - j, 0 <= cost;
        }
        let (dh, rh) = store_inputs_one(document, owner, previous, inputs, Ghost(known), Ghost(seed0));
        proof {
            let fin = *document;
            let known2 = if known.contains(dh.value) && rh is Some { known.insert(rh->0.value) } else { known };
            assert(known2.len() <= known.len() + 1) by {
                if known.contains(dh.value) && rh is Some {
                    vstd::set_lib::lemma_len_subset(known, known2);
                }
            }
            assert((n + 1 - j) * cost == (n - j) * cost + cost) by (nonlinear_arith);
            assert((j + 1) * cost == j * cost + cost) by (nonlinear_arith);
            assert forall|k: u64| #[trigger] known2.contains(k) implies objects0.contains_key(k) || seed0 <= k by {
                if !known.contains(k) {
                    assert(k == rh->0.value);
                    if before.objects@.contains_key(k) && k < seed0 {
                        assert(objects0.contains_key(k));
                    }
                }
            }
            assert forall|k: u64| #[trigger] fin.objects@.contains_key(k) && k < seed0 implies objects0.contains_key(k) by {
                if !before.objects@.contains_key(k) {
                    assert(before.header.handle_seed <= k);
                }
            }
            lemma_with_xdictionary(es0, before.entities@, owner, Some(dh));
            assert(objects_kept_but(objects0, fin.objects@, inputs_dictionaries(doc0), seed0)) by {
                match previous {
                    Some(p) => {
                        assert(inputs_reference(objects0, es0[pos[j as int]]) == Some(rm[j as int]));
                        assert(inputs_dictionaries(doc0).contains(p.value));
                    },
                    None => {},
                }
                lemma_kept_but_step(doc0, before, fin, inputs_dictionaries(doc0), owner, previous, dh, rh);
            }
            if dist {
                lemma_store_inputs_step(objects0, es0, seed0, rm, pos, ds, rs, before, fin, j as int, dh, rh);
            }
            let old_ds = ds;
            let old_rs = rs;
            known = known2;
            ds = ds.push(dh);
            rs = rs.push(rh);
            if dist {
                assert forall|k: int| 0 <= k < j + 1 implies input_done(fin, #[trigger] rm[k], pos[k], ds[k], rs[k])
                    && forall|m: int| j + 1 <= m < all.len() ==> rm[m].1 != Some(ds[k]) by {
                    if k < j {
                        assert(ds[k] == old_ds[k]);
                        assert(rs[k] == old_rs[k]);
                        assert(input_done(fin, rm[k], pos[k], old_ds[k], old_rs[k]));
                        assert forall|m: int| j + 1 <= m < all.len() implies rm[m].1 != Some(ds[k]) by {
                            assert(rm[m].1 != Some(old_ds[k]));
                        }
                    } else {
                        assert(ds[k] == dh);
                        assert(rs[k] == rh);
                    }
                }
            }
        }
        j += 1;
    }
    proof {
        let fin = *document;
        assert(total * cost <= n * cost) by (nonlinear_arith)
            requires total <= n, 0 <= cost;
        crate::io::loft_parameters::lemma_object_count(objects0, fin.objects@, seed0, fin.header.handle_seed);
        assert forall|k: u64| #[trigger] fin.objects@.contains_key(k) && !objects0.contains_key(k) implies seed0 <= k by {
        }
        if dist {
            assert forall|i: int| 0 <= i < n implies inputs_stored(fin.objects@, fin.entities@[i], objects0, #[trigger] es0[i]) by {
                match inputs_reference(objects0, es0[i]) {
                    Some(t) => {
                        let jj = choose|jj: int| 0 <= jj < all.len() && pos[jj] == i;
                        assert(rm[jj] == t);
                        assert(input_done(fin, rm[jj], i, ds[jj], rs[jj]));
                        assert(same_but_xdictionary(es0[i], fin.entities@[i]));
                        assert(es0[i] is Surface);
                    },
                    None => {},
                }
            }
        }
    }
}

} // verus!
