//! The history link of a surface, kept as a record of its extension
//! dictionary when the native surface record has no slot for it. The history
//! root keeps the surface as its owner.

use vstd::prelude::*;
use crate::document::{CadDocument, dictionary_at, refs_below, same_besides_entities, lemma_objects_wf_grow, lemma_objects_wf_insert,
    lemma_objects_wf_remove};
use crate::entities::entity::EntityType;
use crate::io::extension_dictionary::{has_record, has_record_spec, remove_record};
use crate::io::metadata_copy::{writable_dictionary, known_closed, lemma_known_closed, lemma_known_closed_grow,
    lemma_among_within, shared_dictionary, opt_among, among, refs_among, copyable_kind, objects_kept_but, lemma_kept_but_step};
use crate::objects::dictionary::{DynamicBlockData, ObjectType, lookup, with_entry, without_key, key_index_from,
    lemma_key_index_from, lemma_without_key, law_lookup_after_add_entry};
use crate::objects::xrecord::{EntryModel, ValueModel, XRecord, XRecordValue, first_with_code, first_code_from, model_as_i32,
    model_as_handle, object_ids, refers_to, lemma_first_code_from};
use crate::entities::entity::{EntityCommon, Surface};
use crate::types::Handle;

verus! {

broadcast use vstd::std_specs::hash::group_hash_axioms;

/// Key of the history-link record in a surface's extension dictionary.
pub open spec fn history_key() -> Seq<char> {
    "CADCODEC_SURFACE_HISTORY_V1"@
}

/// Extension dictionary recorded for an owner.
pub open spec fn extension_of(xdic: Map<u64, u64>, owner: Handle) -> Option<Handle> {
    if xdic.contains_key(owner.value) {
        Some(Handle { value: xdic[owner.value] })
    } else {
        None
    }
}

/// The XRecord stored under a handle, if that object is one.
pub open spec fn xrecord_at(objects: Map<u64, ObjectType>, h: Handle) -> Option<XRecord> {
    if objects.contains_key(h.value) {
        match objects[h.value] {
            ObjectType::XRecord(r) => Some(r),
            _ => None,
        }
    } else {
        None
    }
}

/// The XRecord that an owner's extension dictionary names under `key`.
pub open spec fn owner_record(objects: Map<u64, ObjectType>, xdic: Map<u64, u64>, owner: Handle, key: Seq<char>) -> Option<XRecord> {
    match extension_of(xdic, owner) {
        Some(x) => match dictionary_at(objects, x) {
            Some(d) => match lookup(d.model(), key) {
                Some(h) => xrecord_at(objects, h),
                None => None,
            },
            None => None,
        },
        None => None,
    }
}

/// The history root under `history`, when it is a solid-history root owned by the surface.
pub open spec fn owned_history_spec(objects: Map<u64, ObjectType>, surface: Handle, history: Handle) -> Option<Handle> {
    if history.value != 0 && objects.contains_key(history.value) && (match objects[history.value] {
        ObjectType::DynamicBlock(root) => root.owner == surface && root.data == DynamicBlockData::SolidHistory,
        _ => false,
    }) {
        Some(history)
    } else {
        None
    }
}

/// The history root under `history`, when it is a solid-history root owned by the surface.
fn owned_history(document: &CadDocument, surface: Handle, history: Handle) -> (r: Option<Handle>)
    ensures
        r == owned_history_spec(document.objects@, surface, history),
{
    if history.is_null() {
        return None;
    }
    match document.objects.get(&history.value) {
        Some(ObjectType::DynamicBlock(root)) => {
            let is_root = match root.data {
                DynamicBlockData::SolidHistory => true,
                _ => false,
            };
            if root.owner.value == surface.value && is_root {
                Some(history)
            } else {
                None
            }
        },
        _ => None,
    }
}

/// Extension dictionary recorded for an owner.
fn extension_dictionary(document: &CadDocument, owner: Handle) -> (r: Option<Handle>)
    ensures
        r == extension_of(document.xdic_by_handle@, owner),
{
    match document.xdic_by_handle.get(&owner.value) {
        Some(x) => Some(Handle::new(*x)),
        None => None,
    }
}

/// The XRecord that an owner's extension dictionary names under `key`.
fn record_for_owner<'a>(document: &'a CadDocument, owner: Handle, key: &str) -> (r: Option<&'a XRecord>)
    ensures
        match owner_record(document.objects@, document.xdic_by_handle@, owner, key@) {
            Some(rec) => r == Some(&rec),
            None => r is None,
        },
{
    let x = match extension_dictionary(document, owner) {
        Some(x) => x,
        None => return None,
    };
    let h = match document.objects.get(&x.value) {
        Some(ObjectType::Dictionary(d)) => match d.get(key) {
            Some(h) => h,
            None => return None,
        },
        _ => return None,
    };
    match document.objects.get(&h.value) {
        Some(ObjectType::XRecord(r)) => Some(r),
        _ => None,
    }
}

/// History root that a surface's fallback record names: the record starts its
/// version entry (code 90) with 1 and names the root with a handle (code 330).
pub open spec fn recorded_history(record: XRecord) -> Option<Handle> {
    let es = record.model();
    match first_with_code(es, 90) {
        Some(i) => if model_as_i32(es[i].value) == Some(1i32) {
            match first_with_code(es, 330) {
                Some(j) => match es[j].value {
                    ValueModel::Handle(h) => Some(h),
                    _ => None,
                },
                None => None,
            }
        } else {
            None
        },
        None => None,
    }
}

/// A present, non-null handle.
pub open spec fn link_present(h: Option<Handle>) -> bool {
    h matches Some(x) && x.value != 0
}

/// The history link a surface regains on restore: a surface without a native
/// link, whose fallback record names a history root that the surface owns.
pub open spec fn restored_link(objects: Map<u64, ObjectType>, xdic: Map<u64, u64>, e: EntityType) -> Option<(Handle, Handle)> {
    match e {
        EntityType::Surface(s) => if link_present(s.history_handle) {
            None
        } else {
            let owner = s.common.handle;
            match owner_record(objects, xdic, owner, history_key()) {
                Some(record) => match recorded_history(record) {
                    Some(h) => match owned_history_spec(objects, owner, h) {
                        Some(root) => Some((owner, root)),
                        None => None,
                    },
                    None => None,
                },
                None => None,
            }
        },
        _ => None,
    }
}

/// The links to restore, in entity order.
pub open spec fn restored_links(objects: Map<u64, ObjectType>, xdic: Map<u64, u64>, es: Seq<EntityType>) -> Seq<(Handle, Handle)>
    decreases es.len(),
{
    if es.len() == 0 {
        Seq::empty()
    } else {
        let rest = restored_links(objects, xdic, es.drop_last());
        match restored_link(objects, xdic, es.last()) {
            Some(l) => rest.push(l),
            None => rest,
        }
    }
}

/// Index of the first entity at or after `k` with the given handle (the length when none).
pub open spec fn entity_index_from(es: Seq<EntityType>, h: Handle, k: int) -> int
    decreases es.len() - k,
{
    if k < 0 || k >= es.len() {
        es.len() as int
    } else if es[k].common_spec().handle == h {
        k
    } else {
        entity_index_from(es, h, k + 1)
    }
}

/// What `entity_index_from` finds: a position from `k` up to the length.
pub proof fn lemma_entity_index_from(es: Seq<EntityType>, h: Handle, k: int)
    requires
        0 <= k <= es.len(),
    ensures
        k <= entity_index_from(es, h, k) <= es.len(),
        entity_index_from(es, h, k) < es.len() ==> es[entity_index_from(es, h, k)].common_spec().handle == h,
        forall|j: int| k <= j < entity_index_from(es, h, k) ==> (#[trigger] es[j]).common_spec().handle != h,
    decreases es.len() - k,
{
    if k < es.len() && es[k].common_spec().handle != h {
        lemma_entity_index_from(es, h, k + 1);
    }
}

/// Entities after giving the first entity with handle `owner`, when it is a
/// surface, the history link `history`.
pub open spec fn with_history(es: Seq<EntityType>, owner: Handle, history: Handle) -> Seq<EntityType> {
    let k = entity_index_from(es, owner, 0);
    if k < es.len() {
        match es[k] {
            EntityType::Surface(s) => es.update(k, EntityType::Surface(
                crate::entities::entity::Surface { history_handle: Some(history), ..s },
            )),
            _ => es,
        }
    } else {
        es
    }
}

/// Entities after every link is applied in order.
pub open spec fn apply_links(es: Seq<EntityType>, links: Seq<(Handle, Handle)>) -> Seq<EntityType>
    decreases links.len(),
{
    if links.len() == 0 {
        es
    } else {
        let before = apply_links(es, links.drop_last());
        with_history(before, links.last().0, links.last().1)
    }
}

/// Whether a surface has an owned history root or a fallback record.
pub open spec fn references_history(objects: Map<u64, ObjectType>, xdic: Map<u64, u64>, e: EntityType) -> bool {
    match e {
        EntityType::Surface(s) => {
            ||| (match s.history_handle {
                Some(h) => owned_history_spec(objects, s.common.handle, h) is Some,
                None => false,
            })
            ||| has_record_spec(objects, extension_of(xdic, s.common.handle), history_key())
        },
        _ => false,
    }
}

/// Some surface of the document has an owned history root or a fallback record.
pub fn has_references(document: &CadDocument) -> (b: bool)
    ensures
        b == exists|i: int| 0 <= i < document.entities@.len()
            && references_history(document.objects@, document.xdic_by_handle@, #[trigger] document.entities@[i]),
{
    let mut i: usize = 0;
    while i < document.entities.len()
        invariant
            i <= document.entities@.len(),
            forall|j: int| 0 <= j < i ==> !references_history(document.objects@, document.xdic_by_handle@, #[trigger] document.entities@[j]),
        decreases document.entities@.len() - i,
    {
        match &document.entities[i] {
            EntityType::Surface(surface) => {
                let owned = match surface.history_handle {
                    Some(h) => owned_history(document, surface.common.handle, h).is_some(),
                    None => false,
                };
                if owned || has_record(document, extension_dictionary(document, surface.common.handle), "CADCODEC_SURFACE_HISTORY_V1") {
                    return true;
                }
            },
            _ => {},
        }
        i += 1;
    }
    false
}

/// The history link that a surface regains on restore (see `restored_link`).
fn link_of(document: &CadDocument, e: &EntityType) -> (r: Option<(Handle, Handle)>)
    ensures
        r == restored_link(document.objects@, document.xdic_by_handle@, *e),
{
    match e {
        EntityType::Surface(s) => {
            match s.history_handle {
                Some(h) => {
                    if !h.is_null() {
                        return None;
                    }
                },
                None => {},
            }
            let owner = s.common.handle;
            let record = match record_for_owner(document, owner, "CADCODEC_SURFACE_HISTORY_V1") {
                Some(r) => r,
                None => return None,
            };
            let ghost es = record.model();
            proof {
                lemma_first_code_from(es, 90, 0);
                lemma_first_code_from(es, 330, 0);
            }
            let version = match record.get_first_by_code(90) {
                Some(entry) => {
                    proof {
                        let i = first_with_code(es, 90)->0;
                        assert(es[i] == record.entries@[i]@);
                    }
                    entry.value.as_i32()
                },
                None => return None,
            };
            if version != Some(1i32) {
                return None;
            }
            proof {
                match first_with_code(es, 330) {
                    Some(j) => {
                        assert(es[j] == record.entries@[j]@);
                    },
                    None => {},
                }
            }
            let history = match record.get_first_by_code(330) {
                Some(entry) => match &entry.value {
                    XRecordValue::Handle(h) => *h,
                    _ => return None,
                },
                None => return None,
            };
            match owned_history(document, owner, history) {
                Some(root) => Some((owner, root)),
                None => None,
            }
        },
        _ => None,
    }
}

/// Position of the first entity with the given handle.
pub(crate) fn entity_position(es: &Vec<EntityType>, h: Handle) -> (k: usize)
    ensures
        k == entity_index_from(es@, h, 0),
        k <= es@.len(),
{
    let mut k: usize = 0;
    while k < es.len()
        invariant
            k <= es@.len(),
            entity_index_from(es@, h, 0) == entity_index_from(es@, h, k as int),
        decreases es@.len() - k,
    {
        if es[k].common().handle.value == h.value {
            return k;
        }
        k += 1;
    }
    k
}

/// Give surfaces without a native history link the link their fallback record
/// names. A native link, even one whose target could not be recovered, has priority.
pub fn restore(document: &mut CadDocument)
    ensures
        final(document).entities@ == apply_links(
            old(document).entities@,
            restored_links(old(document).objects@, old(document).xdic_by_handle@, old(document).entities@),
        ),
        same_besides_entities(*final(document), *old(document)),
{
    let ghost es0 = document.entities@;
    let ghost objects = document.objects@;
    let ghost xdic = document.xdic_by_handle@;
    let mut links: Vec<(Handle, Handle)> = Vec::new();
    let mut i: usize = 0;
    while i < document.entities.len()
        invariant
            i <= document.entities@.len(),
            links@ == restored_links(document.objects@, document.xdic_by_handle@, document.entities@.take(i as int)),
        decreases document.entities@.len() - i,
    {
        proof {
            let es = document.entities@;
            assert(es.take(i + 1).drop_last() =~= es.take(i as int));
            assert(es.take(i + 1).last() == es[i as int]);
        }
        match link_of(document, &document.entities[i]) {
            Some(link) => {
                links.push(link);
            },
            None => {},
        }
        i += 1;
    }
    assert(es0.take(es0.len() as int) =~= es0);
    let ghost all_links = links@;
    let mut j: usize = 0;
    while j < links.len()
        invariant
            j <= links@.len(),
            all_links == links@,
            document.entities@ == apply_links(es0, all_links.take(j as int)),
            same_besides_entities(*document, *old(document)),
        decreases links@.len() - j,
    {
        let (owner, history) = links[j];
        proof {
            assert(all_links.take(j + 1).drop_last() =~= all_links.take(j as int));
            assert(all_links.take(j + 1).last() == (owner, history));
        }
        let k = entity_position(&document.entities, owner);
        if k < document.entities.len() {
            let ghost before = document.entities@;
            let is_surface = match &document.entities[k] {
                EntityType::Surface(_) => true,
                _ => false,
            };
            if is_surface {
                let e = document.entities.remove(k);
                match e {
                    EntityType::Surface(mut s) => {
                        s.history_handle = Some(history);
                        document.entities.insert(k, EntityType::Surface(s));
                        assert(document.entities@ =~= before.update(k as int, EntityType::Surface(s)));
                    },
                    other => {
                        document.entities.insert(k, other);
                    },
                }
            }
        }
        j += 1;
    }
    assert(all_links.take(all_links.len() as int) =~= all_links);
}

/// The fallback record that names a surface's history root: a version
/// entry (code 90) of 1 and a soft pointer (code 330) to the root.
fn history_record(handle: Handle, owner: Handle, history: Handle) -> (r: XRecord)
    ensures
        r.handle == handle,
        r.owner == owner,
        r.name@ == history_key(),
        r.model() == seq![
            EntryModel { code: 90, value: ValueModel::Int32(1) },
            EntryModel { code: 330, value: ValueModel::Handle(history) },
        ],
        r.xdictionary_handle is None,
        r.entries_complete,
        forall|h: Handle| #[trigger] refers_to(r, h) ==> h == history,
        recorded_history(r) == Some(history),
{
    let mut record = XRecord::named("CADCODEC_SURFACE_HISTORY_V1");
    proof {
        reveal_strlit("CADCODEC_SURFACE_HISTORY_V1");
    }
    record.handle = handle;
    record.owner = owner;
    record.add_int32(90, 1);
    record.add_handle(330, history);
    let ghost es = record.model();
    proof {
        assert(es =~= seq![
            EntryModel { code: 90, value: ValueModel::Int32(1) },
            EntryModel { code: 330, value: ValueModel::Handle(history) },
        ]);
        let e1 = es.drop_last();
        assert(e1.drop_last() =~= Seq::<EntryModel>::empty());
        assert(object_ids(e1.drop_last()) =~= Seq::<(i32, Handle)>::empty());
        assert(e1.last() == EntryModel { code: 90, value: ValueModel::Int32(1) });
        assert(model_as_handle(e1.last().value) is None);
        assert(object_ids(e1) == object_ids(e1.drop_last()));
        assert(object_ids(es.drop_last()) =~= Seq::<(i32, Handle)>::empty());
        assert(object_ids(es) =~= seq![(330i32, history)]);
        assert(record.object_references@.len() == 1);
        assert(record.object_references@[0].handle == history);
        assert forall|h: Handle| #[trigger] refers_to(record, h) implies h == history by {
            if exists|i: int| 0 <= i < record.entries@.len() && model_as_handle(#[trigger] record.model()[i].value) == Some(h) {
                let i = choose|i: int| 0 <= i < record.entries@.len() && model_as_handle(#[trigger] record.model()[i].value) == Some(h);
                assert(record.model().len() == record.entries@.len());
            }
        }
        assert(first_code_from(es, 90, 0) == 0);
        assert(first_code_from(es, 330, 1) == 1);
        assert(first_code_from(es, 330, 0) == 1);
    }
    record
}

/// Entities after the first entity with handle `owner` takes `x` as its extension dictionary.
pub open spec fn with_xdictionary(es: Seq<EntityType>, owner: Handle, x: Option<Handle>) -> Seq<EntityType> {
    let k = entity_index_from(es, owner, 0);
    if k < es.len() {
        es.update(k, es[k].with_common(EntityCommon { xdictionary_handle: x, ..es[k].common_spec() }))
    } else {
        es
    }
}

/// Give the first entity with handle `owner` the extension dictionary `x`.
pub(crate) fn set_entity_xdictionary(document: &mut CadDocument, owner: Handle, x: Option<Handle>)
    ensures
        final(document).entities@ == with_xdictionary(old(document).entities@, owner, x),
        final(document).objects == old(document).objects,
        final(document).header == old(document).header,
        final(document).xdic_by_handle == old(document).xdic_by_handle,
        metadata_frame_but_entities(*old(document), *final(document)),
{
    let k = entity_position(&document.entities, owner);
    if k < document.entities.len() {
        let ghost before = document.entities@;
        let mut e = document.entities.remove(k);
        let ghost e0 = e;
        let c = e.common_mut();
        c.xdictionary_handle = x;
        document.entities.insert(k, e);
        assert(document.entities@ =~= before.update(k as int, e));
    }
}

/// Everything but the entities stays as it is.
pub open spec fn metadata_frame_but_entities(a: CadDocument, b: CadDocument) -> bool {
    &&& a.version == b.version
    &&& a.maintenance_version == b.maintenance_version
    &&& a.layers == b.layers
    &&& a.line_types == b.line_types
    &&& a.text_styles == b.text_styles
    &&& a.block_records == b.block_records
    &&& a.dim_styles == b.dim_styles
    &&& a.app_ids == b.app_ids
    &&& a.views == b.views
    &&& a.vports == b.vports
    &&& a.ucss == b.ucss
    &&& a.vx_table == b.vx_table
    &&& a.notifications == b.notifications
}

/// References among a set stay among any larger set.
pub proof fn lemma_refs_among_grow(o: ObjectType, a: Set<u64>, b: Set<u64>, seed0: u64)
    requires
        refs_among(o, a, seed0),
        a.subset_of(b),
    ensures
        refs_among(o, b, seed0),
{
    match o {
        ObjectType::Dictionary(d) => {
            assert forall|i: int| 0 <= i < d.model().len() implies among(b, seed0, #[trigger] d.model()[i].1) by {
                assert(among(a, seed0, d.model()[i].1));
            }
        },
        ObjectType::DictionaryWithDefault(d) => {
            assert forall|i: int| 0 <= i < d.model().len() implies among(b, seed0, #[trigger] d.model()[i].1) by {
                assert(among(a, seed0, d.model()[i].1));
            }
        },
        ObjectType::XRecord(r) => {
            assert forall|h: Handle| #[trigger] refers_to(r, h) implies among(b, seed0, h) by {
                assert(among(a, seed0, h));
            }
        },
        ObjectType::Field(f) => {
            assert forall|i: int| 0 <= i < f.child_fields@.len() implies among(b, seed0, #[trigger] f.child_fields@[i]) by {
                assert(among(a, seed0, f.child_fields@[i]));
            }
        },
        ObjectType::FieldList(l) => {
            assert forall|i: int| 0 <= i < l.fields@.len() implies among(b, seed0, #[trigger] l.fields@[i]) by {
                assert(among(a, seed0, l.fields@[i]));
            }
        },
        _ => {},
    }
}

/// Dictionary model after the history record takes the key: every entry with
/// the key, ASCII case ignored, is dropped and the key names the record.
pub open spec fn keyed_to(es: Seq<(Seq<char>, Handle)>, record: Handle) -> Seq<(Seq<char>, Handle)> {
    with_entry(without_key(es, history_key()), history_key(), record)
}

/// What storing one surface's link does (see `store_one`): `owner` takes the
/// dictionary `d` as its extension dictionary, the other links stay and new
/// ones lie from the seed on; `d` is fresh, or the owner's own that nothing
/// else used; with a history root, `d` names under the key the record `r`,
/// fresh or one that `d` owned, which names the root; without, `d` has no such
/// key. Other objects stay as they were, but for a record that `d` owned, and
/// new ones lie from the seed on.
pub open spec fn stored_one(
    a: CadDocument,
    b: CadDocument,
    owner: Handle,
    previous: Option<Handle>,
    history: Option<Handle>,
    d: Handle,
    r: Option<Handle>,
) -> bool {
    &&& b.xdic_by_handle@.contains_key(owner.value)
    &&& b.xdic_by_handle@[owner.value] == d.value
    &&& forall|k: u64| #[trigger] a.xdic_by_handle@.contains_key(k) && k != owner.value
        ==> b.xdic_by_handle@.contains_key(k) && b.xdic_by_handle@[k] == a.xdic_by_handle@[k]
    &&& forall|k: u64| #[trigger] b.xdic_by_handle@.contains_key(k) && k != owner.value
        && !a.xdic_by_handle@.contains_key(k) ==> a.header.handle_seed <= k
    &&& ((a.header.handle_seed <= d.value && !a.objects@.contains_key(d.value))
        || (previous == Some(d) && dictionary_at(a.objects@, d) is Some && !shared_dictionary(a, owner, previous)))
    &&& dictionary_at(b.objects@, d) is Some
    &&& (history is Some ==> {
        &&& r is Some && r->0 != d
        &&& ((a.header.handle_seed <= r->0.value && !a.objects@.contains_key(r->0.value))
            || (xrecord_at(a.objects@, r->0) matches Some(x) && x.owner == d))
        &&& lookup(dictionary_at(b.objects@, d)->0.model(), history_key()) == r
        &&& xrecord_at(b.objects@, r->0) matches Some(x) && x.owner == d && recorded_history(x) == history
    })
    &&& (history is None ==> r is None && lookup(dictionary_at(b.objects@, d)->0.model(), history_key()) is None)
    &&& forall|k: u64| #[trigger] a.objects@.contains_key(k) && k != d.value && r != Some(Handle { value: k })
        ==> if b.objects@.contains_key(k) {
            b.objects@[k] == a.objects@[k]
        } else {
            xrecord_at(a.objects@, Handle { value: k }) matches Some(x) && x.owner == d
        }
    &&& forall|k: u64| #[trigger] b.objects@.contains_key(k) && !a.objects@.contains_key(k) ==> a.header.handle_seed <= k
}

/// A strictly increasing sequence of naturals holds at least its index at each position.
pub proof fn lemma_increasing_at_least(pos: Seq<int>, len: int, j: int)
    requires
        0 <= j < len <= pos.len(),
        forall|k: int| 0 <= k < len ==> 0 <= #[trigger] pos[k],
        forall|j1: int, j2: int| 0 <= j1 < j2 < len ==> #[trigger] pos[j1] < #[trigger] pos[j2],
    ensures
        pos[j] >= j,
    decreases j,
{
    if j > 0 {
        lemma_increasing_at_least(pos, len, j - 1);
        assert(pos[j - 1] < pos[j]);
    }
}

/// References below `seed0` are among any handles and those below `seed0`.
pub proof fn lemma_refs_below_among(o: ObjectType, known: Set<u64>, seed0: u64)
    requires
        refs_below(o, seed0),
    ensures
        refs_among(o, known, seed0),
{
    match o {
        ObjectType::Dictionary(d) => {
            assert forall|i: int| 0 <= i < d.model().len() implies among(known, seed0, #[trigger] d.model()[i].1) by {
                assert(d.model()[i].1.value < seed0);
            }
        },
        ObjectType::DictionaryWithDefault(d) => {
            assert forall|i: int| 0 <= i < d.model().len() implies among(known, seed0, #[trigger] d.model()[i].1) by {
                assert(d.model()[i].1.value < seed0);
            }
        },
        ObjectType::Field(f) => {
            assert forall|i: int| 0 <= i < f.child_fields@.len() implies among(known, seed0, #[trigger] f.child_fields@[i]) by {
                assert(f.child_fields@[i].value < seed0);
            }
        },
        ObjectType::FieldList(l) => {
            assert forall|i: int| 0 <= i < l.fields@.len() implies among(known, seed0, #[trigger] l.fields@[i]) by {
                assert(l.fields@[i].value < seed0);
            }
        },
        _ => {},
    }
}

/// One more stored reference keeps what the earlier ones left, when surfaces
/// have distinct handles: the next dictionary and record are neither an
/// earlier dictionary, record or history root, and the next link is written
/// for another owner.
pub proof fn lemma_store_step(
    objects0: Map<u64, ObjectType>,
    xdic0: Map<u64, u64>,
    es0: Seq<EntityType>,
    refs: Seq<(Handle, Option<Handle>, Option<Handle>)>,
    pos: Seq<int>,
    ds: Seq<Handle>,
    rs: Seq<Option<Handle>>,
    before: CadDocument,
    fin: CadDocument,
    j: int,
    d: Handle,
    r: Option<Handle>,
)
    requires
        0 <= j < refs.len(),
        ds.len() == j,
        rs.len() == j,
        surface_handles_distinct(es0),
        pos.len() == refs.len(),
        forall|k: int| 0 <= k < refs.len() ==> 0 <= #[trigger] pos[k] < es0.len()
            && stored_reference(objects0, xdic0, es0[pos[k]]) == Some(refs[k]),
        forall|j1: int, j2: int| 0 <= j1 < j2 < refs.len() ==> #[trigger] pos[j1] < #[trigger] pos[j2],
        before.handles_wf(),
        forall|k: u64| #[trigger] objects0.contains_key(k) && objects0[k] is DynamicBlock
            ==> before.objects@.contains_key(k) && before.objects@[k] == objects0[k],
        forall|k: int| j <= k < refs.len() ==> {
            &&& (#[trigger] refs[k]).0.value < before.header.handle_seed
            &&& before.xdic_by_handle@.contains_key(refs[k].0.value) == xdic0.contains_key(refs[k].0.value)
            &&& (xdic0.contains_key(refs[k].0.value) ==> before.xdic_by_handle@[refs[k].0.value] == xdic0[refs[k].0.value])
        },
        forall|k: int| 0 <= k < j ==> {
            &&& before.xdic_by_handle@.contains_key((#[trigger] refs[k]).0.value)
            &&& before.xdic_by_handle@[refs[k].0.value] == ds[k].value
            &&& dictionary_at(before.objects@, ds[k]) is Some
            &&& lookup(dictionary_at(before.objects@, ds[k])->0.model(), history_key()) == rs[k]
            &&& (refs[k].2 is Some ==> {
                &&& rs[k] is Some && rs[k]->0 != ds[k]
                &&& xrecord_at(before.objects@, rs[k]->0) matches Some(x) && x.owner == ds[k]
                    && recorded_history(x) == refs[k].2
            })
            &&& (refs[k].2 is None ==> rs[k] is None)
            &&& forall|m: int| j <= m < refs.len() ==> refs[m].1 != Some(ds[k])
        },
        stored_one(before, fin, refs[j].0, refs[j].1, refs[j].2, d, r),
        forall|k: u64| #[trigger] objects0.contains_key(k) && objects0[k] is DynamicBlock
            ==> fin.objects@.contains_key(k) && fin.objects@[k] == objects0[k],
    ensures
        forall|k: int| j + 1 <= k < refs.len() ==> {
            &&& (#[trigger] refs[k]).0.value < before.header.handle_seed
            &&& fin.xdic_by_handle@.contains_key(refs[k].0.value) == xdic0.contains_key(refs[k].0.value)
            &&& (xdic0.contains_key(refs[k].0.value) ==> fin.xdic_by_handle@[refs[k].0.value] == xdic0[refs[k].0.value])
        },
        forall|k: int| 0 <= k < j + 1 ==> {
            &&& fin.xdic_by_handle@.contains_key((#[trigger] refs[k]).0.value)
            &&& fin.xdic_by_handle@[refs[k].0.value] == ds.push(d)[k].value
            &&& dictionary_at(fin.objects@, ds.push(d)[k]) is Some
            &&& lookup(dictionary_at(fin.objects@, ds.push(d)[k])->0.model(), history_key()) == rs.push(r)[k]
            &&& (refs[k].2 is Some ==> {
                &&& rs.push(r)[k] is Some && rs.push(r)[k]->0 != ds.push(d)[k]
                &&& xrecord_at(fin.objects@, rs.push(r)[k]->0) matches Some(x) && x.owner == ds.push(d)[k]
                    && recorded_history(x) == refs[k].2
            })
            &&& (refs[k].2 is None ==> rs.push(r)[k] is None)
            &&& forall|m: int| j + 1 <= m < refs.len() ==> refs[m].1 != Some(ds.push(d)[k])
        },
{
    let (owner, previous, history) = refs[j];
    // Distinct references have distinct owners.
    assert forall|k: int| 0 <= k < refs.len() && k != j implies (#[trigger] refs[k]).0 != owner by {
        let a = pos[k];
        let b = pos[j];
        assert(es0[a] is Surface);
        assert(es0[b] is Surface);
        if k < j {
            assert(pos[k] < pos[j]);
        } else {
            assert(pos[j] < pos[k]);
        }
    }
    // The owners' references were taken from the links before.
    assert forall|k: int| 0 <= k < refs.len() implies (#[trigger] refs[k]).1 == extension_of(xdic0, refs[k].0) by {
        assert(es0[pos[k]] is Surface);
    }
    // A later reference does not name the new dictionary.
    assert forall|m: int| j + 1 <= m < refs.len() implies refs[m].1 != Some(d) by {
        if refs[m].1 == Some(d) {
            let om = refs[m].0;
            assert(refs[m].1 == extension_of(xdic0, om));
            assert(xdic0.contains_key(om.value));
            assert(before.xdic_by_handle@.contains_key(om.value));
            assert(before.xdic_by_handle@[om.value] == d.value);
            if before.header.handle_seed <= d.value && !before.objects@.contains_key(d.value) {
                assert(d.value < before.header.handle_seed);
            } else {
                assert(om.value != owner.value);
                assert(shared_dictionary(before, owner, previous));
            }
        }
    }
    assert forall|k: int| 0 <= k < j implies {
        &&& fin.xdic_by_handle@.contains_key((#[trigger] refs[k]).0.value)
        &&& fin.xdic_by_handle@[refs[k].0.value] == ds[k].value
        &&& dictionary_at(fin.objects@, ds[k]) is Some
        &&& lookup(dictionary_at(fin.objects@, ds[k])->0.model(), history_key()) == rs[k]
        &&& (refs[k].2 is Some ==> {
            &&& rs[k] is Some && rs[k]->0 != ds[k]
            &&& xrecord_at(fin.objects@, rs[k]->0) matches Some(x) && x.owner == ds[k]
                && recorded_history(x) == refs[k].2
        })
    } by {
        let dk = ds[k];
        assert(refs[k].0 != owner);
        // The earlier dictionary is neither the new dictionary nor the new record.
        assert(dk != d) by {
            assert(refs[j].1 != Some(dk));
        }
        assert(before.objects@.contains_key(dk.value));
        if r == Some(dk) {
            assert(false);
        }
        assert(fin.objects@.contains_key(dk.value));
        if refs[k].2 is Some {
            let rk = rs[k]->0;
            assert(before.objects@.contains_key(rk.value));
            assert(rk != d);
            if r == Some(rk) {
                assert(false);
            }
            assert(fin.objects@.contains_key(rk.value));
        }
    }
}

/// Store one surface's history link in its extension dictionary, made
/// writable for it (see `writable_dictionary`): with a history root, the
/// dictionary's record under the key names it, the record being reused when
/// the dictionary already owns one; without, the key and its record go.
/// Gives the dictionary's handle and the record's.
fn store_one(
    document: &mut CadDocument,
    owner: Handle,
    previous: Option<Handle>,
    history: Option<Handle>,
    Ghost(known): Ghost<Set<u64>>,
    Ghost(seed0): Ghost<u64>,
) -> (r: (Handle, Option<Handle>))
    requires
        old(document).handles_wf(),
        known_closed(known, *old(document), seed0),
        seed0 <= old(document).header.handle_seed,
        old(document).header.handle_seed + known.len() + 3 <= u64::MAX,
        !known.contains(owner.value),
        owner.value < seed0,
        previous matches Some(p) ==> p.value < seed0,
        history matches Some(h) ==> h.value < seed0,
    ensures
        final(document).handles_wf(),
        known_closed(
            if known.contains(r.0.value) && r.1 is Some { known.insert(r.1->0.value) } else { known },
            *final(document),
            seed0,
        ),
        old(document).header.handle_seed <= final(document).header.handle_seed,
        final(document).header.handle_seed <= old(document).header.handle_seed + known.len() + 2,
        final(document).header.named_objects_dict_handle == old(document).header.named_objects_dict_handle,
        final(document).header.acad_plotstylename_dict_handle == old(document).header.acad_plotstylename_dict_handle,
        final(document).header.acad_material_dict_handle == old(document).header.acad_material_dict_handle,
        metadata_frame_but_entities(*old(document), *final(document)),
        final(document).entities@ == with_xdictionary(old(document).entities@, owner, Some(r.0)),
        stored_one(*old(document), *final(document), owner, previous, history, r.0, r.1),
{
    let ghost doc0 = *document;
    proof {
        lemma_known_closed(known, *document, seed0);
        match previous {
            Some(p) => {
                lemma_among_within(known, document.objects@, seed0, p);
            },
            None => {},
        }
    }
    let mut dictionary = writable_dictionary(document, owner, previous, Ghost(known));
    let ghost doc1 = *document;
    let ghost d1 = dictionary;
    let dh = dictionary.handle;
    proof {
        lemma_known_closed_grow(known, doc0, doc1, seed0);
        // The dictionary is known exactly when it is the owner's own, below `seed0`.
        if known.contains(dh.value) {
            assert(dh.value < doc0.header.handle_seed);
        }
    }
    set_entity_xdictionary(document, owner, Some(dh));
    document.xdic_by_handle.insert(owner.value, dh.value);
    let ghost doc2 = *document;
    proof {
        assert(known_closed(known, doc2, seed0)) by {
            assert forall|k: u64| #[trigger] known.contains(k) && doc2.objects@.contains_key(k) implies
                copyable_kind(doc2.objects@[k]) ==> opt_among(known, seed0, extension_of(doc2.xdic_by_handle@, Handle { value: k })) by {
                assert(k != owner.value);
                assert(extension_of(doc2.xdic_by_handle@, Handle { value: k }) == extension_of(doc1.xdic_by_handle@, Handle { value: k }));
            }
        }
    }
    match history {
        Some(h) => {
            let existing = dictionary.get("CADCODEC_SURFACE_HISTORY_V1");
            let reuse = match existing {
                Some(x) => match document.objects.get(&x.value) {
                    Some(ObjectType::XRecord(rec)) => if rec.owner.value == dh.value {
                        Some(x)
                    } else {
                        None
                    },
                    _ => None,
                },
                None => None,
            };
            let record_handle = match reuse {
                Some(x) => x,
                None => document.allocate_handle(),
            };
            let ghost doc3 = *document;
            proof {
                reveal_strlit("CADCODEC_SURFACE_HISTORY_V1");
                lemma_objects_wf_grow(doc2.objects@, doc2.header.handle_seed, doc3.header.handle_seed);
                lemma_without_key(d1.model(), history_key());
                law_lookup_after_add_entry(without_key(d1.model(), history_key()), history_key(), record_handle, history_key());
            }
            let record = history_record(record_handle, dh, h);
            dictionary.remove_entries("CADCODEC_SURFACE_HISTORY_V1");
            dictionary.add_entry("CADCODEC_SURFACE_HISTORY_V1", record_handle);
            dictionary.set_entry_hard_owner("CADCODEC_SURFACE_HISTORY_V1", true);
            let ghost d2 = dictionary;
            proof {
                assert(d2.model() == keyed_to(d1.model(), record_handle));
                // References of the stored dictionary stay below the seed.
                let es = d2.model();
                let w = without_key(d1.model(), history_key());
                assert forall|i: int| 0 <= i < es.len() implies (#[trigger] es[i]).1.value < doc3.header.handle_seed by {
                    let k = key_index_from(w, history_key(), 0);
                    lemma_key_index_from(w, history_key(), 0);
                    if es[i].1 != record_handle {
                        if k < w.len() {
                            assert(es == w.update(k, (history_key(), record_handle)));
                            assert(es[i] == w[i]);
                        } else {
                            assert(es == w.push((history_key(), record_handle)));
                            assert(es[i] == w[i]);
                        }
                        assert(d1.model().contains(w[i]));
                        let j = choose|j: int| 0 <= j < d1.model().len() && d1.model()[j] == w[i];
                        assert(d1.model()[j].1.value < doc1.header.handle_seed);
                    }
                }
            }
            let ghost o3 = document.objects@;
            proof {
                // The record and the dictionary sit under different handles.
                if o3.contains_key(dh.value) {
                    assert(doc1.objects@.contains_key(dh.value));
                    assert(dictionary_at(doc0.objects@, dh) is Some);
                }
                assert(record_handle != dh);
                lemma_objects_wf_insert(o3, doc3.header.handle_seed, record_handle.value, ObjectType::XRecord(record));
                lemma_objects_wf_insert(o3.insert(record_handle.value, ObjectType::XRecord(record)), doc3.header.handle_seed,
                    dh.value, ObjectType::Dictionary(d2));
            }
            document.objects.insert(record_handle.value, ObjectType::XRecord(record));
            document.objects.insert(dh.value, ObjectType::Dictionary(dictionary));
            proof {
                let known2 = if known.contains(dh.value) { known.insert(record_handle.value) } else { known };
                let fin = *document;
                assert(fin.objects@ == o3.insert(record_handle.value, ObjectType::XRecord(record)).insert(dh.value, ObjectType::Dictionary(d2)));
                assert forall|k: u64| #[trigger] known2.contains(k) implies k < fin.header.handle_seed by {
                    if k != record_handle.value {
                        assert(known.contains(k));
                    }
                }
                assert forall|k: u64| #[trigger] fin.objects@.contains_key(k) && k < seed0 implies known2.contains(k) by {
                    if k == dh.value {
                        assert(doc1.objects@.contains_key(k));
                    } else if k == record_handle.value {
                        assert(doc2.objects@.contains_key(k));
                    } else {
                        assert(doc2.objects@.contains_key(k));
                    }
                }
                assert forall|k: u64| #[trigger] known2.contains(k) && fin.objects@.contains_key(k) implies {
                    &&& refs_among(fin.objects@[k], known2, seed0)
                    &&& copyable_kind(fin.objects@[k]) ==> opt_among(known2, seed0, extension_of(fin.xdic_by_handle@, Handle { value: k }))
                } by {
                    assert(k != owner.value);
                    if k == dh.value {
                        assert(known.contains(k));
                        assert(doc1.objects@.contains_key(k));
                        let d0 = dictionary_at(doc0.objects@, dh)->0;
                        assert(refs_among(doc2.objects@[k], known, seed0));
                        assert(d1.model() == d0.model());
                        let es = d2.model();
                        let w = without_key(d1.model(), history_key());
                        assert forall|i: int| 0 <= i < es.len() implies among(known2, seed0, #[trigger] es[i].1) by {
                            let kk = key_index_from(w, history_key(), 0);
                            lemma_key_index_from(w, history_key(), 0);
                            if es[i].1 != record_handle {
                                if kk < w.len() {
                                    assert(es == w.update(kk, (history_key(), record_handle)));
                                    assert(es[i] == w[i]);
                                } else {
                                    assert(es == w.push((history_key(), record_handle)));
                                    assert(es[i] == w[i]);
                                }
                                let j = choose|j: int| 0 <= j < d1.model().len() && d1.model()[j] == w[i];
                                assert(among(known, seed0, d0.model()[j].1));
                            }
                        }
                        assert(extension_of(fin.xdic_by_handle@, dh) == extension_of(doc1.xdic_by_handle@, dh));
                    } else if k == record_handle.value {
                        if !known.contains(k) {
                            if reuse is Some {
                                let d0 = dictionary_at(doc0.objects@, dh)->0;
                                assert(doc1.objects@.contains_key(dh.value));
                                assert(refs_among(doc1.objects@[dh.value], known, seed0));
                                lemma_key_index_from(d1.model(), history_key(), 0);
                                let j = key_index_from(d1.model(), history_key(), 0);
                                assert(d1.model()[j].1 == record_handle);
                                assert(among(known, seed0, d0.model()[j].1));
                                assert(doc2.objects@.contains_key(k));
                                assert(false);
                            }
                            assert(k == doc2.header.handle_seed);
                            assert(!doc2.xdic_by_handle@.contains_key(k));
                        } else {
                            assert(extension_of(fin.xdic_by_handle@, record_handle) == extension_of(doc2.xdic_by_handle@, record_handle));
                        }
                    } else {
                        assert(known.contains(k));
                        assert(fin.objects@[k] == doc2.objects@[k]);
                        lemma_refs_among_grow(doc2.objects@[k], known, known2, seed0);
                        match extension_of(fin.xdic_by_handle@, Handle { value: k }) {
                            Some(x) => {},
                            None => {},
                        }
                    }
                }
                assert(known_closed(known2, fin, seed0));
                assert forall|k: u64| #[trigger] doc0.objects@.contains_key(k) && k != dh.value
                    && Some(record_handle) != Some(Handle { value: k }) implies fin.objects@.contains_key(k)
                    && fin.objects@[k] == doc0.objects@[k] by {
                    assert(k != record_handle.value);
                }
                if doc0.objects@.contains_key(record_handle.value) {
                    assert(doc2.objects@[record_handle.value] == doc0.objects@[record_handle.value]);
                }
            }
            (dh, Some(record_handle))
        },
        None => {
            proof {
                reveal_strlit("CADCODEC_SURFACE_HISTORY_V1");
                lemma_without_key(d1.model(), history_key());
            }
            remove_record(document, &mut dictionary, "CADCODEC_SURFACE_HISTORY_V1");
            let ghost d2 = dictionary;
            let ghost o3 = document.objects@;
            proof {
                let w = d2.model();
                assert(w == without_key(d1.model(), history_key()));
                match lookup(d1.model(), history_key()) {
                    Some(x) => {
                        if o3 != doc2.objects@ {
                            lemma_objects_wf_remove(doc2.objects@, doc2.header.handle_seed, x.value);
                        }
                    },
                    None => {},
                }
                assert forall|i: int| 0 <= i < w.len() implies (#[trigger] w[i]).1.value < doc2.header.handle_seed by {
                    let j = choose|j: int| 0 <= j < d1.model().len() && d1.model()[j] == w[i];
                    assert(d1.model()[j].1.value < doc1.header.handle_seed);
                }
                lemma_objects_wf_insert(o3, doc2.header.handle_seed, dh.value, ObjectType::Dictionary(d2));
            }
            document.objects.insert(dh.value, ObjectType::Dictionary(dictionary));
            proof {
                let fin = *document;
                assert(fin.objects@ == o3.insert(dh.value, ObjectType::Dictionary(d2)));
                assert forall|k: u64| #[trigger] fin.objects@.contains_key(k) && k < seed0 implies known.contains(k) by {
                    assert(doc2.objects@.contains_key(k));
                }
                assert forall|k: u64| #[trigger] known.contains(k) && fin.objects@.contains_key(k) implies {
                    &&& refs_among(fin.objects@[k], known, seed0)
                    &&& copyable_kind(fin.objects@[k]) ==> opt_among(known, seed0, extension_of(fin.xdic_by_handle@, Handle { value: k }))
                } by {
                    assert(k != owner.value);
                    assert(doc2.objects@.contains_key(k));
                    if k == dh.value {
                        let d0 = dictionary_at(doc0.objects@, dh)->0;
                        assert(doc1.objects@.contains_key(k));
                        assert(refs_among(doc2.objects@[k], known, seed0));
                        let w = d2.model();
                        assert forall|i: int| 0 <= i < w.len() implies among(known, seed0, #[trigger] w[i].1) by {
                            let j = choose|j: int| 0 <= j < d1.model().len() && d1.model()[j] == w[i];
                            assert(among(known, seed0, d0.model()[j].1));
                        }
                    } else {
                        assert(fin.objects@[k] == doc2.objects@[k]);
                    }
                }
                assert(known_closed(known, fin, seed0));
            }
            (dh, None)
        },
    }
}

/// The reference a surface leaves to store: its handle, its extension
/// dictionary, and its history root when it owns one; only for a surface with
/// an owned history root or a fallback record.
pub open spec fn stored_reference(
    objects: Map<u64, ObjectType>,
    xdic: Map<u64, u64>,
    e: EntityType,
) -> Option<(Handle, Option<Handle>, Option<Handle>)> {
    match e {
        EntityType::Surface(s) => {
            let owner = s.common.handle;
            let previous = extension_of(xdic, owner);
            let history = match s.history_handle {
                Some(h) => owned_history_spec(objects, owner, h),
                None => None,
            };
            if history is Some || has_record_spec(objects, previous, history_key()) {
                Some((owner, previous, history))
            } else {
                None
            }
        },
        _ => None,
    }
}

/// The fallback record of `owner` names the history root `h`, which `owner` owns.
pub open spec fn history_stored(objects: Map<u64, ObjectType>, xdic: Map<u64, u64>, owner: Handle, h: Handle) -> bool {
    &&& owner_record(objects, xdic, owner, history_key()) matches Some(rec) && recorded_history(rec) == Some(h)
    &&& owned_history_spec(objects, owner, h) == Some(h)
}

/// What storing leaves for an entity of the document before (`objects0`,
/// `xdic0`): a surface with an owned history root has it recorded; a surface
/// with only a fallback record has that record dropped.
pub open spec fn surface_stored(
    objects: Map<u64, ObjectType>,
    xdic: Map<u64, u64>,
    objects0: Map<u64, ObjectType>,
    xdic0: Map<u64, u64>,
    e: EntityType,
) -> bool {
    match stored_reference(objects0, xdic0, e) {
        Some((owner, _, Some(h))) => history_stored(objects, xdic, owner, h),
        Some((owner, _, None)) => !has_record_spec(objects, extension_of(xdic, owner), history_key()),
        None => true,
    }
}

/// Each surface's handle is below the seed and names no object, and no two
/// surfaces share a handle.
pub open spec fn surfaces_apart(doc: CadDocument) -> bool {
    forall|i: int| 0 <= i < doc.entities@.len() && (#[trigger] doc.entities@[i]) is Surface ==> {
        &&& doc.entities@[i].common_spec().handle.value < doc.header.handle_seed
        &&& !doc.objects@.contains_key(doc.entities@[i].common_spec().handle.value)
    }
}

/// No two surfaces share a handle.
pub open spec fn surface_handles_distinct(es: Seq<EntityType>) -> bool {
    forall|i: int, j: int| 0 <= i < j < es.len() && (#[trigger] es[i]) is Surface && (#[trigger] es[j]) is Surface
        ==> es[i].common_spec().handle != es[j].common_spec().handle
}

/// `b` is `a` with at most its extension dictionary changed.
pub open spec fn same_but_xdictionary(a: EntityType, b: EntityType) -> bool {
    b == a.with_common(EntityCommon { xdictionary_handle: b.common_spec().xdictionary_handle, ..a.common_spec() })
}

/// Giving new common data twice is giving the second.
pub proof fn lemma_with_common_twice(e: EntityType, c1: EntityCommon, c2: EntityCommon)
    ensures
        e.with_common(c1).with_common(c2) == e.with_common(c2),
        e.with_common(c1).common_spec() == c1,
{
}

/// After giving the first entity with a handle an extension dictionary, each
/// entity differs from the one before at most in its extension dictionary.
pub proof fn lemma_with_xdictionary(es0: Seq<EntityType>, es: Seq<EntityType>, owner: Handle, x: Option<Handle>)
    requires
        es.len() == es0.len(),
        forall|i: int| 0 <= i < es.len() ==> same_but_xdictionary(#[trigger] es0[i], es[i]),
    ensures
        with_xdictionary(es, owner, x).len() == es0.len(),
        forall|i: int| 0 <= i < es.len() ==> same_but_xdictionary(#[trigger] es0[i], with_xdictionary(es, owner, x)[i]),
{
    let k = entity_index_from(es, owner, 0);
    lemma_entity_index_from(es, owner, 0);
    let es2 = with_xdictionary(es, owner, x);
    assert forall|i: int| 0 <= i < es.len() implies same_but_xdictionary(#[trigger] es0[i], es2[i]) by {
        if i == k {
            let c1 = EntityCommon { xdictionary_handle: es[k].common_spec().xdictionary_handle, ..es0[k].common_spec() };
            let c2 = EntityCommon { xdictionary_handle: x, ..es[k].common_spec() };
            lemma_with_common_twice(es0[k], c1, c2);
            lemma_with_common_twice(es0[k], c2, c2);
        }
    }
}

/// The extension dictionaries that the surfaces of `a` with a link to store
/// have (see `stored_reference`).
pub open spec fn history_dictionaries(a: CadDocument) -> Set<u64> {
    Set::new(|k: u64| exists|i: int| 0 <= i < a.entities@.len()
        && ((#[trigger] stored_reference(a.objects@, a.xdic_by_handle@, a.entities@[i])) matches Some(t)
        && t.1 == Some(Handle { value: k })))
}

/// What storing the surfaces' history links does (see `store`): the document
/// stays well formed and, but for links, the entities' extension dictionaries
/// and the objects that storing for those surfaces may change (see
/// `objects_kept_but`), as it was; new objects lie from the seed on; and, when
/// surfaces have distinct handles, each surface is stored (see `surface_stored`).
pub open spec fn histories_stored_all(a: CadDocument, b: CadDocument) -> bool {
    &&& b.handles_wf()
    &&& objects_kept_but(a.objects@, b.objects@, history_dictionaries(a), a.header.handle_seed)
    &&& forall|k: u64| #[trigger] b.objects@.contains_key(k) && !a.objects@.contains_key(k)
        ==> a.header.handle_seed <= k
    &&& metadata_frame_but_entities(a, b)
    &&& a.header.handle_seed <= b.header.handle_seed
    &&& b.header.named_objects_dict_handle == a.header.named_objects_dict_handle
    &&& b.header.acad_plotstylename_dict_handle == a.header.acad_plotstylename_dict_handle
    &&& b.header.acad_material_dict_handle == a.header.acad_material_dict_handle
    &&& b.entities@.len() == a.entities@.len()
    &&& forall|i: int| 0 <= i < a.entities@.len()
        ==> same_but_xdictionary(#[trigger] a.entities@[i], b.entities@[i])
    &&& surface_handles_distinct(a.entities@) ==> forall|i: int| 0 <= i < a.entities@.len()
        ==> surface_stored(b.objects@, b.xdic_by_handle@,
            a.objects@, a.xdic_by_handle@, #[trigger] a.entities@[i])
}

/// Record each surface's history link as a record of its extension
/// dictionary, for formats whose surface records have no slot for it: a
/// surface with an owned history root gets a record that names the root; a
/// surface with only a stale fallback record has it dropped. The surface's
/// extension dictionary is first made its own (see `writable_dictionary`).
/// The references to store are taken from the document before any change.
pub fn store(document: &mut CadDocument)
    requires
        old(document).handles_wf(),
        surfaces_apart(*old(document)),
        old(document).header.handle_seed + (old(document).entities@.len() + 1)
            * (old(document).objects@.dom().len() + old(document).entities@.len() + 3) <= u64::MAX,
    ensures
        histories_stored_all(*old(document), *final(document)),
        (forall|i: int| 0 <= i < old(document).entities@.len() ==> (#[trigger] stored_reference(old(document).objects@,
            old(document).xdic_by_handle@, old(document).entities@[i])) is None) ==> *final(document) == *old(document),
{
    let ghost doc0 = *document;
    let ghost objects0 = document.objects@;
    let ghost xdic0 = document.xdic_by_handle@;
    let ghost es0 = document.entities@;
    let ghost seed0 = document.header.handle_seed;
    let ghost dist = surface_handles_distinct(es0);
    let mut refs: Vec<(Handle, Option<Handle>, Option<Handle>)> = Vec::new();
    let ghost mut pos: Seq<int> = Seq::empty();
    let mut i: usize = 0;
    while i < document.entities.len()
        invariant
            *document == doc0,
            objects0 == doc0.objects@,
            xdic0 == doc0.xdic_by_handle@,
            i <= es0.len(),
            es0 == document.entities@,
            pos.len() == refs@.len(),
            dist == surface_handles_distinct(es0),
            forall|j: int| 0 <= j < refs@.len() ==> 0 <= #[trigger] pos[j] < i
                && stored_reference(objects0, xdic0, es0[pos[j]]) == Some(refs@[j]),
            forall|j1: int, j2: int| 0 <= j1 < j2 < refs@.len() ==> #[trigger] pos[j1] < #[trigger] pos[j2],
            forall|k: int| 0 <= k < i && (#[trigger] stored_reference(objects0, xdic0, es0[k])) is Some
                ==> exists|j: int| 0 <= j < refs@.len() && pos[j] == k,
        decreases es0.len() - i,
    {
        let ghost pos0 = pos;
        let ghost refs0 = refs@;
        match &document.entities[i] {
            EntityType::Surface(surface) => {
                let owner = surface.common.handle;
                let previous = extension_dictionary(document, owner);
                let history = match surface.history_handle {
                    Some(h) => owned_history(document, owner, h),
                    None => None,
                };
                let wanted = history.is_some() || has_record(document, previous, "CADCODEC_SURFACE_HISTORY_V1");
                proof {
                    reveal_strlit("CADCODEC_SURFACE_HISTORY_V1");
                    assert(es0[i as int] == EntityType::Surface(*surface));
                    assert(previous == extension_of(xdic0, owner));
                    assert(history == match surface.history_handle {
                        Some(h) => owned_history_spec(objects0, owner, h),
                        None => None,
                    });
                    assert(wanted == (history is Some || has_record_spec(objects0, previous, history_key())));
                    if wanted {
                        assert(stored_reference(objects0, xdic0, es0[i as int]) == Some((owner, previous, history)));
                    } else {
                        assert(stored_reference(objects0, xdic0, es0[i as int]) is None);
                    }
                }
                if wanted {
                    refs.push((owner, previous, history));
                    proof {
                        pos = pos.push(i as int);
                        assert(pos[refs@.len() - 1] == i);
                    }
                }
            },
            _ => {
                assert(stored_reference(objects0, xdic0, es0[i as int]) is None);
            },
        }
        proof {
            assert forall|k: int| 0 <= k < i + 1 && (#[trigger] stored_reference(objects0, xdic0, es0[k])) is Some
                implies exists|jj: int| 0 <= jj < refs@.len() && pos[jj] == k by {
                if k < i {
                    let jj = choose|jj: int| 0 <= jj < refs0.len() && pos0[jj] == k;
                    assert(pos[jj] == pos0[jj]);
                } else {
                    assert(pos[refs@.len() - 1] == k);
                }
            }
            assert forall|jj: int| 0 <= jj < refs@.len() implies 0 <= #[trigger] pos[jj] < i + 1
                && stored_reference(objects0, xdic0, es0[pos[jj]]) == Some(refs@[jj]) by {
                if jj < refs0.len() {
                    assert(pos[jj] == pos0[jj]);
                    assert(refs@[jj] == refs0[jj]);
                }
            }
        }
        i += 1;
    }
    let ghost n = es0.len();
    let ghost cost: int = (objects0.dom().len() + n + 3) as int;
    let ghost mut known: Set<u64> = objects0.dom();
    let ghost mut ds: Seq<Handle> = Seq::empty();
    let ghost mut rs: Seq<Option<Handle>> = Seq::empty();
    proof {
        assert(refs@.len() <= n) by {
            if refs@.len() > n {
                assert(0 <= pos[refs@.len() - 1] < n);
                assert forall|j: int| 0 <= j < refs@.len() implies #[trigger] pos[j] >= j by {
                    lemma_increasing_at_least(pos, refs@.len() as int, j);
                }
                assert(pos[refs@.len() - 1] >= refs@.len() - 1);
            }
        }
        assert forall|k: int| 0 <= k < refs@.len() implies (#[trigger] refs@[k]).0.value < seed0 by {
            assert(es0[pos[k]] is Surface);
        }
        assert(known_closed(known, *document, seed0)) by {
            assert forall|k: u64| #[trigger] known.contains(k) && document.objects@.contains_key(k) implies {
                &&& refs_among(document.objects@[k], known, seed0)
                &&& copyable_kind(document.objects@[k]) ==> opt_among(known, seed0, extension_of(document.xdic_by_handle@, Handle { value: k }))
            } by {
                lemma_refs_below_among(document.objects@[k], known, seed0);
            }
        }
    }
    proof {
        if forall|i: int| 0 <= i < es0.len() ==> (#[trigger] stored_reference(objects0, xdic0, es0[i])) is None {
            if refs@.len() > 0 {
                assert(stored_reference(objects0, xdic0, es0[pos[0]]) is Some);
            }
        }
    }
    let mut j: usize = 0;
    while j < refs.len()
        invariant
            j <= refs@.len(),
            j == 0 ==> *document == doc0,
            (forall|i: int| 0 <= i < es0.len() ==> (#[trigger] stored_reference(objects0, xdic0, es0[i])) is None)
                ==> refs@.len() == 0,
            refs@.len() <= n,
            n == es0.len(),
            dist == surface_handles_distinct(es0),
            doc0.entities@ == es0,
            surfaces_apart(doc0),
            doc0.handles_wf(),
            doc0.objects@ == objects0,
            doc0.xdic_by_handle@ == xdic0,
            doc0.header.handle_seed == seed0,
            cost == objects0.dom().len() + n + 3,
            document.handles_wf(),
            known_closed(known, *document, seed0),
            known.len() <= objects0.dom().len() + j,
            forall|k: u64| #[trigger] known.contains(k) ==> objects0.contains_key(k) || seed0 <= k,
            forall|k: u64| #[trigger] document.objects@.contains_key(k) && k < seed0 ==> objects0.contains_key(k),
            seed0 <= document.header.handle_seed,
            document.header.handle_seed + (n + 1 - j) * cost <= u64::MAX,
            metadata_frame_but_entities(doc0, *document),
            document.header.named_objects_dict_handle == doc0.header.named_objects_dict_handle,
            document.header.acad_plotstylename_dict_handle == doc0.header.acad_plotstylename_dict_handle,
            document.header.acad_material_dict_handle == doc0.header.acad_material_dict_handle,
            document.entities@.len() == n,
            forall|k: int| 0 <= k < n ==> same_but_xdictionary(#[trigger] es0[k], document.entities@[k]),
            // what each reference holds
            pos.len() == refs@.len(),
            forall|k: int| 0 <= k < refs@.len() ==> 0 <= #[trigger] pos[k] < n
                && stored_reference(objects0, xdic0, es0[pos[k]]) == Some(refs@[k]),
            forall|j1: int, j2: int| 0 <= j1 < j2 < refs@.len() ==> #[trigger] pos[j1] < #[trigger] pos[j2],
            forall|k: int| 0 <= k < n && (#[trigger] stored_reference(objects0, xdic0, es0[k])) is Some
                ==> exists|jj: int| 0 <= jj < refs@.len() && pos[jj] == k,
            // the history roots stay as they were
            forall|k: u64| #[trigger] objects0.contains_key(k) && objects0[k] is DynamicBlock
                ==> document.objects@.contains_key(k) && document.objects@[k] == objects0[k],
            objects_kept_but(objects0, document.objects@, history_dictionaries(doc0), seed0),
            // what storing has done so far
            ds.len() == j,
            rs.len() == j,
            dist ==> forall|k: int| j <= k < refs@.len() ==> {
                &&& (#[trigger] refs@[k]).0.value < seed0
                &&& document.xdic_by_handle@.contains_key(refs@[k].0.value) == xdic0.contains_key(refs@[k].0.value)
                &&& (xdic0.contains_key(refs@[k].0.value) ==> document.xdic_by_handle@[refs@[k].0.value] == xdic0[refs@[k].0.value])
            },
            dist ==> forall|k: int| 0 <= k < j ==> {
                &&& document.xdic_by_handle@.contains_key((#[trigger] refs@[k]).0.value)
                &&& document.xdic_by_handle@[refs@[k].0.value] == ds[k].value
                &&& dictionary_at(document.objects@, ds[k]) is Some
                &&& lookup(dictionary_at(document.objects@, ds[k])->0.model(), history_key()) == rs[k]
                &&& (refs@[k].2 is Some ==> {
                    &&& rs[k] is Some && rs[k]->0 != ds[k]
                    &&& xrecord_at(document.objects@, rs[k]->0) matches Some(x) && x.owner == ds[k]
                        && recorded_history(x) == refs@[k].2
                })
                &&& (refs@[k].2 is None ==> rs[k] is None)
                &&& forall|m: int| j <= m < refs@.len() ==> refs@[m].1 != Some(ds[k])
            },
        decreases refs@.len() - j,
    {
        let (owner, previous, history) = refs[j];
        let ghost before = *document;
        proof {
            let e = es0[pos[j as int]];
            assert(stored_reference(objects0, xdic0, e) == Some((owner, previous, history)));
            assert(e is Surface);
            assert(doc0.entities@[pos[j as int]] is Surface);
            assert(owner == e.common_spec().handle);
            assert(owner.value < seed0);
            assert(!objects0.contains_key(owner.value));
            assert(!known.contains(owner.value));
            assert(previous == extension_of(xdic0, owner));
            match previous {
                Some(p) => {
                    assert(xdic0.contains_key(owner.value));
                    assert(p.value == xdic0[owner.value]);
                    assert(p.value < seed0);
                },
                None => {},
            }
            match history {
                Some(h) => {
                    assert(objects0.contains_key(h.value));
                    assert(h.value < seed0);
                },
                None => {},
            }
            assert(known.len() <= cost - 3);
            assert(1 <= n + 1 - j);
            assert((n + 1 - j) * cost >= cost) by (nonlinear_arith)
                requires 1 <= n + 1 - j, 0 <= cost;
        }
        let (dh, rh) = store_one(document, owner, previous, history, Ghost(known), Ghost(seed0));
        proof {
            let fin = *document;
            let known2 = if known.contains(dh.value) && rh is Some { known.insert(rh->0.value) } else { known };
            assert(known2.len() <= known.len() + 1) by {
                if known.contains(dh.value) && rh is Some {
                    vstd::set_lib::lemma_len_subset(known, known2);
                }
            }
            assert((n + 1 - j) * cost == (n - j) * cost + cost) by (nonlinear_arith);
            assert forall|k: u64| #[trigger] known2.contains(k) implies objects0.contains_key(k) || seed0 <= k by {
                if !known.contains(k) {
                    assert(k == rh->0.value);
                    if before.objects@.contains_key(k) && k < seed0 {
                        assert(objects0.contains_key(k));
                    }
                }
            }
            assert forall|k: u64| #[trigger] fin.objects@.contains_key(k) && k < seed0 implies objects0.contains_key(k) by {
                if !before.objects@.contains_key(k) {
                    assert(before.header.handle_seed <= k);
                }
            }
            lemma_with_xdictionary(es0, before.entities@, owner, Some(dh));
            assert forall|k: u64| #[trigger] objects0.contains_key(k) && objects0[k] is DynamicBlock
                implies fin.objects@.contains_key(k) && fin.objects@[k] == objects0[k] by {
                assert(before.objects@[k] == objects0[k]);
                if k == dh.value {
                    assert(false);
                }
                if rh == Some(Handle { value: k }) {
                    assert(false);
                }
            }
            assert(objects_kept_but(objects0, fin.objects@, history_dictionaries(doc0), seed0)) by {
                match previous {
                    Some(p) => {
                        assert(stored_reference(objects0, xdic0, es0[pos[j as int]]) == Some(refs@[j as int]));
                        assert(history_dictionaries(doc0).contains(p.value));
                    },
                    None => {},
                }
                lemma_kept_but_step(doc0, before, fin, history_dictionaries(doc0), owner, previous, dh, rh);
            }
            if dist {
                lemma_store_step(objects0, xdic0, es0, refs@, pos, ds, rs, before, fin, j as int, dh, rh);
            }
            known = known2;
            ds = ds.push(dh);
            rs = rs.push(rh);
        }
        j += 1;
    }
    proof {
        if dist {
            assert forall|i: int| 0 <= i < n implies surface_stored(document.objects@, document.xdic_by_handle@,
                objects0, xdic0, #[trigger] es0[i]) by {
                match stored_reference(objects0, xdic0, es0[i]) {
                    Some(r) => {
                        let jj = choose|jj: int| 0 <= jj < refs@.len() && pos[jj] == i;
                        assert(refs@[jj] == r);
                        let d = dictionary_at(document.objects@, ds[jj])->0;
                        assert(extension_of(document.xdic_by_handle@, r.0) == Some(ds[jj]));
                        match r.2 {
                            Some(h) => {
                                assert(owned_history_spec(objects0, r.0, h) == Some(h));
                                assert(objects0[h.value] is DynamicBlock);
                            },
                            None => {},
                        }
                    },
                    None => {},
                }
            }
        }
    }
}

/// A surface whose history link was stored, and whose native link is then
/// lost (its format has no slot for it), regains the link on restore.
pub proof fn law_link_restored_after_store(objects: Map<u64, ObjectType>, xdic: Map<u64, u64>, s: Surface, h: Handle)
    requires
        history_stored(objects, xdic, s.common.handle, h),
        !link_present(s.history_handle),
    ensures
        restored_link(objects, xdic, EntityType::Surface(s)) == Some((s.common.handle, h)),
{
}

/// Restoring never overrides a native link: a surface that has one keeps it.
pub proof fn law_native_link_kept(objects: Map<u64, ObjectType>, xdic: Map<u64, u64>, s: Surface)
    requires
        link_present(s.history_handle),
    ensures
        restored_link(objects, xdic, EntityType::Surface(s)) is None,
{
}

} // verus!
