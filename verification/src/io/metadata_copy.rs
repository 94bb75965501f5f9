//! Copying the metadata that a dictionary owns, so that an entity gets a
//! dictionary of its own while others keep sharing the original.

use vstd::prelude::*;
use std::collections::HashMap;
use crate::document::{CadDocument, keyed, dictionary_at, same_besides_objects, objects_wf, refs_below, model_refs_below, opt_below, all_below, xdic_below,
    lemma_objects_wf_insert, lemma_objects_wf_grow, lemma_refs_below_grow};
use crate::io::extension_dictionary::{cloneable_metadata, cloneable_run, clone_children, owner_of, owned_by, at_depth, opt_seq,
    lemma_unseen_shrinks};
use crate::io::surface_history::{extension_of, xrecord_at};
use crate::entities::entity::EntityType;
use crate::objects::dictionary::{Dictionary, DictionaryVariable, Field, FieldList, ObjectType, entries_view};
use crate::objects::xrecord::{XRecord, XRecordEntry, XRecordValue, EntryModel, ValueModel, copy_vec, refers_to, model_as_handle};
use crate::types::ProxyObjectReference;
use crate::types::Handle;

verus! {

broadcast use vstd::std_specs::hash::group_hash_axioms;

/// A handle that copying may reach: a copyable one, or one under which
/// `original` stores nothing.
pub open spec fn within(copyable: Set<u64>, original: Map<u64, ObjectType>, h: Handle) -> bool {
    copyable.contains(h.value) || !original.contains_key(h.value)
}

/// An optional handle, when present, is within.
pub open spec fn opt_within(copyable: Set<u64>, original: Map<u64, ObjectType>, h: Option<Handle>) -> bool {
    h matches Some(x) ==> within(copyable, original, x)
}

/// Every handle an object refers to (as `refs_below` counts them) is within.
pub open spec fn refs_within(o: ObjectType, copyable: Set<u64>, original: Map<u64, ObjectType>) -> bool {
    match o {
        ObjectType::Dictionary(d) => (forall|i: int| 0 <= i < d.model().len()
            ==> within(copyable, original, #[trigger] d.model()[i].1)) && opt_within(copyable, original, d.xdictionary_handle),
        ObjectType::DictionaryWithDefault(d) => (forall|i: int| 0 <= i < d.model().len()
            ==> within(copyable, original, #[trigger] d.model()[i].1)) && opt_within(copyable, original, d.xdictionary_handle),
        ObjectType::XRecord(r) => (forall|h: Handle| #[trigger] refers_to(r, h) ==> within(copyable, original, h))
            && opt_within(copyable, original, r.xdictionary_handle),
        ObjectType::Field(f) => forall|i: int| 0 <= i < f.child_fields@.len()
            ==> within(copyable, original, #[trigger] f.child_fields@[i]),
        ObjectType::FieldList(l) => forall|i: int| 0 <= i < l.fields@.len()
            ==> within(copyable, original, #[trigger] l.fields@[i]),
        _ => true,
    }
}

/// An object of a kind that metadata copying copies.
pub open spec fn copyable_kind(o: ObjectType) -> bool {
    match o {
        ObjectType::Dictionary(_) => true,
        ObjectType::XRecord(_) => true,
        ObjectType::Field(_) => true,
        ObjectType::FieldList(_) => true,
        ObjectType::DictionaryVariable(_) => true,
        _ => false,
    }
}

/// A finite set of copyable handles whose objects refer, and whose extension
/// dictionaries (for objects of a kind that is copied) lead, only to handles within it.
pub open spec fn copy_closed(copyable: Set<u64>, objects: Map<u64, ObjectType>, xdic: Map<u64, u64>) -> bool {
    &&& copyable.finite()
    &&& forall|k: u64| #[trigger] copyable.contains(k) && objects.contains_key(k) ==> {
        &&& refs_within(objects[k], copyable, objects)
        &&& copyable_kind(objects[k]) ==> opt_within(copyable, objects, extension_of(xdic, Handle { value: k }))
    }
}

/// The handles allocated while copying number at most the copyable sources and the start.
pub proof fn lemma_copies_counted(doc: CadDocument, original: Map<u64, ObjectType>, copyable: Set<u64>, base: u64, extra: u64, remapped: Map<u64, u64>)
    requires
        copy_state(doc, original, copyable, base, extra, remapped),
    ensures
        doc.header.handle_seed <= base + copyable.len() + 1,
{
    broadcast use vstd::set_lib::group_set_properties;
    let bigger = copyable.insert(extra);
    assert(remapped.dom().subset_of(bigger));
    vstd::set_lib::lemma_len_subset(remapped.dom(), bigger);
}

/// A handle among `known` or below `seed0`.
pub open spec fn among(known: Set<u64>, seed0: u64, h: Handle) -> bool {
    known.contains(h.value) || h.value < seed0
}

/// An optional handle, when present, is among `known` or below `seed0`.
pub open spec fn opt_among(known: Set<u64>, seed0: u64, h: Option<Handle>) -> bool {
    h matches Some(x) ==> among(known, seed0, x)
}

/// Every handle an object refers to (as `refs_below` counts them) is among `known` or below `seed0`.
pub open spec fn refs_among(o: ObjectType, known: Set<u64>, seed0: u64) -> bool {
    match o {
        ObjectType::Dictionary(d) => (forall|i: int| 0 <= i < d.model().len()
            ==> among(known, seed0, #[trigger] d.model()[i].1)) && opt_among(known, seed0, d.xdictionary_handle),
        ObjectType::DictionaryWithDefault(d) => (forall|i: int| 0 <= i < d.model().len()
            ==> among(known, seed0, #[trigger] d.model()[i].1)) && opt_among(known, seed0, d.xdictionary_handle),
        ObjectType::XRecord(r) => (forall|h: Handle| #[trigger] refers_to(r, h) ==> among(known, seed0, h))
            && opt_among(known, seed0, r.xdictionary_handle),
        ObjectType::Field(f) => forall|i: int| 0 <= i < f.child_fields@.len()
            ==> among(known, seed0, #[trigger] f.child_fields@[i]),
        ObjectType::FieldList(l) => forall|i: int| 0 <= i < l.fields@.len()
            ==> among(known, seed0, #[trigger] l.fields@[i]),
        _ => true,
    }
}

/// A finite set of handles below the seed that holds every object stored
/// below `seed0`, whose objects refer, and whose extension dictionaries lead,
/// only to handles in the set or below `seed0`. Copying from within it stays
/// within it (see `lemma_known_closed`).
pub open spec fn known_closed(known: Set<u64>, doc: CadDocument, seed0: u64) -> bool {
    &&& known.finite()
    &&& forall|k: u64| #[trigger] known.contains(k) ==> k < doc.header.handle_seed
    &&& forall|k: u64| #[trigger] doc.objects@.contains_key(k) && k < seed0 ==> known.contains(k)
    &&& forall|k: u64| #[trigger] known.contains(k) && doc.objects@.contains_key(k) ==> {
        &&& refs_among(doc.objects@[k], known, seed0)
        &&& copyable_kind(doc.objects@[k]) ==> opt_among(known, seed0, extension_of(doc.xdic_by_handle@, Handle { value: k }))
    }
}

/// A handle among the known ones or below `seed0` is within them, when every
/// object stored below `seed0` is known.
pub proof fn lemma_among_within(known: Set<u64>, objects: Map<u64, ObjectType>, seed0: u64, h: Handle)
    requires
        among(known, seed0, h),
        forall|k: u64| #[trigger] objects.contains_key(k) && k < seed0 ==> known.contains(k),
    ensures
        within(known, objects, h),
{
    if !known.contains(h.value) && objects.contains_key(h.value) {
        assert(objects.contains_key(h.value) && h.value < seed0);
    }
}

/// Known handles closed as `known_closed` says are closed for copying.
pub proof fn lemma_known_closed(known: Set<u64>, doc: CadDocument, seed0: u64)
    requires
        known_closed(known, doc, seed0),
    ensures
        copy_closed(known, doc.objects@, doc.xdic_by_handle@),
{
    let objects = doc.objects@;
    assert forall|k: u64| #[trigger] known.contains(k) && objects.contains_key(k) implies {
        &&& refs_within(objects[k], known, objects)
        &&& copyable_kind(objects[k]) ==> opt_within(known, objects, extension_of(doc.xdic_by_handle@, Handle { value: k }))
    } by {
        if copyable_kind(objects[k]) {
            match extension_of(doc.xdic_by_handle@, Handle { value: k }) {
                Some(x) => {
                    lemma_among_within(known, objects, seed0, x);
                },
                None => {},
            }
        }
        match objects[k] {
            ObjectType::Dictionary(d) => {
                assert forall|i: int| 0 <= i < d.model().len() implies within(known, objects, #[trigger] d.model()[i].1) by {
                    lemma_among_within(known, objects, seed0, d.model()[i].1);
                }
                match d.xdictionary_handle {
                    Some(x) => {
                        lemma_among_within(known, objects, seed0, x);
                    },
                    None => {},
                }
            },
            ObjectType::DictionaryWithDefault(d) => {
                assert forall|i: int| 0 <= i < d.model().len() implies within(known, objects, #[trigger] d.model()[i].1) by {
                    lemma_among_within(known, objects, seed0, d.model()[i].1);
                }
                match d.xdictionary_handle {
                    Some(x) => {
                        lemma_among_within(known, objects, seed0, x);
                    },
                    None => {},
                }
            },
            ObjectType::XRecord(r) => {
                assert forall|h: Handle| #[trigger] refers_to(r, h) implies within(known, objects, h) by {
                    lemma_among_within(known, objects, seed0, h);
                }
                match r.xdictionary_handle {
                    Some(x) => {
                        lemma_among_within(known, objects, seed0, x);
                    },
                    None => {},
                }
            },
            ObjectType::Field(f) => {
                assert forall|i: int| 0 <= i < f.child_fields@.len() implies within(known, objects, #[trigger] f.child_fields@[i]) by {
                    lemma_among_within(known, objects, seed0, f.child_fields@[i]);
                }
            },
            ObjectType::FieldList(l) => {
                assert forall|i: int| 0 <= i < l.fields@.len() implies within(known, objects, #[trigger] l.fields@[i]) by {
                    lemma_among_within(known, objects, seed0, l.fields@[i]);
                }
            },
            _ => {},
        }
    }
}

/// Objects and links added from the seed on leave known handles closed.
pub proof fn lemma_known_closed_grow(known: Set<u64>, a: CadDocument, b: CadDocument, seed0: u64)
    requires
        known_closed(known, a, seed0),
        seed0 <= a.header.handle_seed <= b.header.handle_seed,
        only_added_from(a, b, a.header.handle_seed),
    ensures
        known_closed(known, b, seed0),
{
    assert forall|k: u64| #[trigger] b.objects@.contains_key(k) && k < seed0 implies known.contains(k) by {
        if !a.objects@.contains_key(k) {
            assert(a.header.handle_seed <= k);
        }
    }
    assert forall|k: u64| #[trigger] known.contains(k) && b.objects@.contains_key(k) implies {
        &&& refs_among(b.objects@[k], known, seed0)
        &&& copyable_kind(b.objects@[k]) ==> opt_among(known, seed0, extension_of(b.xdic_by_handle@, Handle { value: k }))
    } by {
        assert(k < a.header.handle_seed);
        if !a.objects@.contains_key(k) {
            assert(a.header.handle_seed <= k);
        }
        assert(b.objects@[k] == a.objects@[k]);
        if b.xdic_by_handle@.contains_key(k) && !a.xdic_by_handle@.contains_key(k) {
            assert(a.header.handle_seed <= k);
        }
        assert(extension_of(b.xdic_by_handle@, Handle { value: k }) == extension_of(a.xdic_by_handle@, Handle { value: k }));
    }
}

/// A copy in progress. Objects under handles below `base` are those of
/// `original`, whose references lie below `base`; copies lie under handles
/// from `base` on. Copying reaches only handles within `copyable`. Every
/// source copied so far is copyable (or the starting dictionary `extra`) and
/// maps to a distinct handle allocated for it, so the handles allocated since
/// `base` number the sources copied.
pub open spec fn copy_state(
    doc: CadDocument,
    original: Map<u64, ObjectType>,
    copyable: Set<u64>,
    base: u64,
    extra: u64,
    remapped: Map<u64, u64>,
) -> bool {
    &&& doc.handles_wf()
    &&& 1 <= base <= doc.header.handle_seed
    &&& original.dom().finite()
    &&& copy_closed(copyable, original, doc.xdic_by_handle@)
    &&& base + copyable.len() + 1 <= u64::MAX
    &&& forall|k: u64| #[trigger] original.contains_key(k) ==> {
        &&& k < base
        &&& doc.objects@.contains_key(k)
        &&& doc.objects@[k] == original[k]
        &&& refs_below(original[k], base)
    }
    &&& forall|k: u64| #[trigger] doc.objects@.contains_key(k) ==> original.contains_key(k) || base <= k
    &&& forall|k: u64| #[trigger] doc.objects@.contains_key(k) && !original.contains_key(k)
        ==> (owner_of(doc.objects@, Handle { value: k }) matches Some(o) ==> base <= o.value)
    &&& xdic_below(doc.xdic_by_handle@, base)
    &&& remapped.dom().finite()
    &&& forall|k: u64| #[trigger] remapped.contains_key(k) ==> {
        &&& original.contains_key(k)
        &&& copyable.contains(k) || k == extra
        &&& k < base
        &&& base <= remapped[k] < doc.header.handle_seed
    }
    &&& forall|k1: u64, k2: u64| #[trigger] remapped.contains_key(k1) && #[trigger] remapped.contains_key(k2) && k1 != k2
        ==> remapped[k1] != remapped[k2]
    &&& remapped.dom().len() == doc.header.handle_seed - base
    &&& remapped.contains_key(extra)
    &&& remapped[extra] == base
    &&& !doc.objects@.contains_key(base)
}

/// The objects `o1` hold those of `o2` unchanged, whose references lie below
/// `base`; any other object of `o1` lies from `base` on and, if it records an
/// owner, is owned from `base` on. So are copies laid beside the original.
pub open spec fn copies_above(o1: Map<u64, ObjectType>, o2: Map<u64, ObjectType>, base: u64) -> bool {
    &&& forall|k: u64| #[trigger] o2.contains_key(k)
        ==> k < base && o1.contains_key(k) && o1[k] == o2[k] && refs_below(o2[k], base)
    &&& forall|k: u64| #[trigger] o1.contains_key(k) && !o2.contains_key(k)
        ==> base <= k && (owner_of(o1, Handle { value: k }) matches Some(o) ==> base <= o.value)
}

/// Beside copies, the handles that a node below `base` owns are the same, and lie below `base`.
pub proof fn lemma_owned_by_frame(o1: Map<u64, ObjectType>, o2: Map<u64, ObjectType>, hs: Seq<Handle>, parent: Handle, base: u64)
    requires
        copies_above(o1, o2, base),
        parent.value < base,
    ensures
        owned_by(o1, hs, parent) == owned_by(o2, hs, parent),
        all_below(owned_by(o2, hs, parent), base),
    decreases hs.len(),
{
    if hs.len() > 0 {
        lemma_owned_by_frame(o1, o2, hs.drop_last(), parent, base);
        let h = hs.last();
        assert(h == Handle { value: h.value });
        if o2.contains_key(h.value) {
            assert(o1[h.value] == o2[h.value]);
            assert(owner_of(o1, h) == owner_of(o2, h));
        } else if o1.contains_key(h.value) {
            assert(owner_of(o1, h) != Some(parent));
            assert(owner_of(o2, h) is None);
        } else {
            assert(owner_of(o1, h) is None && owner_of(o2, h) is None);
        }
        let a = owned_by(o2, hs.drop_last(), parent);
        if owner_of(o2, h) == Some(parent) {
            assert(owned_by(o2, hs, parent) == a.push(h));
            assert forall|i: int| 0 <= i < a.push(h).len() implies (#[trigger] a.push(h)[i]).value < base by {
                if i < a.len() {
                    assert(a.push(h)[i] == a[i]);
                }
            }
        }
    }
}

/// Sequences whose handles lie below `base` concatenate to one that does.
pub proof fn lemma_all_below_add(a: Seq<Handle>, b: Seq<Handle>, base: u64)
    requires
        all_below(a, base),
        all_below(b, base),
    ensures
        all_below(a + b, base),
{
    assert forall|i: int| 0 <= i < (a + b).len() implies (#[trigger] (a + b)[i]).value < base by {
        if i < a.len() {
            assert((a + b)[i] == a[i]);
        } else {
            assert((a + b)[i] == b[i - a.len()]);
        }
    }
}

/// Beside copies, a node below `base` owns the same metadata, which lies below `base`.
pub proof fn lemma_clone_children_frame(o1: Map<u64, ObjectType>, o2: Map<u64, ObjectType>, x: Map<u64, u64>, h: Handle, base: u64)
    requires
        copies_above(o1, o2, base),
        xdic_below(x, base),
        h.value < base,
    ensures
        clone_children(o1, x, h) == clone_children(o2, x, h),
        clone_children(o2, x, h) matches Some(cs) ==> all_below(cs, base),
{
    let ext = opt_seq(extension_of(x, h));
    assert(all_below(ext, base)) by {
        if x.contains_key(h.value) {
            assert(ext[0].value == x[h.value]);
        }
    }
    if o2.contains_key(h.value) {
        assert(o1[h.value] == o2[h.value]);
        assert(refs_below(o2[h.value], base));
        match o2[h.value] {
            ObjectType::Dictionary(d) => {
                lemma_all_below_add(ext, opt_seq(d.xdictionary_handle), base);
            },
            ObjectType::XRecord(r) => {
                lemma_owned_by_frame(o1, o2, crate::objects::xrecord::references_of(r), h, base);
                let own = owned_by(o2, crate::objects::xrecord::references_of(r), h);
                lemma_all_below_add(ext, own, base);
                lemma_all_below_add(ext + own, opt_seq(r.xdictionary_handle), base);
            },
            ObjectType::Field(f) => {
                lemma_all_below_add(ext, f.child_fields@, base);
            },
            ObjectType::FieldList(l) => {
                lemma_owned_by_frame(o1, o2, l.fields@, h, base);
                lemma_all_below_add(ext, owned_by(o2, l.fields@, h), base);
            },
            _ => {},
        }
    } else {
        assert(!o1.contains_key(h.value));
    }
}

/// Copies laid beside the original do not change whether owned metadata
/// reachable from nodes below `base` can be copied.
pub proof fn lemma_cloneable_frame(
    o1: Map<u64, ObjectType>,
    o2: Map<u64, ObjectType>,
    x: Map<u64, u64>,
    pending: Seq<(Handle, int)>,
    seen: Set<u64>,
    base: u64,
)
    requires
        o1.dom().finite(),
        o2.dom().finite(),
        copies_above(o1, o2, base),
        xdic_below(x, base),
        forall|i: int| 0 <= i < pending.len() ==> (#[trigger] pending[i]).0.value < base,
    ensures
        cloneable_run(o1, x, pending, seen) == cloneable_run(o2, x, pending, seen),
    decreases o2.dom().difference(seen).len(), pending.len(),
{
    if pending.len() > 0 {
        let (h, d) = pending.last();
        assert(pending[pending.len() - 1].0.value < base);
        if seen.contains(h.value) {
            lemma_cloneable_frame(o1, o2, x, pending.drop_last(), seen, base);
        } else if d <= 128 {
            lemma_clone_children_frame(o1, o2, x, h, base);
            match clone_children(o2, x, h) {
                Some(cs) => {
                    lemma_unseen_shrinks(o2.dom(), seen, h.value);
                    let next = pending.drop_last() + at_depth(cs, d + 1);
                    assert forall|i: int| 0 <= i < next.len() implies (#[trigger] next[i]).0.value < base by {
                        if i < pending.len() - 1 {
                            assert(next[i] == pending[i]);
                        } else {
                            assert(next[i] == at_depth(cs, d + 1)[i - (pending.len() - 1)]);
                            assert(cs[i - (pending.len() - 1)].value < base);
                        }
                    }
                    lemma_cloneable_frame(o1, o2, x, next, seen.insert(h.value), base);
                },
                None => {},
            }
        }
    }
}

/// The parts of a document that copying metadata leaves as they are.
pub open spec fn copy_frame(a: CadDocument, b: CadDocument) -> bool {
    &&& forall|k: u64| #[trigger] a.objects@.contains_key(k) ==> b.objects@.contains_key(k) && b.objects@[k] == a.objects@[k]
    &&& a.version == b.version
    &&& a.maintenance_version == b.maintenance_version
    &&& a.header.named_objects_dict_handle == b.header.named_objects_dict_handle
    &&& a.header.acad_plotstylename_dict_handle == b.header.acad_plotstylename_dict_handle
    &&& a.header.acad_material_dict_handle == b.header.acad_material_dict_handle
    &&& a.header.handle_seed <= b.header.handle_seed
    &&& a.layers == b.layers
    &&& a.line_types == b.line_types
    &&& a.text_styles == b.text_styles
    &&& a.block_records == b.block_records
    &&& a.dim_styles == b.dim_styles
    &&& a.app_ids == b.app_ids
    &&& a.views == b.views
    &&& a.vports == b.vports
    &&& a.ucss == b.ucss
    &&& a.vx_table == b.vx_table
    &&& a.entities == b.entities
    &&& a.notifications == b.notifications
    &&& a.xdic_by_handle == b.xdic_by_handle
}

/// Sources copied before stay copied to the same handles.
pub open spec fn remapped_grows(a: Map<u64, u64>, b: Map<u64, u64>) -> bool {
    forall|k: u64| #[trigger] a.contains_key(k) ==> b.contains_key(k) && b[k] == a[k]
}

/// A further source can be copied: the seed has room for its handle.
pub proof fn lemma_room_for_copy(doc: CadDocument, original: Map<u64, ObjectType>, copyable: Set<u64>, base: u64, extra: u64, remapped: Map<u64, u64>, source: u64)
    requires
        copy_state(doc, original, copyable, base, extra, remapped),
        copyable.contains(source),
        !remapped.contains_key(source),
    ensures
        doc.header.handle_seed < u64::MAX,
{
    broadcast use vstd::set_lib::group_set_properties;
    let bigger = copyable.insert(extra);
    assert(remapped.dom().subset_of(bigger.remove(source)));
    vstd::set_lib::lemma_len_subset(remapped.dom(), bigger.remove(source));
    assert(bigger.remove(source).len() <= copyable.len()) by {
        if copyable.contains(extra) {
            assert(bigger =~= copyable);
        }
    }
}

/// Copying succeeds only from depth 128 or less.
pub proof fn lemma_cloneable_depth(objects: Map<u64, ObjectType>, xdic: Map<u64, u64>, source: Handle, depth: int)
    requires
        objects.dom().finite(),
        cloneable_run(objects, xdic, seq![(source, depth)], Set::empty()),
    ensures
        depth <= 128,
        clone_children(objects, xdic, source) is Some,
{
    let p = seq![(source, depth)];
    assert(p.last() == (source, depth));
    assert(!Set::<u64>::empty().contains(source.value));
}

/// An object copied from `o` that keeps the references the copy needs to explore.
pub open spec fn copy_of(c: ObjectType, o: ObjectType) -> bool {
    match (c, o) {
        (ObjectType::XRecord(a), ObjectType::XRecord(b)) => a.model() == b.model()
            && a.object_references@ == b.object_references@,
        (ObjectType::Dictionary(a), ObjectType::Dictionary(b)) => a.model() == b.model(),
        (ObjectType::Field(a), ObjectType::Field(b)) => a.child_fields@ == b.child_fields@,
        (ObjectType::FieldList(a), ObjectType::FieldList(b)) => a.fields@ == b.fields@,
        (ObjectType::DictionaryVariable(_), ObjectType::DictionaryVariable(_)) => true,
        _ => false,
    }
}

/// `c` is the copy of `o` made under the handle `h` for `owner`: of the same
/// kind, with the same keys, entries, references or fields as far as copying
/// leaves them (a dictionary's entries may name copies), and the new handle
/// and owner.
pub open spec fn copied_as(c: ObjectType, o: ObjectType, h: Handle, owner: Handle) -> bool {
    match (c, o) {
        (ObjectType::Dictionary(a), ObjectType::Dictionary(b)) => {
            &&& a.handle == h && a.owner == owner
            &&& a.model().len() == b.model().len()
            &&& forall|i: int| 0 <= i < a.model().len() ==> (#[trigger] a.model()[i]).0 == b.model()[i].0
        },
        (ObjectType::XRecord(a), ObjectType::XRecord(b)) => a.handle == h && a.owner == owner
            && a.model() == b.model() && a.object_references@ == b.object_references@,
        (ObjectType::Field(a), ObjectType::Field(b)) => a.handle == h && a.owner == owner
            && a.child_fields@ == b.child_fields@ && a.object_ids@ == b.object_ids@,
        (ObjectType::FieldList(a), ObjectType::FieldList(b)) => a.handle == h && a.owner == owner
            && a.fields@ == b.fields@,
        (ObjectType::DictionaryVariable(a), ObjectType::DictionaryVariable(b)) => a.handle == h
            && a.owner_handle == owner && a.schema_number == b.schema_number,
        _ => false,
    }
}

/// Copy of a list of handles.
fn copy_handles(v: &Vec<Handle>) -> (r: Vec<Handle>)
    ensures
        r@ == v@,
{
    copy_vec(v)
}

/// `c` is a copy of `o` under the handle `h`: of the same kind, with the
/// same keys, entries, references or fields as copying leaves them.
pub open spec fn copy_made(c: ObjectType, o: ObjectType, h: Handle) -> bool {
    match (c, o) {
        (ObjectType::Dictionary(a), ObjectType::Dictionary(b)) => {
            &&& a.handle == h
            &&& a.model().len() == b.model().len()
            &&& forall|i: int| 0 <= i < a.model().len() ==> (#[trigger] a.model()[i]).0 == b.model()[i].0
        },
        (ObjectType::XRecord(a), ObjectType::XRecord(b)) => a.handle == h && a.model() == b.model()
            && a.object_references@ == b.object_references@,
        (ObjectType::Field(a), ObjectType::Field(b)) => a.handle == h && a.child_fields@ == b.child_fields@
            && a.object_ids@ == b.object_ids@,
        (ObjectType::FieldList(a), ObjectType::FieldList(b)) => a.handle == h && a.fields@ == b.fields@,
        (ObjectType::DictionaryVariable(a), ObjectType::DictionaryVariable(b)) => a.handle == h
            && a.schema_number == b.schema_number,
        _ => false,
    }
}

/// The copy that `m` gives for the source `k` is stored, as a copy of the
/// original object under `k`.
pub open spec fn copy_stored(objects: Map<u64, ObjectType>, original: Map<u64, ObjectType>, m: Map<u64, u64>, k: u64) -> bool {
    &&& objects.contains_key(m[k])
    &&& copy_made(objects[m[k]], original[k], Handle { value: m[k] })
}

/// An entry that named `before` now names `after`: the same, or the copy that `m` gives for `before`.
pub open spec fn entry_remapped(m: Map<u64, u64>, before: Handle, after: Handle) -> bool {
    after == before || (m.contains_key(before.value) && after.value == m[before.value])
}

/// `h` is the copy that `m` gives for some source.
pub open spec fn copy_target(m: Map<u64, u64>, h: Handle) -> bool {
    exists|k: u64| #[trigger] m.contains_key(k) && m[k] == h.value
}

/// Whether copying the children of a dictionary copies the child `h`: the
/// dictionary owns all its entries or the child records the dictionary as its
/// owner, and the child's owned metadata can be copied from `depth` on.
pub open spec fn child_copied(
    objects: Map<u64, ObjectType>,
    xdic: Map<u64, u64>,
    hard_owner: bool,
    source: Handle,
    h: Handle,
    depth: int,
) -> bool {
    &&& (hard_owner || owner_of(objects, h) == Some(source))
    &&& cloneable_run(objects, xdic, seq![(h, depth)], Set::empty())
}

/// Copy the metadata a dictionary owns and point its entries at the copies
/// (see `clone_metadata`). The dictionary becomes the owner of each entry it
/// copied, one by one.
fn clone_dictionary_children(
    document: &mut CadDocument,
    dictionary: &mut Dictionary,
    source: Handle,
    remapped: &mut HashMap<u64, u64>,
    depth: usize,
    Ghost(original): Ghost<Map<u64, ObjectType>>,
    Ghost(copyable): Ghost<Set<u64>>,
    Ghost(base): Ghost<u64>,
    Ghost(extra): Ghost<u64>,
)
    requires
        depth <= 128,
        copy_state(*old(document), original, copyable, base, extra, old(remapped)@),
        base <= old(dictionary).handle.value,
        model_refs_below(old(dictionary).model(), base),
        opt_below(old(dictionary).xdictionary_handle, base),
        forall|i: int| 0 <= i < old(dictionary).model().len()
            ==> within(copyable, original, #[trigger] old(dictionary).model()[i].1),
        opt_within(copyable, original, old(dictionary).xdictionary_handle),
    ensures
        copy_state(*final(document), original, copyable, base, extra, final(remapped)@),
        copy_frame(*old(document), *final(document)),
        remapped_grows(old(remapped)@, final(remapped)@),
        final(dictionary).model().len() == old(dictionary).model().len(),
        forall|i: int| 0 <= i < old(dictionary).model().len()
            ==> (#[trigger] final(dictionary).model()[i]).0 == old(dictionary).model()[i].0,
        model_refs_below(final(dictionary).model(), final(document).header.handle_seed),
        forall|i: int| 0 <= i < old(dictionary).model().len() ==> (#[trigger] final(dictionary).model()[i]).1
            == old(dictionary).model()[i].1 || base <= final(dictionary).model()[i].1.value,
        opt_below(final(dictionary).xdictionary_handle, final(document).header.handle_seed),
        final(dictionary).xdictionary_handle is Some == old(dictionary).xdictionary_handle is Some,
        final(dictionary).xdictionary_handle == old(dictionary).xdictionary_handle
            || base <= final(dictionary).xdictionary_handle->0.value,
        final(dictionary).handle == old(dictionary).handle,
        final(dictionary).owner == old(dictionary).owner,
        !final(dictionary).hard_owner,
        forall|i: int| 0 <= i < old(dictionary).model().len()
            && child_copied(original, old(document).xdic_by_handle@, old(dictionary).hard_owner, source,
                old(dictionary).model()[i].1, depth + 1)
            ==> base <= (#[trigger] final(dictionary).model()[i]).1.value,
        old(dictionary).xdictionary_handle is Some && cloneable_run(original, old(document).xdic_by_handle@,
            seq![(old(dictionary).xdictionary_handle->0, depth + 1)], Set::empty())
            ==> base <= final(dictionary).xdictionary_handle->0.value,
        forall|k: u64| #[trigger] final(remapped)@.contains_key(k) && !old(remapped)@.contains_key(k)
            ==> copy_stored(final(document).objects@, original, final(remapped)@, k),
        forall|i: int| 0 <= i < old(dictionary).model().len() && base <= (#[trigger] final(dictionary).model()[i]).1.value
            ==> copy_target(final(remapped)@, final(dictionary).model()[i].1),
        final(dictionary).xdictionary_handle is Some && base <= final(dictionary).xdictionary_handle->0.value
            ==> copy_target(final(remapped)@, final(dictionary).xdictionary_handle->0),
        forall|i: int| 0 <= i < old(dictionary).model().len()
            ==> entry_remapped(final(remapped)@, old(dictionary).model()[i].1, #[trigger] final(dictionary).model()[i].1),
        forall|i: int| #![trigger old(dictionary).model()[i]] 0 <= i < old(dictionary).model().len()
            && child_copied(original, old(document).xdic_by_handle@, old(dictionary).hard_owner, source,
                old(dictionary).model()[i].1, depth + 1)
            ==> final(remapped)@.contains_key(old(dictionary).model()[i].1.value),
        old(dictionary).xdictionary_handle is Some ==> final(dictionary).xdictionary_handle
            == Some(remap(final(remapped)@, old(dictionary).xdictionary_handle->0)),
    decreases 129 - depth, 0int,
{
    let originally_hard = dictionary.hard_owner;
    dictionary.hard_owner = false;
    let snapshot = dictionary.copy();
    let ghost keys0 = old(dictionary).model();
    let mut i: usize = 0;
    while i < snapshot.entries.len()
        invariant
            depth <= 128,
            i <= snapshot.entries@.len(),
            snapshot.model() == keys0,
            model_refs_below(keys0, base),
            forall|j: int| 0 <= j < keys0.len() ==> within(copyable, original, #[trigger] keys0[j].1),
            opt_within(copyable, original, dictionary.xdictionary_handle),
            copy_state(*document, original, copyable, base, extra, remapped@),
            copy_frame(*old(document), *document),
            remapped_grows(old(remapped)@, remapped@),
            dictionary.model().len() == keys0.len(),
            forall|j: int| 0 <= j < keys0.len() ==> (#[trigger] dictionary.model()[j]).0 == keys0[j].0,
            model_refs_below(dictionary.model(), document.header.handle_seed),
            forall|j: int| 0 <= j < keys0.len() ==> (#[trigger] dictionary.model()[j]).1 == keys0[j].1
                || base <= dictionary.model()[j].1.value,
            opt_below(dictionary.xdictionary_handle, base),
            dictionary.xdictionary_handle == old(dictionary).xdictionary_handle,
            dictionary.handle == old(dictionary).handle,
            base <= dictionary.handle.value,
            dictionary.owner == old(dictionary).owner,
            !dictionary.hard_owner,
            originally_hard == old(dictionary).hard_owner,
            document.xdic_by_handle@ == old(document).xdic_by_handle@,
            forall|j: int| 0 <= j < i && child_copied(original, old(document).xdic_by_handle@, originally_hard, source,
                keys0[j].1, depth + 1) ==> base <= (#[trigger] dictionary.model()[j]).1.value,
            forall|k: u64| #[trigger] remapped@.contains_key(k) && !old(remapped)@.contains_key(k)
                ==> copy_stored(document.objects@, original, remapped@, k),
            forall|j: int| 0 <= j < keys0.len() && base <= (#[trigger] dictionary.model()[j]).1.value
                ==> copy_target(remapped@, dictionary.model()[j].1),
            forall|j: int| 0 <= j < keys0.len()
                ==> entry_remapped(remapped@, keys0[j].1, #[trigger] dictionary.model()[j].1),
            forall|j: int| 0 <= j < i && #[trigger] child_copied(original, old(document).xdic_by_handle@, originally_hard, source,
                keys0[j].1, depth + 1) ==> remapped@.contains_key(keys0[j].1.value),
        decreases snapshot.entries@.len() - i,
    {
        let key = snapshot.entries[i].0.as_str();
        let handle = snapshot.entries[i].1;
        assert(keys0[i as int] == (snapshot.entries@[i as int].0@, handle));
        let owned = originally_hard || dictionary.is_entry_hard_owner(key) || match document.object_owner(handle) {
            Some(o) => o.value == source.value,
            None => false,
        };
        proof {
            // Beside the copies, ownership and what can be copied read as in the original.
            assert(handle.value < base);
            assert(handle == Handle { value: handle.value });
            if original.contains_key(handle.value) {
                assert(document.objects@[handle.value] == original[handle.value]);
            } else {
                assert(!document.objects@.contains_key(handle.value));
            }
            assert(owner_of(document.objects@, handle) == owner_of(original, handle));
            assert(copies_above(document.objects@, original, base));
            lemma_cloneable_frame(document.objects@, original, document.xdic_by_handle@,
                seq![(handle, (depth + 1) as int)], Set::empty(), base);
        }
        let ghost copied_before = remapped@.contains_key(handle.value);
        let cloned = if owned {
            clone_metadata(document, handle, dictionary.handle, remapped, depth + 1,
                Ghost(original), Ghost(copyable), Ghost(base), Ghost(extra))
        } else {
            None
        };
        proof {
            if child_copied(original, old(document).xdic_by_handle@, originally_hard, source, handle, depth + 1) {
                assert(owned);
                assert(cloned is Some);
            }
        }
        match cloned {
            Some(c) => {
                let ghost m0 = dictionary.model();
                dictionary.set_target_at(i, c);
                assert forall|j: int| 0 <= j < dictionary.model().len()
                    implies (#[trigger] dictionary.model()[j]).1.value < document.header.handle_seed by {
                    assert(m0[j].1.value < document.header.handle_seed);
                }
                assert forall|j: int| 0 <= j < keys0.len() implies (#[trigger] dictionary.model()[j]).1 == keys0[j].1
                    || base <= dictionary.model()[j].1.value by {
                    assert(m0[j].1 == keys0[j].1 || base <= m0[j].1.value);
                }
            },
            None => {
                let ghost m0 = dictionary.model();
                assert forall|j: int| 0 <= j < dictionary.model().len()
                    implies (#[trigger] dictionary.model()[j]).1.value < document.header.handle_seed by {
                    assert(m0[j].1.value < document.header.handle_seed);
                }
            },
        }
        let ghost m1 = dictionary.model();
        dictionary.set_entry_hard_owner(key, cloned.is_some());
        assert(dictionary.model() == m1);
        i += 1;
    }
    match dictionary.xdictionary_handle {
        Some(h) => {
            proof {
                assert(copies_above(document.objects@, original, base));
                lemma_cloneable_frame(document.objects@, original, document.xdic_by_handle@,
                    seq![(h, (depth + 1) as int)], Set::empty(), base);
            }
            let copy = clone_metadata(document, h, dictionary.handle, remapped, depth + 1,
                Ghost(original), Ghost(copyable), Ghost(base), Ghost(extra));
            dictionary.xdictionary_handle = match copy {
                Some(c) => Some(c),
                None => Some(h),
            };
        },
        None => {},
    }
}

/// Copy the metadata under `source` for a new `owner`: a dictionary, field,
/// field list, dictionary variable or fully read XRecord, together with the
/// metadata it owns, each under a newly allocated handle. A source copied
/// before gives its copy; a source that cannot be copied (see
/// `cloneable_run`) gives none.
fn clone_metadata(
    document: &mut CadDocument,
    source: Handle,
    owner: Handle,
    remapped: &mut HashMap<u64, u64>,
    depth: usize,
    Ghost(original): Ghost<Map<u64, ObjectType>>,
    Ghost(copyable): Ghost<Set<u64>>,
    Ghost(base): Ghost<u64>,
    Ghost(extra): Ghost<u64>,
) -> (r: Option<Handle>)
    requires
        copy_state(*old(document), original, copyable, base, extra, old(remapped)@),
        source.value < base,
        base <= owner.value,
        within(copyable, original, source),
    ensures
        copy_state(*final(document), original, copyable, base, extra, final(remapped)@),
        copy_frame(*old(document), *final(document)),
        remapped_grows(old(remapped)@, final(remapped)@),
        r matches Some(h) ==> base <= h.value < final(document).header.handle_seed,
        old(remapped)@.contains_key(source.value) ==> r == Some(Handle { value: old(remapped)@[source.value] }),
        !old(remapped)@.contains_key(source.value) ==> (r is Some <==> cloneable_run(
            old(document).objects@, old(document).xdic_by_handle@, seq![(source, depth as int)], Set::empty())),
        r is Some ==> final(remapped)@.contains_key(source.value) && final(remapped)@[source.value] == r->0.value,
        r is None ==> !old(remapped)@.contains_key(source.value) && final(remapped)@ == old(remapped)@,
        forall|k: u64| #[trigger] final(remapped)@.contains_key(k) && !old(remapped)@.contains_key(k)
            ==> copy_stored(final(document).objects@, original, final(remapped)@, k),
        !old(remapped)@.contains_key(source.value) && r is Some ==> {
            &&& final(remapped)@.contains_key(source.value)
            &&& final(remapped)@[source.value] == r->0.value
            &&& final(document).objects@.contains_key(r->0.value)
            &&& copied_as(final(document).objects@[r->0.value], old(document).objects@[source.value], r->0, owner)
        },
    decreases 129 - depth, 1int,
{
    match remapped.get(&source.value) {
        Some(h) => {
            return Some(Handle::new(*h));
        },
        None => {},
    }
    if !cloneable_metadata(document, source, depth) {
        return None;
    }
    proof {
        lemma_cloneable_depth(document.objects@, document.xdic_by_handle@, source, depth as int);
    }
    let extension = document.extension_dictionary_handle(source);
    let ghost orig = document.objects@[source.value];
    proof {
        assert(original.contains_key(source.value));
        assert(refs_below(orig, base));
        assert(copyable.contains(source.value));
        assert(refs_within(orig, copyable, original));
        assert(copyable_kind(orig));
        assert(opt_within(copyable, original, extension));
        match extension {
            Some(x) => {
                assert(document.xdic_by_handle@.contains_key(source.value));
            },
            None => {},
        }
        assert(opt_below(extension, base));
    }
    let object = match document.objects.get(&source.value) {
        Some(ObjectType::Dictionary(d)) => ObjectType::Dictionary(d.copy()),
        Some(ObjectType::XRecord(r)) => ObjectType::XRecord(r.copy()),
        Some(ObjectType::Field(f)) => ObjectType::Field(Field {
            handle: f.handle,
            owner: f.owner,
            child_fields: copy_handles(&f.child_fields),
            object_ids: copy_handles(&f.object_ids),
        }),
        Some(ObjectType::FieldList(l)) => ObjectType::FieldList(FieldList {
            handle: l.handle,
            owner: l.owner,
            fields: copy_handles(&l.fields),
        }),
        Some(ObjectType::DictionaryVariable(v)) => ObjectType::DictionaryVariable(DictionaryVariable {
            handle: v.handle,
            owner_handle: v.owner_handle,
            schema_number: v.schema_number,
            name: v.name.clone(),
            value: v.value.clone(),
        }),
        _ => {
            return None;
        },
    };
    proof {
        assert(copy_of(object, orig));
        assert(original.contains_key(source.value));
        lemma_room_for_copy(*document, original, copyable, base, extra, remapped@, source.value);
    }
    let handle = document.allocate_handle();
    remapped.insert(source.value, handle.value);
    proof {
        broadcast use vstd::set_lib::group_set_properties;
        assert(remapped@.dom() =~= old(remapped)@.dom().insert(source.value));
        assert(remapped_grows(old(remapped)@, remapped@));
        assert(remapped@.contains_key(source.value) && remapped@[source.value] == handle.value);
        lemma_objects_wf_grow(document.objects@, (document.header.handle_seed - 1) as u64, document.header.handle_seed);
        assert forall|k: u64| #[trigger] document.xdic_by_handle@.contains_key(k)
            implies document.xdic_by_handle@[k] < document.header.handle_seed by {}
    }
    let copied = match object {
        ObjectType::Dictionary(mut d) => {
            d.handle = handle;
            d.owner = owner;
            d.xdictionary_handle = extension;
            clone_dictionary_children(document, &mut d, source, remapped, depth,
                Ghost(original), Ghost(copyable), Ghost(base), Ghost(extra));
            assert(remapped@.contains_key(source.value) && remapped@[source.value] == handle.value);
            ObjectType::Dictionary(d)
        },
        ObjectType::XRecord(mut r) => {
            r.handle = handle;
            r.owner = owner;
            r.xdictionary_handle = extension;
            let refs = r.get_references();
            proof {
                let o = orig->XRecord_0;
                assert(r.model() == o.model());
                assert(r.object_references@ == o.object_references@);
                assert(r.model().len() == r.entries@.len());
                assert(o.model().len() == o.entries@.len());
                assert forall|j: int| 0 <= j < refs@.len() implies (#[trigger] refs@[j]).value < base
                    && within(copyable, original, refs@[j]) by {
                    let h = refs@[j];
                    assert(refs@.contains(h));
                    if exists|k: int| 0 <= k < r.entries@.len() && model_as_handle(#[trigger] r.model()[k].value) == Some(h) {
                        let k = choose|k: int| 0 <= k < r.entries@.len() && model_as_handle(#[trigger] r.model()[k].value) == Some(h);
                        assert(model_as_handle(o.model()[k].value) == Some(h));
                    } else {
                        let k = choose|k: int| 0 <= k < r.object_references@.len() && (#[trigger] r.object_references@[k]).handle == h;
                        assert(o.object_references@[k].handle == h);
                    }
                    assert(refers_to(o, h));
                }
            }
            let mut i: usize = 0;
            while i < refs.len()
                invariant
                    depth <= 128,
                    i <= refs@.len(),
                    forall|j: int| 0 <= j < refs@.len() ==> (#[trigger] refs@[j]).value < base
                        && within(copyable, original, refs@[j]),
                    copy_state(*document, original, copyable, base, extra, remapped@),
                    copy_frame(*old(document), *document),
                    remapped_grows(old(remapped)@, remapped@),
                    handle.value < document.header.handle_seed,
                    remapped@.contains_key(source.value) && remapped@[source.value] == handle.value,
                    forall|k: u64| #[trigger] remapped@.contains_key(k) && !old(remapped)@.contains_key(k) && k != source.value
                        ==> copy_stored(document.objects@, original, remapped@, k),
                decreases refs@.len() - i,
            {
                let child = refs[i];
                let owned = match document.object_owner(child) {
                    Some(o) => o.value == source.value,
                    None => false,
                };
                if owned {
                    clone_metadata(document, child, handle, remapped, depth + 1,
                        Ghost(original), Ghost(copyable), Ghost(base), Ghost(extra));
                }
                i += 1;
            }
            match r.xdictionary_handle {
                Some(child) => {
                    clone_metadata(document, child, handle, remapped, depth + 1,
                        Ghost(original), Ghost(copyable), Ghost(base), Ghost(extra));
                },
                None => {},
            }
            assert(remapped@.contains_key(source.value) && remapped@[source.value] == handle.value);
            ObjectType::XRecord(r)
        },
        ObjectType::Field(mut f) => {
            f.handle = handle;
            f.owner = owner;
            let mut i: usize = 0;
            while i < f.child_fields.len()
                invariant
                    depth <= 128,
                    i <= f.child_fields@.len(),
                    all_below(f.child_fields@, base),
                    forall|j: int| 0 <= j < f.child_fields@.len() ==> within(copyable, original, #[trigger] f.child_fields@[j]),
                    copy_state(*document, original, copyable, base, extra, remapped@),
                    copy_frame(*old(document), *document),
                    remapped_grows(old(remapped)@, remapped@),
                    handle.value < document.header.handle_seed,
                    remapped@.contains_key(source.value) && remapped@[source.value] == handle.value,
                    forall|k: u64| #[trigger] remapped@.contains_key(k) && !old(remapped)@.contains_key(k) && k != source.value
                        ==> copy_stored(document.objects@, original, remapped@, k),
                decreases f.child_fields@.len() - i,
            {
                clone_metadata(document, f.child_fields[i], handle, remapped, depth + 1,
                    Ghost(original), Ghost(copyable), Ghost(base), Ghost(extra));
                i += 1;
            }
            assert(remapped@.contains_key(source.value) && remapped@[source.value] == handle.value);
            ObjectType::Field(f)
        },
        ObjectType::FieldList(mut l) => {
            l.handle = handle;
            l.owner = owner;
            let mut i: usize = 0;
            while i < l.fields.len()
                invariant
                    depth <= 128,
                    i <= l.fields@.len(),
                    all_below(l.fields@, base),
                    forall|j: int| 0 <= j < l.fields@.len() ==> within(copyable, original, #[trigger] l.fields@[j]),
                    copy_state(*document, original, copyable, base, extra, remapped@),
                    copy_frame(*old(document), *document),
                    remapped_grows(old(remapped)@, remapped@),
                    handle.value < document.header.handle_seed,
                    remapped@.contains_key(source.value) && remapped@[source.value] == handle.value,
                    forall|k: u64| #[trigger] remapped@.contains_key(k) && !old(remapped)@.contains_key(k) && k != source.value
                        ==> copy_stored(document.objects@, original, remapped@, k),
                decreases l.fields@.len() - i,
            {
                let child = l.fields[i];
                let owned = match document.object_owner(child) {
                    Some(o) => o.value == source.value,
                    None => false,
                };
                if owned {
                    clone_metadata(document, child, handle, remapped, depth + 1,
                        Ghost(original), Ghost(copyable), Ghost(base), Ghost(extra));
                }
                i += 1;
            }
            assert(remapped@.contains_key(source.value) && remapped@[source.value] == handle.value);
            ObjectType::FieldList(l)
        },
        ObjectType::DictionaryVariable(mut v) => {
            v.handle = handle;
            v.owner_handle = owner;
            ObjectType::DictionaryVariable(v)
        },
        other => other,
    };
    proof {
        assert(copied_as(copied, orig, handle, owner));
        assert(remapped@.contains_key(source.value) && remapped@[source.value] == handle.value);
    }
    match extension {
        Some(child) => {
            clone_metadata(document, child, handle, remapped, depth + 1,
                Ghost(original), Ghost(copyable), Ghost(base), Ghost(extra));
        },
        None => {},
    }
    document.objects.insert(handle.value, copied);
    proof {
        assert(old(document).objects@[source.value] == orig);
        assert(document.objects@[handle.value] == copied);
    }
    Some(handle)
}

/// A handle after remapping: a copied source becomes its copy.
pub open spec fn remap(m: Map<u64, u64>, h: Handle) -> Handle {
    if m.contains_key(h.value) {
        Handle { value: m[h.value] }
    } else {
        h
    }
}

/// Every copy a map names lies below `seed`.
pub open spec fn map_below(m: Map<u64, u64>, seed: u64) -> bool {
    forall|k: u64| #[trigger] m.contains_key(k) ==> m[k] < seed
}

/// A value after remapping the handle it holds, if any.
pub open spec fn remap_value(m: Map<u64, u64>, v: ValueModel) -> ValueModel {
    match v {
        ValueModel::Handle(h) => ValueModel::Handle(remap(m, h)),
        _ => v,
    }
}

/// Remap one handle.
fn remap_handle(m: &HashMap<u64, u64>, h: Handle) -> (r: Handle)
    ensures
        r == remap(m@, h),
{
    match m.get(&h.value) {
        Some(x) => Handle::new(*x),
        None => h,
    }
}

/// Remap an optional handle.
fn remap_opt(m: &HashMap<u64, u64>, h: Option<Handle>) -> (r: Option<Handle>)
    ensures
        r == (match h {
            Some(x) => Some(remap(m@, x)),
            None => None,
        }),
{
    match h {
        Some(x) => Some(remap_handle(m, x)),
        None => None,
    }
}

/// Remap every handle of a list.
fn remap_handles(m: &HashMap<u64, u64>, v: &mut Vec<Handle>)
    ensures
        final(v)@.len() == old(v)@.len(),
        forall|i: int| 0 <= i < old(v)@.len() ==> #[trigger] final(v)@[i] == remap(m@, old(v)@[i]),
{
    let mut i: usize = 0;
    while i < v.len()
        invariant
            i <= v@.len(),
            v@.len() == old(v)@.len(),
            forall|j: int| 0 <= j < i ==> #[trigger] v@[j] == remap(m@, old(v)@[j]),
            forall|j: int| i <= j < v@.len() ==> #[trigger] v@[j] == old(v)@[j],
        decreases v@.len() - i,
    {
        let h = remap_handle(m, v[i]);
        v.set(i, h);
        i += 1;
    }
}

/// Remap the targets of a dictionary's entries.
fn remap_entries(m: &HashMap<u64, u64>, d: &mut Dictionary)
    ensures
        final(d).model().len() == old(d).model().len(),
        forall|i: int| 0 <= i < old(d).model().len() ==> (#[trigger] final(d).model()[i]).0 == old(d).model()[i].0
            && final(d).model()[i].1 == remap(m@, old(d).model()[i].1),
        final(d).handle == old(d).handle,
        final(d).owner == old(d).owner,
        final(d).hard_owner == old(d).hard_owner,
        final(d).hard_owned_keys == old(d).hard_owned_keys,
        final(d).xdictionary_handle == old(d).xdictionary_handle,
        final(d).reactors == old(d).reactors,
{
    let ghost es = d.model();
    let mut i: usize = 0;
    while i < d.entries.len()
        invariant
            i <= d.entries@.len(),
            d.model().len() == es.len(),
            forall|j: int| 0 <= j < es.len() ==> (#[trigger] d.model()[j]).0 == es[j].0,
            forall|j: int| 0 <= j < i ==> (#[trigger] d.model()[j]).1 == remap(m@, es[j].1),
            forall|j: int| i <= j < es.len() ==> (#[trigger] d.model()[j]).1 == es[j].1,
            d.handle == old(d).handle,
            d.owner == old(d).owner,
            d.hard_owner == old(d).hard_owner,
            d.hard_owned_keys == old(d).hard_owned_keys,
            d.xdictionary_handle == old(d).xdictionary_handle,
            d.reactors == old(d).reactors,
        decreases d.entries@.len() - i,
    {
        let ghost m0 = d.model();
        assert(m0[i as int] == (d.entries@[i as int].0@, d.entries@[i as int].1));
        let name = d.entries[i].0.clone();
        let h = remap_handle(m, d.entries[i].1);
        d.entries.set(i, (name, h));
        assert(d.model() =~= m0.update(i as int, (m0[i as int].0, h)));
        i += 1;
    }
}

/// Remap the handles an XRecord holds in its entries and references.
fn remap_xrecord(m: &HashMap<u64, u64>, r: &mut XRecord)
    ensures
        final(r).model().len() == old(r).model().len(),
        forall|i: int| 0 <= i < old(r).model().len() ==> (#[trigger] final(r).model()[i]).code == old(r).model()[i].code
            && final(r).model()[i].value == remap_value(m@, old(r).model()[i].value),
        final(r).object_references@.len() == old(r).object_references@.len(),
        forall|i: int| 0 <= i < old(r).object_references@.len() ==> (#[trigger] final(r).object_references@[i]).handle
            == remap(m@, old(r).object_references@[i].handle)
            && final(r).object_references@[i].kind == old(r).object_references@[i].kind,
        final(r).xdictionary_handle == old(r).xdictionary_handle,
        final(r).handle == old(r).handle,
        final(r).owner == old(r).owner,
        final(r).entries_complete == old(r).entries_complete,
        final(r).reactors == old(r).reactors,
{
    let ghost es = r.model();
    let mut i: usize = 0;
    while i < r.entries.len()
        invariant
            i <= r.entries@.len(),
            r.model().len() == es.len(),
            forall|j: int| 0 <= j < es.len() ==> (#[trigger] r.model()[j]).code == es[j].code,
            forall|j: int| 0 <= j < i ==> (#[trigger] r.model()[j]).value == remap_value(m@, es[j].value),
            forall|j: int| i <= j < es.len() ==> (#[trigger] r.model()[j]).value == es[j].value,
            r.object_references == old(r).object_references,
            r.xdictionary_handle == old(r).xdictionary_handle,
            r.handle == old(r).handle,
            r.owner == old(r).owner,
            r.entries_complete == old(r).entries_complete,
            r.reactors == old(r).reactors,
        decreases r.entries@.len() - i,
    {
        let ghost m0 = r.model();
        assert(m0[i as int] == r.entries@[i as int]@);
        let code = r.entries[i].code;
        let target = match &r.entries[i].value {
            XRecordValue::Handle(h) => Some(*h),
            _ => None,
        };
        match target {
            Some(h) => {
                let h2 = remap_handle(m, h);
                r.entries.set(i, XRecordEntry::new(code, XRecordValue::Handle(h2)));
                assert(r.model() =~= m0.update(i as int, EntryModel { code, value: ValueModel::Handle(h2) }));
            },
            None => {},
        }
        i += 1;
    }
    let mut j: usize = 0;
    while j < r.object_references.len()
        invariant
            j <= r.object_references@.len(),
            r.object_references@.len() == old(r).object_references@.len(),
            forall|k: int| 0 <= k < j ==> (#[trigger] r.object_references@[k]).handle == remap(m@, old(r).object_references@[k].handle)
                && r.object_references@[k].kind == old(r).object_references@[k].kind,
            forall|k: int| j <= k < r.object_references@.len() ==> #[trigger] r.object_references@[k] == old(r).object_references@[k],
            r.model().len() == es.len(),
            forall|k: int| 0 <= k < es.len() ==> (#[trigger] r.model()[k]).code == es[k].code
                && r.model()[k].value == remap_value(m@, es[k].value),
            r.xdictionary_handle == old(r).xdictionary_handle,
            r.handle == old(r).handle,
            r.owner == old(r).owner,
            r.entries_complete == old(r).entries_complete,
            r.reactors == old(r).reactors,
        decreases r.object_references@.len() - j,
    {
        let reference = r.object_references[j];
        let h2 = remap_handle(m, reference.handle);
        r.object_references.set(j, ProxyObjectReference { handle: h2, kind: reference.kind });
        j += 1;
    }
}


/// Handles after remapping each.
pub open spec fn remap_seq(m: Map<u64, u64>, s: Seq<Handle>) -> Seq<Handle> {
    s.map_values(|h: Handle| remap(m, h))
}

/// An optional handle after remapping.
pub open spec fn remap_option(m: Map<u64, u64>, h: Option<Handle>) -> Option<Handle> {
    match h {
        Some(x) => Some(remap(m, x)),
        None => None,
    }
}

/// `b` is `a` with every handle it holds remapped: the targets of a
/// dictionary's entries, its reactors and extension dictionary; the handles of
/// an XRecord's entries and references, its reactors and extension dictionary
/// (dropping its stored DWG record, which would name the old handles); the
/// handles a field or field list names. Other objects stay as they are.
pub open spec fn remapped_object(m: Map<u64, u64>, a: ObjectType, b: ObjectType) -> bool {
    match (a, b) {
        (ObjectType::Dictionary(a), ObjectType::Dictionary(b)) => {
            &&& b.handle == a.handle
            &&& b.owner == a.owner
            &&& b.model().len() == a.model().len()
            &&& forall|i: int| 0 <= i < a.model().len() ==> (#[trigger] b.model()[i]).0 == a.model()[i].0
                && b.model()[i].1 == remap(m, a.model()[i].1)
            &&& b.hard_owner == a.hard_owner
            &&& b.hard_owned_keys == a.hard_owned_keys
            &&& b.reactors@ == remap_seq(m, a.reactors@)
            &&& b.xdictionary_handle == remap_option(m, a.xdictionary_handle)
        },
        (ObjectType::XRecord(a), ObjectType::XRecord(b)) => {
            &&& b.handle == a.handle
            &&& b.owner == a.owner
            &&& b.model().len() == a.model().len()
            &&& forall|i: int| 0 <= i < a.model().len() ==> (#[trigger] b.model()[i]).code == a.model()[i].code
                && b.model()[i].value == remap_value(m, a.model()[i].value)
            &&& b.object_references@.len() == a.object_references@.len()
            &&& forall|i: int| 0 <= i < a.object_references@.len() ==> (#[trigger] b.object_references@[i]).handle
                == remap(m, a.object_references@[i].handle)
                && b.object_references@[i].kind == a.object_references@[i].kind
            &&& b.reactors@ == remap_seq(m, a.reactors@)
            &&& b.xdictionary_handle == remap_option(m, a.xdictionary_handle)
            &&& b.entries_complete == a.entries_complete
            &&& b.raw_dwg_data is None
            &&& b.raw_dwg_version is None
        },
        (ObjectType::Field(a), ObjectType::Field(b)) => {
            &&& b.handle == a.handle
            &&& b.owner == a.owner
            &&& b.child_fields@ == remap_seq(m, a.child_fields@)
            &&& b.object_ids@ == remap_seq(m, a.object_ids@)
        },
        (ObjectType::FieldList(a), ObjectType::FieldList(b)) => {
            &&& b.handle == a.handle
            &&& b.owner == a.owner
            &&& b.fields@ == remap_seq(m, a.fields@)
        },
        (ObjectType::Dictionary(_), _) => false,
        (ObjectType::XRecord(_), _) => false,
        (ObjectType::Field(_), _) => false,
        (ObjectType::FieldList(_), _) => false,
        _ => b == a,
    }
}

/// Remapping, with every copy below `seed`, keeps references below `seed` and
/// the handle a dictionary records.
pub proof fn lemma_remapped_refs(m: Map<u64, u64>, a: ObjectType, b: ObjectType, seed: u64, k: u64)
    requires
        map_below(m, seed),
        refs_below(a, seed),
        keyed(a, k),
        remapped_object(m, a, b),
    ensures
        refs_below(b, seed),
        keyed(b, k),
{
    match (a, b) {
        (ObjectType::Dictionary(x), ObjectType::Dictionary(y)) => {
            assert forall|i: int| 0 <= i < y.model().len() implies (#[trigger] y.model()[i]).1.value < seed by {
                assert(x.model()[i].1.value < seed);
            }
        },
        (ObjectType::XRecord(x), ObjectType::XRecord(y)) => {
            assert forall|h: Handle| #[trigger] refers_to(y, h) implies h.value < seed by {
                if exists|i: int| 0 <= i < y.entries@.len() && model_as_handle(#[trigger] y.model()[i].value) == Some(h) {
                    let i = choose|i: int| 0 <= i < y.entries@.len() && model_as_handle(#[trigger] y.model()[i].value) == Some(h);
                    assert(y.model().len() == y.entries@.len());
                    assert(x.model().len() == x.entries@.len());
                    let h0 = model_as_handle(x.model()[i].value)->0;
                    assert(model_as_handle(x.model()[i].value) == Some(h0));
                    assert(refers_to(x, h0));
                } else {
                    let i = choose|i: int| 0 <= i < y.object_references@.len() && (#[trigger] y.object_references@[i]).handle == h;
                    let h0 = x.object_references@[i].handle;
                    assert(refers_to(x, h0));
                }
            }
        },
        (ObjectType::Field(x), ObjectType::Field(y)) => {
            assert forall|i: int| 0 <= i < y.child_fields@.len() implies (#[trigger] y.child_fields@[i]).value < seed by {
                assert(x.child_fields@[i].value < seed);
            }
        },
        (ObjectType::FieldList(x), ObjectType::FieldList(y)) => {
            assert forall|i: int| 0 <= i < y.fields@.len() implies (#[trigger] y.fields@[i]).value < seed by {
                assert(x.fields@[i].value < seed);
            }
        },
        _ => {},
    }
}

/// Remap every handle of a list.
fn remap_list(m: &HashMap<u64, u64>, v: &mut Vec<Handle>)
    ensures
        final(v)@ == remap_seq(m@, old(v)@),
{
    remap_handles(m, v);
    assert(v@ =~= remap_seq(m@, old(v)@));
}

/// Remap the handles that the object stored under `key` holds (see `remapped_object`).
fn remap_object(document: &mut CadDocument, key: u64, m: &HashMap<u64, u64>)
    requires
        old(document).objects@.contains_key(key),
    ensures
        final(document).objects@.dom() == old(document).objects@.dom(),
        forall|k: u64| k != key && #[trigger] old(document).objects@.contains_key(k)
            ==> final(document).objects@[k] == old(document).objects@[k],
        remapped_object(m@, old(document).objects@[key], final(document).objects@[key]),
        final(document).header == old(document).header,
        same_besides_objects(*final(document), *old(document)),
{
    let ghost before = document.objects@;
    let object = match document.objects.remove(&key) {
        Some(o) => o,
        None => {
            assert(false);
            return;
        },
    };
    let changed = match object {
        ObjectType::Dictionary(mut d) => {
            remap_entries(m, &mut d);
            remap_list(m, &mut d.reactors);
            d.xdictionary_handle = remap_opt(m, d.xdictionary_handle);
            ObjectType::Dictionary(d)
        },
        ObjectType::XRecord(mut r) => {
            remap_xrecord(m, &mut r);
            remap_list(m, &mut r.reactors);
            r.xdictionary_handle = remap_opt(m, r.xdictionary_handle);
            r.raw_dwg_data = None;
            r.raw_dwg_version = None;
            ObjectType::XRecord(r)
        },
        ObjectType::Field(mut f) => {
            remap_list(m, &mut f.child_fields);
            remap_list(m, &mut f.object_ids);
            ObjectType::Field(f)
        },
        ObjectType::FieldList(mut l) => {
            remap_list(m, &mut l.fields);
            ObjectType::FieldList(l)
        },
        other => other,
    };
    document.objects.insert(key, changed);
    assert(document.objects@.dom() =~= before.dom());
}

/// Remap the handles held by every object stored from `from` up to the seed,
/// except the one under `skip`.
fn remap_new_objects(document: &mut CadDocument, m: &HashMap<u64, u64>, from: u64, skip: u64)
    requires
        old(document).handles_wf(),
        map_below(m@, old(document).header.handle_seed),
    ensures
        final(document).handles_wf(),
        final(document).objects@.dom() == old(document).objects@.dom(),
        forall|k: u64| #[trigger] old(document).objects@.contains_key(k) ==> if from <= k && k != skip {
            remapped_object(m@, old(document).objects@[k], final(document).objects@[k])
        } else {
            final(document).objects@[k] == old(document).objects@[k]
        },
        final(document).header == old(document).header,
        same_besides_objects(*final(document), *old(document)),
{
    let seed = document.header.handle_seed;
    let ghost before = document.objects@;
    let mut h = from;
    while h < seed
        invariant
            seed == document.header.handle_seed,
            from <= h,
            document.header == old(document).header,
            same_besides_objects(*document, *old(document)),
            document.handles_wf(),
            map_below(m@, seed),
            before == old(document).objects@,
            document.objects@.dom() == before.dom(),
            forall|k: u64| #[trigger] before.contains_key(k) ==> if from <= k < h && k != skip {
                remapped_object(m@, before[k], document.objects@[k])
            } else {
                document.objects@[k] == before[k]
            },
        decreases seed - h,
    {
        if h != skip && document.objects.contains_key(&h) {
            let ghost cur = document.objects@;
            remap_object(document, h, m);
            proof {
                assert(cur[h] == before[h]);
                lemma_remapped_refs(m@, cur[h], document.objects@[h], seed, h);
                lemma_objects_wf_insert(cur, seed, h, document.objects@[h]);
                assert(document.objects@ =~= cur.insert(h, document.objects@[h]));
            }
        }
        proof {
            assert forall|k: u64| #[trigger] before.contains_key(k) implies if from <= k < h + 1 && k != skip {
                remapped_object(m@, before[k], document.objects@[k])
            } else {
                document.objects@[k] == before[k]
            } by {
                if k == h {
                    if from <= k && k != skip {
                        assert(remapped_object(m@, before[k], document.objects@[k]));
                    }
                }
            }
        }
        h += 1;
    }
    proof {
        assert forall|k: u64| #[trigger] before.contains_key(k) && from <= k && k != skip implies k < h by {
            assert(k < seed);
        }
    }
}

/// Give each copy whose source has an extension dictionary that was copied
/// too the copy of that dictionary as its own.
fn link_copied_extensions(document: &mut CadDocument, m: &HashMap<u64, u64>, Ghost(base): Ghost<u64>)
    requires
        old(document).handles_wf(),
        xdic_below(old(document).xdic_by_handle@, base),
        forall|k: u64| #[trigger] m@.contains_key(k) ==> k < base && base <= m@[k] < old(document).header.handle_seed,
        forall|k1: u64, k2: u64| #[trigger] m@.contains_key(k1) && #[trigger] m@.contains_key(k2) && k1 != k2
            ==> m@[k1] != m@[k2],
    ensures
        final(document).handles_wf(),
        final(document).objects == old(document).objects,
        final(document).header == old(document).header,
        forall|k: u64| #[trigger] old(document).xdic_by_handle@.contains_key(k)
            ==> final(document).xdic_by_handle@.contains_key(k)
            && final(document).xdic_by_handle@[k] == old(document).xdic_by_handle@[k],
        forall|k: u64| #[trigger] final(document).xdic_by_handle@.contains_key(k)
            && !old(document).xdic_by_handle@.contains_key(k) ==> base <= k,
        forall|s: u64| #[trigger] m@.contains_key(s) && old(document).xdic_by_handle@.contains_key(s)
            && m@.contains_key(old(document).xdic_by_handle@[s])
            ==> final(document).xdic_by_handle@.contains_key(m@[s])
            && final(document).xdic_by_handle@[m@[s]] == m@[old(document).xdic_by_handle@[s]],
        final(document).version == old(document).version,
        final(document).maintenance_version == old(document).maintenance_version,
        final(document).layers == old(document).layers,
        final(document).line_types == old(document).line_types,
        final(document).text_styles == old(document).text_styles,
        final(document).block_records == old(document).block_records,
        final(document).dim_styles == old(document).dim_styles,
        final(document).app_ids == old(document).app_ids,
        final(document).views == old(document).views,
        final(document).vports == old(document).vports,
        final(document).ucss == old(document).ucss,
        final(document).vx_table == old(document).vx_table,
        final(document).entities == old(document).entities,
        final(document).notifications == old(document).notifications,
{
    let ghost x0 = document.xdic_by_handle@;
    let ghost seed = document.header.handle_seed;
    for (s, t) in it: m.iter()
        invariant
            forall|j: int| 0 <= j < it.seq().len() ==> m@.contains_key(*(#[trigger] it.seq()[j]).0)
                && m@[*it.seq()[j].0] == *it.seq()[j].1,
            forall|k: u64| #[trigger] m@.contains_key(k) ==> it.seq().contains((&k, &m@[k])),
            it.seq().no_duplicates(),
            forall|k: u64| #[trigger] m@.contains_key(k) ==> k < base && base <= m@[k] < seed,
            forall|k1: u64, k2: u64| #[trigger] m@.contains_key(k1) && #[trigger] m@.contains_key(k2) && k1 != k2
                ==> m@[k1] != m@[k2],
            xdic_below(x0, base),
            document.handles_wf(),
            seed == document.header.handle_seed,
            document.objects == old(document).objects,
            document.header == old(document).header,
            x0 == old(document).xdic_by_handle@,
            document.version == old(document).version,
            document.maintenance_version == old(document).maintenance_version,
            document.layers == old(document).layers,
            document.line_types == old(document).line_types,
            document.text_styles == old(document).text_styles,
            document.block_records == old(document).block_records,
            document.dim_styles == old(document).dim_styles,
            document.app_ids == old(document).app_ids,
            document.views == old(document).views,
            document.vports == old(document).vports,
            document.ucss == old(document).ucss,
            document.vx_table == old(document).vx_table,
            document.entities == old(document).entities,
            document.notifications == old(document).notifications,
            forall|k: u64| #[trigger] x0.contains_key(k) ==> document.xdic_by_handle@.contains_key(k)
                && document.xdic_by_handle@[k] == x0[k],
            forall|k: u64| #[trigger] document.xdic_by_handle@.contains_key(k) && !x0.contains_key(k) ==> base <= k,
            forall|j: int| 0 <= j < it.index() && #[trigger] x0.contains_key(*it.seq()[j].0)
                && m@.contains_key(x0[*it.seq()[j].0])
                ==> document.xdic_by_handle@.contains_key(*it.seq()[j].1)
                && document.xdic_by_handle@[*it.seq()[j].1] == m@[x0[*it.seq()[j].0]],
        ensures
            forall|s: u64| #[trigger] m@.contains_key(s) && x0.contains_key(s) && m@.contains_key(x0[s])
                ==> document.xdic_by_handle@.contains_key(m@[s]) && document.xdic_by_handle@[m@[s]] == m@[x0[s]],
    {
        let ghost idx = it.index();
        let ghost before = document.xdic_by_handle@;
        proof {
            assert(it.seq()[idx] == (s, t));
        }
        let extension = match document.xdic_by_handle.get(s) {
            Some(e) => Some(*e),
            None => None,
        };
        proof {
            assert(*s < base);
            if x0.contains_key(*s) {
                assert(before.contains_key(*s));
            } else {
                assert(!before.contains_key(*s));
            }
        }
        match extension {
            Some(e) => {
                match m.get(&e) {
                    Some(copy) => {
                        document.xdic_by_handle.insert(*t, *copy);
                        proof {
                            assert forall|j: int| 0 <= j < idx implies *it.seq()[j].1 != *t by {
                                if *it.seq()[j].1 == *t {
                                    assert(*it.seq()[j].0 == *s);
                                    assert(it.seq()[j] == it.seq()[idx]);
                                }
                            }
                        }
                    },
                    None => {},
                }
            },
            None => {},
        }
    }
}

/// An entity other than `owner` whose extension dictionary is `previous`.
pub open spec fn entity_shares(e: EntityType, owner: Handle, previous: Option<Handle>) -> bool {
    e.common_spec().handle != owner && e.common_spec().xdictionary_handle == previous
}

/// Some dynamic block of `objects` has the dictionary under `dv` as its extension dictionary.
pub open spec fn block_dictionary(objects: Map<u64, ObjectType>, dv: u64) -> bool {
    exists|k: u64| #[trigger] objects.contains_key(k)
        && (objects[k] matches ObjectType::DynamicBlock(b) && b.xdictionary_handle == Some(Handle { value: dv }))
}

/// A dictionary that storing for entities may write in place: one of `dicts`
/// that no dynamic block uses as its extension dictionary.
pub open spec fn dictionary_writable(objects: Map<u64, ObjectType>, dicts: Set<u64>, k: u64) -> bool {
    objects.contains_key(k) && dicts.contains(k) && objects[k] is Dictionary && !block_dictionary(objects, k)
}

/// An object that storing for entities may change: such a dictionary, or a
/// record that such a dictionary owns or whose owner lies from the seed on.
pub open spec fn object_writable(objects: Map<u64, ObjectType>, dicts: Set<u64>, seed: u64, k: u64) -> bool {
    ||| dictionary_writable(objects, dicts, k)
    ||| (objects[k] matches ObjectType::XRecord(x)
        && (seed <= x.owner.value || dictionary_writable(objects, dicts, x.owner.value)))
}

/// Storing for entities whose own extension dictionaries are among `dicts`,
/// in a document whose seed is `seed`, keeps every object of `a` in `b` as it
/// was, but those it may change (see `object_writable`): of those, a
/// dictionary stays a dictionary, and a record stays a record or goes.
pub open spec fn objects_kept_but(a: Map<u64, ObjectType>, b: Map<u64, ObjectType>, dicts: Set<u64>, seed: u64) -> bool {
    forall|k: u64| #[trigger] a.contains_key(k) ==> if object_writable(a, dicts, seed, k) {
        &&& a[k] is Dictionary ==> b.contains_key(k) && b[k] is Dictionary
        &&& a[k] is XRecord ==> (b.contains_key(k) ==> b[k] is XRecord)
    } else {
        b.contains_key(k) && b[k] == a[k]
    }
}

/// One more step of storing for an entity `owner`, which writes the
/// dictionary `d` (fresh, or its own `previous` that nothing else uses) and
/// the record `r` (fresh, or one that `d` owned), and may drop records that
/// `d` owned, keeps the objects of `a` that storing may not change.
pub proof fn lemma_kept_but_step(
    a: CadDocument,
    before: CadDocument,
    fin: CadDocument,
    dicts: Set<u64>,
    owner: Handle,
    previous: Option<Handle>,
    d: Handle,
    r: Option<Handle>,
)
    requires
        a.handles_wf(),
        objects_kept_but(a.objects@, before.objects@, dicts, a.header.handle_seed),
        a.header.handle_seed <= before.header.handle_seed,
        forall|k: u64| #[trigger] before.objects@.contains_key(k) && k < a.header.handle_seed ==> a.objects@.contains_key(k),
        !a.objects@.contains_key(owner.value),
        previous matches Some(p) ==> dicts.contains(p.value),
        (before.header.handle_seed <= d.value && !before.objects@.contains_key(d.value))
            || (previous == Some(d) && dictionary_at(before.objects@, d) is Some && !shared_dictionary(before, owner, previous)),
        dictionary_at(fin.objects@, d) is Some,
        r matches Some(h) ==> {
            &&& (before.header.handle_seed <= h.value && !before.objects@.contains_key(h.value))
                || (xrecord_at(before.objects@, h) matches Some(x) && x.owner == d)
            &&& xrecord_at(fin.objects@, h) is Some
        },
        forall|k: u64| #[trigger] before.objects@.contains_key(k) && k != d.value && r != Some(Handle { value: k })
            ==> if fin.objects@.contains_key(k) {
                fin.objects@[k] == before.objects@[k]
            } else {
                xrecord_at(before.objects@, Handle { value: k }) matches Some(x) && x.owner == d
            },
        forall|k: u64| #[trigger] fin.objects@.contains_key(k) && !before.objects@.contains_key(k)
            ==> before.header.handle_seed <= k,
    ensures
        objects_kept_but(a.objects@, fin.objects@, dicts, a.header.handle_seed),
{
    let ao = a.objects@;
    let seed = a.header.handle_seed;
    // The dictionary written in place is no dynamic block's.
    assert(previous == Some(d) && ao.contains_key(d.value) ==> !block_dictionary(ao, d.value)) by {
        if previous == Some(d) && ao.contains_key(d.value) && block_dictionary(ao, d.value)
            && !(before.header.handle_seed <= d.value && !before.objects@.contains_key(d.value)) {
            let w = choose|w: u64| #[trigger] ao.contains_key(w)
                && (ao[w] matches ObjectType::DynamicBlock(bb) && bb.xdictionary_handle == Some(Handle { value: d.value }));
            assert(!object_writable(ao, dicts, seed, w));
            assert(before.objects@.contains_key(w));
            assert(object_shares(before.objects@[w], w, before.xdic_by_handle@, owner, previous));
            assert(shared_dictionary(before, owner, previous));
        }
    }
    // A record that `d` owned is one that storing may change.
    assert forall|k: u64| ao.contains_key(k) && (xrecord_at(ao, Handle { value: k }) matches Some(x) && x.owner == d)
        implies #[trigger] object_writable(ao, dicts, seed, k) by {
        if ao.contains_key(d.value) {
            assert(d.value < a.header.handle_seed);
            assert(dicts.contains(d.value));
            assert(!block_dictionary(ao, d.value));
            if !object_writable(ao, dicts, seed, d.value) {
                assert(before.objects@[d.value] == ao[d.value]);
            } else if !(ao[d.value] is Dictionary) {
                assert(before.objects@[d.value] is XRecord);
            }
        } else if d.value < seed {
            assert(before.objects@.contains_key(d.value));
        }
    }
    assert forall|k: u64| #[trigger] ao.contains_key(k) implies if object_writable(ao, dicts, seed, k) {
        &&& ao[k] is Dictionary ==> fin.objects@.contains_key(k) && fin.objects@[k] is Dictionary
        &&& ao[k] is XRecord ==> (fin.objects@.contains_key(k) ==> fin.objects@[k] is XRecord)
    } else {
        fin.objects@.contains_key(k) && fin.objects@[k] == ao[k]
    } by {
        assert(k < a.header.handle_seed);
        if object_writable(ao, dicts, seed, k) {
            if before.objects@.contains_key(k) {
                if k == d.value {
                } else if r == Some(Handle { value: k }) {
                    if ao[k] is Dictionary {
                        assert(before.objects@[k] is Dictionary);
                    }
                } else if fin.objects@.contains_key(k) {
                } else {
                    if ao[k] is Dictionary {
                        assert(before.objects@[k] is Dictionary);
                    }
                }
            } else {
                assert(!fin.objects@.contains_key(k));
            }
        } else {
            assert(before.objects@.contains_key(k) && before.objects@[k] == ao[k]);
            if k == d.value {
                assert(dictionary_at(before.objects@, d) is Some);
                assert(dictionary_writable(ao, dicts, k));
            }
            if r == Some(Handle { value: k }) {
                assert(xrecord_at(ao, Handle { value: k }) matches Some(x) && x.owner == d);
            }
            if !fin.objects@.contains_key(k) {
                assert(xrecord_at(ao, Handle { value: k }) matches Some(x) && x.owner == d);
            }
        }
    }
}

/// An object under `k`, other than `owner`, whose extension dictionary, as a
/// dynamic block records it or as the document records it, is `previous`.
pub open spec fn object_shares(o: ObjectType, k: u64, xdic: Map<u64, u64>, owner: Handle, previous: Option<Handle>) -> bool {
    k != owner.value && ((o matches ObjectType::DynamicBlock(b) && b.xdictionary_handle == previous)
        || extension_of(xdic, Handle { value: k }) == previous)
}

/// Something other than `owner` uses `previous` as its extension dictionary:
/// an entity, an object, or a recorded extension-dictionary link.
pub open spec fn shared_dictionary(doc: CadDocument, owner: Handle, previous: Option<Handle>) -> bool {
    ||| exists|i: int| 0 <= i < doc.entities@.len() && #[trigger] entity_shares(doc.entities@[i], owner, previous)
    ||| exists|k: u64| #[trigger] doc.objects@.contains_key(k)
        && object_shares(doc.objects@[k], k, doc.xdic_by_handle@, owner, previous)
    ||| exists|k: u64| #[trigger] doc.xdic_by_handle@.contains_key(k) && k != owner.value
        && previous == Some(Handle { value: doc.xdic_by_handle@[k] })
}

impl CadDocument {
    /// Whether something other than `owner` uses `previous` as its extension
    /// dictionary (see `shared_dictionary`).
    fn dictionary_shared(&self, owner: Handle, previous: Option<Handle>) -> (b: bool)
        ensures
            b == shared_dictionary(*self, owner, previous),
    {
        let mut i: usize = 0;
        while i < self.entities.len()
            invariant
                i <= self.entities@.len(),
                forall|j: int| 0 <= j < i ==> !entity_shares(#[trigger] self.entities@[j], owner, previous),
            decreases self.entities@.len() - i,
        {
            let c = self.entities[i].common();
            if c.handle.value != owner.value && c.xdictionary_handle == previous {
                assert(entity_shares(self.entities@[i as int], owner, previous));
                return true;
            }
            i += 1;
        }
        let mut found = false;
        for (k, o) in it: self.objects.iter()
            invariant
                forall|j: int| 0 <= j < it.seq().len() ==> self.objects@.contains_key(*(#[trigger] it.seq()[j]).0)
                    && self.objects@[*it.seq()[j].0] == *it.seq()[j].1,
                forall|key: u64| #[trigger] self.objects@.contains_key(key) ==> it.seq().contains((&key, &self.objects@[key])),
                found == exists|j: int| 0 <= j < it.index()
                    && #[trigger] object_shares(*it.seq()[j].1, *it.seq()[j].0, self.xdic_by_handle@, owner, previous),
            ensures
                found == exists|k: u64| #[trigger] self.objects@.contains_key(k)
                    && object_shares(self.objects@[k], k, self.xdic_by_handle@, owner, previous),
        {
            let ghost idx = it.index();
            let block = match o {
                ObjectType::DynamicBlock(b) => b.xdictionary_handle == previous,
                _ => false,
            };
            let hit = *k != owner.value && (block || self.extension_dictionary_handle(Handle::new(*k)) == previous);
            proof {
                assert(object_shares(*it.seq()[idx].1, *it.seq()[idx].0, self.xdic_by_handle@, owner, previous) == hit);
            }
            if hit {
                found = true;
            }
        }
        if found {
            return true;
        }
        let mut linked = false;
        for (k, v) in it: self.xdic_by_handle.iter()
            invariant
                forall|j: int| 0 <= j < it.seq().len() ==> self.xdic_by_handle@.contains_key(*(#[trigger] it.seq()[j]).0)
                    && self.xdic_by_handle@[*it.seq()[j].0] == *it.seq()[j].1,
                forall|key: u64| #[trigger] self.xdic_by_handle@.contains_key(key)
                    ==> it.seq().contains((&key, &self.xdic_by_handle@[key])),
                linked == exists|j: int| 0 <= j < it.index() && *(#[trigger] it.seq()[j]).0 != owner.value
                    && previous == Some(Handle { value: *it.seq()[j].1 }),
            ensures
                linked == exists|k: u64| #[trigger] self.xdic_by_handle@.contains_key(k) && k != owner.value
                    && previous == Some(Handle { value: self.xdic_by_handle@[k] }),
        {
            let ghost idx = it.index();
            let hit = *k != owner.value && match previous {
                Some(p) => p.value == *v,
                None => false,
            };
            proof {
                assert(it.seq()[idx] == (k, v));
            }
            if hit {
                linked = true;
            }
        }
        linked
    }
}

/// Copy of the dictionary stored under a handle, if that object is a plain dictionary.
fn dictionary_copy(document: &CadDocument, h: Option<Handle>) -> (r: Option<Dictionary>)
    ensures
        match h {
            Some(x) => match dictionary_at(document.objects@, x) {
                Some(d) => r matches Some(c) && c.handle == d.handle && c.owner == d.owner && c.model() == d.model()
                    && c.hard_owner == d.hard_owner && c.hard_keys() == d.hard_keys()
                    && c.xdictionary_handle == d.xdictionary_handle && c.reactors@ == d.reactors@,
                None => r is None,
            },
            None => r is None,
        },
{
    match h {
        Some(x) => match document.objects.get(&x.value) {
            Some(ObjectType::Dictionary(d)) => Some(d.copy()),
            _ => None,
        },
        None => None,
    }
}

/// The dictionary that `writable_dictionary` starts from: the plain dictionary under `previous`.
pub open spec fn writable_source(objects: Map<u64, ObjectType>, previous: Option<Handle>) -> Option<Dictionary> {
    match previous {
        Some(x) => dictionary_at(objects, x),
        None => None,
    }
}

/// Everything but the objects, the extension-dictionary links and the handle
/// seed, which does not go down, stays as it is.
pub open spec fn metadata_frame(a: CadDocument, b: CadDocument) -> bool {
    &&& a.version == b.version
    &&& a.maintenance_version == b.maintenance_version
    &&& a.header.named_objects_dict_handle == b.header.named_objects_dict_handle
    &&& a.header.acad_plotstylename_dict_handle == b.header.acad_plotstylename_dict_handle
    &&& a.header.acad_material_dict_handle == b.header.acad_material_dict_handle
    &&& a.header.handle_seed <= b.header.handle_seed
    &&& a.layers == b.layers
    &&& a.line_types == b.line_types
    &&& a.text_styles == b.text_styles
    &&& a.block_records == b.block_records
    &&& a.dim_styles == b.dim_styles
    &&& a.app_ids == b.app_ids
    &&& a.views == b.views
    &&& a.vports == b.vports
    &&& a.ucss == b.ucss
    &&& a.vx_table == b.vx_table
    &&& a.entities == b.entities
    &&& a.notifications == b.notifications
}

/// Objects and extension-dictionary links that were there stay as they were;
/// those added lie from `seed` on.
pub open spec fn only_added_from(a: CadDocument, b: CadDocument, seed: u64) -> bool {
    &&& forall|k: u64| #[trigger] a.objects@.contains_key(k) ==> b.objects@.contains_key(k) && b.objects@[k] == a.objects@[k]
    &&& forall|k: u64| #[trigger] b.objects@.contains_key(k) && !a.objects@.contains_key(k) ==> seed <= k
    &&& forall|k: u64| #[trigger] a.xdic_by_handle@.contains_key(k)
        ==> b.xdic_by_handle@.contains_key(k) && b.xdic_by_handle@[k] == a.xdic_by_handle@[k]
    &&& forall|k: u64| #[trigger] b.xdic_by_handle@.contains_key(k) && !a.xdic_by_handle@.contains_key(k) ==> seed <= k
}

/// `c`, stored under `h`, is the copy of `o` with the handles it holds
/// redirected by `m`: of the same kind, with the same keys, entries (their
/// handles remapped), references or fields (remapped).
pub open spec fn copy_redirected(c: ObjectType, o: ObjectType, h: Handle, m: Map<u64, u64>) -> bool {
    match (c, o) {
        (ObjectType::Dictionary(a), ObjectType::Dictionary(b)) => {
            &&& a.handle == h
            &&& a.model().len() == b.model().len()
            &&& forall|i: int| 0 <= i < a.model().len() ==> (#[trigger] a.model()[i]).0 == b.model()[i].0
        },
        (ObjectType::XRecord(a), ObjectType::XRecord(b)) => {
            &&& a.handle == h
            &&& a.model().len() == b.model().len()
            &&& forall|i: int| 0 <= i < b.model().len() ==> (#[trigger] a.model()[i]).code == b.model()[i].code
                && a.model()[i].value == remap_value(m, b.model()[i].value)
            &&& a.object_references@.len() == b.object_references@.len()
            &&& forall|i: int| 0 <= i < b.object_references@.len() ==> (#[trigger] a.object_references@[i]).handle
                == remap(m, b.object_references@[i].handle)
        },
        (ObjectType::Field(a), ObjectType::Field(b)) => a.handle == h && a.child_fields@ == remap_seq(m, b.child_fields@)
            && a.object_ids@ == remap_seq(m, b.object_ids@),
        (ObjectType::FieldList(a), ObjectType::FieldList(b)) => a.handle == h && a.fields@ == remap_seq(m, b.fields@),
        (ObjectType::DictionaryVariable(a), ObjectType::DictionaryVariable(b)) => a.handle == h
            && a.schema_number == b.schema_number,
        _ => false,
    }
}

/// The copies made when the dictionary `d` of the document `a` is copied as
/// `r`, giving the document `b`: `m` maps each source copied, `d` among them,
/// to its copy under a distinct fresh handle; each copy but `r` is stored in
/// `b` as a copy of its source with its handles redirected to the copies; each
/// entry of `d`, in its place, names the copy of its target when that target
/// was copied and keeps its target otherwise; each entry
/// that `d` owns (see `child_copied`) is copied; and the extension
/// dictionary is redirected likewise.
pub open spec fn copy_map(m: Map<u64, u64>, a: CadDocument, b: CadDocument, d: Dictionary, r: Dictionary) -> bool {
    &&& m.contains_key(d.handle.value)
    &&& m[d.handle.value] == r.handle.value
    &&& forall|k: u64| #[trigger] m.contains_key(k) ==> a.objects@.contains_key(k) && a.header.handle_seed <= m[k]
    &&& forall|k1: u64, k2: u64| #[trigger] m.contains_key(k1) && #[trigger] m.contains_key(k2) && k1 != k2 ==> m[k1] != m[k2]
    &&& forall|k: u64| #[trigger] m.contains_key(k) && k != d.handle.value ==> {
        &&& b.objects@.contains_key(m[k])
        &&& copy_redirected(b.objects@[m[k]], a.objects@[k], Handle { value: m[k] }, m)
    }
    &&& forall|i: int| 0 <= i < d.model().len()
        ==> (#[trigger] r.model()[i]).1 == remap(m, d.model()[i].1)
    &&& forall|i: int| 0 <= i < d.model().len()
        && #[trigger] child_copied(a.objects@, a.xdic_by_handle@, d.hard_owner, d.handle, d.model()[i].1, 1)
        ==> m.contains_key(d.model()[i].1.value)
    &&& r.xdictionary_handle == remap_option(m, extension_of(a.xdic_by_handle@, d.handle))
}

/// A dictionary that `owner` alone may change, to become its extension
/// dictionary. Copying reaches only handles within `copyable`, which bounds
/// how many handles it allocates. With no plain dictionary under `previous`, a new empty one
/// under a fresh handle. A dictionary that `owner` already owns and nothing
/// else uses is handed back as it is. Otherwise the dictionary is copied under
/// a fresh handle for `owner`, and the metadata it owns that can be copied
/// (see `clone_metadata`) is copied with it; references among the copies are
/// redirected to the copies, and foreign records stay shared. An entry whose
/// target the dictionary owns (it owns all its entries, or the target records
/// it as owner) and whose owned metadata can be copied names a fresh copy; an
/// entry that changes names a stored object or the new dictionary itself. The
/// objects that were there are left untouched.
pub(crate) fn writable_dictionary(
    document: &mut CadDocument,
    owner: Handle,
    previous: Option<Handle>,
    Ghost(copyable): Ghost<Set<u64>>,
) -> (r: Dictionary)
    requires
        old(document).handles_wf(),
        copy_closed(copyable, old(document).objects@, old(document).xdic_by_handle@),
        opt_within(copyable, old(document).objects@, previous),
        old(document).header.handle_seed + copyable.len() + 2 <= u64::MAX,
    ensures
        final(document).handles_wf(),
        metadata_frame(*old(document), *final(document)),
        only_added_from(*old(document), *final(document), old(document).header.handle_seed),
        final(document).header.handle_seed <= old(document).header.handle_seed + copyable.len() + 1,
        r.owner == owner,
        1 <= r.handle.value < final(document).header.handle_seed,
        model_refs_below(r.model(), final(document).header.handle_seed),
        opt_below(r.xdictionary_handle, final(document).header.handle_seed),
        match writable_source(old(document).objects@, previous) {
            None => {
                &&& r.handle.value == old(document).header.handle_seed
                &&& r.model().len() == 0
                &&& !r.hard_owner
                &&& r.hard_owned_keys@.len() == 0
                &&& r.xdictionary_handle is None
                &&& r.reactors@.len() == 0
                &&& final(document).header.handle_seed == old(document).header.handle_seed + 1
                &&& final(document).objects@ == old(document).objects@
                &&& final(document).xdic_by_handle@ == old(document).xdic_by_handle@
            },
            Some(d) => if d.owner == owner && d.handle.value != 0 && !shared_dictionary(*old(document), owner, previous) {
                &&& r.handle == d.handle
                &&& r.model() == d.model()
                &&& r.hard_owner == d.hard_owner
                &&& r.hard_keys() == d.hard_keys()
                &&& r.xdictionary_handle == d.xdictionary_handle
                &&& r.reactors@ == d.reactors@
                &&& *final(document) == *old(document)
            } else {
                &&& r.handle.value == old(document).header.handle_seed
                &&& !final(document).objects@.contains_key(r.handle.value)
                &&& !r.hard_owner
                &&& r.model().len() == d.model().len()
                &&& forall|i: int| 0 <= i < d.model().len() ==> (#[trigger] r.model()[i]).0 == d.model()[i].0
                    && (r.model()[i].1 == d.model()[i].1 || old(document).header.handle_seed <= r.model()[i].1.value)
                &&& r.xdictionary_handle is Some == extension_of(old(document).xdic_by_handle@, d.handle) is Some
                &&& (r.xdictionary_handle == extension_of(old(document).xdic_by_handle@, d.handle)
                    || old(document).header.handle_seed <= r.xdictionary_handle->0.value)
                &&& forall|i: int| 0 <= i < d.model().len() && child_copied(old(document).objects@,
                    old(document).xdic_by_handle@, d.hard_owner, d.handle, d.model()[i].1, 1)
                    ==> old(document).header.handle_seed <= (#[trigger] r.model()[i]).1.value
                &&& (extension_of(old(document).xdic_by_handle@, d.handle) is Some && cloneable_run(old(document).objects@,
                    old(document).xdic_by_handle@, seq![(extension_of(old(document).xdic_by_handle@, d.handle)->0, 1int)],
                    Set::empty())) ==> old(document).header.handle_seed <= r.xdictionary_handle->0.value
                &&& forall|i: int| 0 <= i < d.model().len() && (#[trigger] r.model()[i]).1 != d.model()[i].1
                    ==> r.model()[i].1 == r.handle || final(document).objects@.contains_key(r.model()[i].1.value)
                &&& r.xdictionary_handle != extension_of(old(document).xdic_by_handle@, d.handle)
                    ==> r.xdictionary_handle->0 == r.handle || final(document).objects@.contains_key(r.xdictionary_handle->0.value)
                &&& exists|m: Map<u64, u64>| copy_map(m, *old(document), *final(document), d, r)
            },
        },
{
    let ghost doc0 = *document;
    let existing = dictionary_copy(document, previous);
    let mut dictionary = match existing {
        Some(d) => d,
        None => {
            let mut d = Dictionary::new();
            d.handle = document.allocate_handle();
            d.owner = owner;
            proof {
                assert(d.model() =~= Seq::<(Seq<char>, Handle)>::empty());
                lemma_objects_wf_grow(document.objects@, doc0.header.handle_seed, document.header.handle_seed);
            }
            return d;
        },
    };
    let ghost d0 = dictionary;
    proof {
        let p = previous->0;
        assert(doc0.objects@.contains_key(p.value));
        assert(keyed(doc0.objects@[p.value], p.value));
        assert(refs_below(doc0.objects@[p.value], doc0.header.handle_seed));
        assert(copyable.contains(p.value));
        assert(refs_within(doc0.objects@[p.value], copyable, doc0.objects@));
    }
    let shared = document.dictionary_shared(owner, previous);
    if dictionary.owner.value == owner.value && !dictionary.handle.is_null() && !shared {
        return dictionary;
    }
    let source = dictionary.handle;
    dictionary.xdictionary_handle = document.extension_dictionary_handle(source);
    let ghost base = document.header.handle_seed;
    let ghost original = document.objects@;
    let target = document.allocate_handle();
    let mut remapped: HashMap<u64, u64> = HashMap::new();
    remapped.insert(source.value, target.value);
    dictionary.handle = target;
    dictionary.owner = owner;
    proof {
        lemma_objects_wf_grow(document.objects@, base, document.header.handle_seed);
        assert(remapped@.dom() =~= Set::<u64>::empty().insert(source.value));
        assert(copy_state(*document, original, copyable, base, source.value, remapped@));
    }
    clone_dictionary_children(document, &mut dictionary, source, &mut remapped, 0,
        Ghost(original), Ghost(copyable), Ghost(base), Ghost(source.value));
    proof {
        lemma_copies_counted(*document, original, copyable, base, source.value, remapped@);
    }
    let ghost after_clone = *document;
    let ghost m = remapped@;
    proof {
        assert forall|k: u64| #[trigger] m.contains_key(k) implies m[k] == target.value
            || after_clone.objects@.contains_key(m[k]) by {
            if k == source.value {
            }
        }
    }
    remap_new_objects(document, &remapped, target.value, target.value);
    link_copied_extensions(document, &remapped, Ghost(base));
    let ghost before_remap = dictionary;
    remap_entries(&remapped, &mut dictionary);
    remap_list(&remapped, &mut dictionary.reactors);
    proof {
        assert forall|i: int| 0 <= i < dictionary.model().len() implies (#[trigger] dictionary.model()[i]).1.value
            < document.header.handle_seed by {
            assert(before_remap.model()[i].1.value < document.header.handle_seed);
        }
        assert forall|i: int| 0 <= i < d0.model().len() implies (#[trigger] dictionary.model()[i]).0 == d0.model()[i].0
            && (dictionary.model()[i].1 == d0.model()[i].1 || base <= dictionary.model()[i].1.value) by {
            assert(before_remap.model()[i].1 == d0.model()[i].1 || base <= before_remap.model()[i].1.value);
        }
        assert forall|i: int| 0 <= i < d0.model().len() && (#[trigger] dictionary.model()[i]).1 != d0.model()[i].1
            implies dictionary.model()[i].1 == dictionary.handle || document.objects@.contains_key(dictionary.model()[i].1.value) by {
            let v = before_remap.model()[i].1;
            if m.contains_key(v.value) {
                assert(dictionary.model()[i].1.value == m[v.value]);
                assert(after_clone.objects@.contains_key(m[v.value]) ==> document.objects@.contains_key(m[v.value]));
            } else {
                assert(dictionary.model()[i].1 == v);
                assert(base <= v.value);
                let k = choose|k: u64| #[trigger] m.contains_key(k) && m[k] == v.value;
                assert(after_clone.objects@.contains_key(m[k]) ==> document.objects@.contains_key(m[k]));
            }
        }
        let fin = *document;
        let dd = dictionary_at(doc0.objects@, previous->0)->0;
        assert(dd.handle == d0.handle);
        assert(dd.model() == d0.model());
        assert(dd.hard_owner == d0.hard_owner);
        assert(original == doc0.objects@);
        assert forall|k: u64| #[trigger] m.contains_key(k) && k != dd.handle.value implies {
            &&& fin.objects@.contains_key(m[k])
            &&& copy_redirected(fin.objects@[m[k]], doc0.objects@[k], Handle { value: m[k] }, m)
        } by {
            assert(copy_stored(after_clone.objects@, original, m, k));
            assert(m[k] != target.value);
            assert(target.value <= m[k]);
            assert(after_clone.objects@.contains_key(m[k]));
            assert(remapped_object(m, after_clone.objects@[m[k]], fin.objects@[m[k]]));
            let c0 = after_clone.objects@[m[k]];
            let c1 = fin.objects@[m[k]];
            match (c1, doc0.objects@[k]) {
                (ObjectType::XRecord(a), ObjectType::XRecord(b)) => {
                    let a0 = c0->XRecord_0;
                    assert(a0.model() == b.model());
                    assert forall|i: int| 0 <= i < b.model().len() implies (#[trigger] a.model()[i]).code == b.model()[i].code
                        && a.model()[i].value == remap_value(m, b.model()[i].value) by {
                        assert(a0.model()[i] == b.model()[i]);
                    }
                    assert forall|i: int| 0 <= i < b.object_references@.len() implies (#[trigger] a.object_references@[i]).handle
                        == remap(m, b.object_references@[i].handle) by {
                        assert(a0.object_references@[i] == b.object_references@[i]);
                    }
                },
                (ObjectType::Dictionary(a), ObjectType::Dictionary(b)) => {
                    let a0 = c0->Dictionary_0;
                    assert forall|i: int| 0 <= i < a.model().len() implies (#[trigger] a.model()[i]).0 == b.model()[i].0 by {
                        assert(a0.model()[i].0 == b.model()[i].0);
                    }
                },
                _ => {},
            }
        }
        assert forall|i: int| 0 <= i < dd.model().len()
            implies (#[trigger] dictionary.model()[i]).1 == remap(m, dd.model()[i].1) by {
            assert(entry_remapped(m, d0.model()[i].1, before_remap.model()[i].1));
            let v = before_remap.model()[i].1;
            if v != d0.model()[i].1 {
                assert(!m.contains_key(v.value));
            }
        }
        assert(m.contains_key(dd.handle.value) && m[dd.handle.value] == dictionary.handle.value);
        assert(forall|k: u64| #[trigger] m.contains_key(k) ==> doc0.objects@.contains_key(k) && doc0.header.handle_seed <= m[k]);
        assert forall|i: int| 0 <= i < dd.model().len()
            && #[trigger] child_copied(doc0.objects@, doc0.xdic_by_handle@, dd.hard_owner, dd.handle, dd.model()[i].1, 1)
            implies m.contains_key(dd.model()[i].1.value) by {
            assert(d0.model()[i] == dd.model()[i]);
        }
        assert(dictionary.xdictionary_handle == remap_option(m, extension_of(doc0.xdic_by_handle@, dd.handle)));
        assert(copy_map(m, doc0, fin, dd, dictionary));
        assert forall|i: int| 0 <= i < d0.model().len() && child_copied(original, doc0.xdic_by_handle@, d0.hard_owner,
            d0.handle, d0.model()[i].1, 1) implies base <= (#[trigger] dictionary.model()[i]).1.value by {
            let v = before_remap.model()[i].1;
            assert(base <= v.value);
            assert(!remapped@.contains_key(v.value));
        }
    }
    dictionary
}

} // verus!
