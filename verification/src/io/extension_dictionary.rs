//! Extension dictionaries that hold the library's own records, and the
//! copying of owned metadata when a dictionary is shared.

use vstd::prelude::*;
use crate::document::{CadDocument, dictionary_at, same_besides_objects};
use crate::objects::dictionary::{Dictionary, ObjectType, lookup, without_key, without_exact};
use crate::objects::xrecord::references_of;
use crate::io::surface_history::extension_of;
use std::collections::HashSet;
use crate::types::Handle;

verus! {

broadcast use vstd::std_specs::hash::group_hash_axioms;

/// Some plain dictionary other than the one under `exclude` has an entry that names `target`.
pub open spec fn named_elsewhere(objects: Map<u64, ObjectType>, exclude: Handle, target: Handle) -> bool {
    exists|k: u64| #[trigger] objects.contains_key(k) && names_from(k, objects[k], exclude, target)
}

/// A plain dictionary, stored under a handle other than `exclude`, that names `target`.
pub open spec fn names_from(k: u64, o: ObjectType, exclude: Handle, target: Handle) -> bool {
    k != exclude.value && match o {
        ObjectType::Dictionary(d) => names_handle(d.model(), target),
        _ => false,
    }
}

/// An entry names `target`.
pub open spec fn names_handle(es: Seq<(Seq<char>, Handle)>, target: Handle) -> bool {
    exists|i: int| 0 <= i < es.len() && (#[trigger] es[i]).1 == target
}

/// Whether a dictionary has an entry that names `target`.
fn dictionary_names(d: &Dictionary, target: Handle) -> (b: bool)
    ensures
        b == names_handle(d.model(), target),
{
    let mut i: usize = 0;
    while i < d.entries.len()
        invariant
            i <= d.entries@.len(),
            forall|j: int| 0 <= j < i ==> (#[trigger] d.model()[j]).1 != target,
        decreases d.entries@.len() - i,
    {
        assert(d.model()[i as int].1 == d.entries@[i as int].1);
        if d.entries[i].1.value == target.value {
            assert(d.model()[i as int].1 == target);
            return true;
        }
        i += 1;
    }
    false
}

impl CadDocument {
    /// Whether a plain dictionary other than the one under `exclude` names `target`.
    fn named_elsewhere(&self, exclude: Handle, target: Handle) -> (b: bool)
        ensures
            b == named_elsewhere(self.objects@, exclude, target),
    {
        let mut found = false;
        for (k, o) in it: self.objects.iter()
            invariant
                forall|j: int| 0 <= j < it.seq().len() ==> self.objects@.contains_key(*(#[trigger] it.seq()[j]).0)
                    && self.objects@[*it.seq()[j].0] == *it.seq()[j].1,
                forall|key: u64| #[trigger] self.objects@.contains_key(key) ==> it.seq().contains((&key, &self.objects@[key])),
                found == exists|j: int| 0 <= j < it.index()
                    && #[trigger] names_from(*it.seq()[j].0, *it.seq()[j].1, exclude, target),
            ensures
                found == named_elsewhere(self.objects@, exclude, target),
        {
            let ghost idx = it.index();
            let hit = *k != exclude.value && match o {
                ObjectType::Dictionary(d) => dictionary_names(d, target),
                _ => false,
            };
            proof {
                assert(names_from(*it.seq()[idx].0, *it.seq()[idx].1, exclude, target) == hit);
            }
            if hit {
                found = true;
            }
        }
        found
    }
}

/// The dictionary under `dictionary` has an entry with the given key.
pub open spec fn has_record_spec(objects: Map<u64, ObjectType>, dictionary: Option<Handle>, key: Seq<char>) -> bool {
    match dictionary {
        Some(h) => match dictionary_at(objects, h) {
            Some(d) => lookup(d.model(), key) is Some,
            None => false,
        },
        None => false,
    }
}

/// Whether the dictionary under `dictionary` has an entry with the given key.
pub fn has_record(document: &CadDocument, dictionary: Option<Handle>, key: &str) -> (b: bool)
    ensures
        b == has_record_spec(document.objects@, dictionary, key@),
{
    match dictionary {
        Some(h) => match document.objects.get(&h.value) {
            Some(ObjectType::Dictionary(d)) => d.get(key).is_some(),
            _ => false,
        },
        None => false,
    }
}

/// The record named by `handle` is deleted with the entry: no entry of the
/// dictionary names it any more, it is an XRecord that the dictionary owns, and
/// no other plain dictionary names it.
pub open spec fn record_orphaned(
    objects: Map<u64, ObjectType>,
    dictionary: Dictionary,
    handle: Handle,
) -> bool {
    &&& !names_handle(dictionary.model(), handle)
    &&& objects.contains_key(handle.value)
    &&& objects[handle.value] matches ObjectType::XRecord(r) && r.owner == dictionary.handle
    &&& !named_elsewhere(objects, dictionary.handle, handle)
}

/// Remove a key from a dictionary, and delete its record when nothing else refers to it.
pub fn remove_record(document: &mut CadDocument, dictionary: &mut Dictionary, key: &str)
    ensures
        final(dictionary).model() == without_key(old(dictionary).model(), key@),
        final(dictionary).hard_keys() == without_exact(old(dictionary).hard_keys(), key@),
        final(dictionary).handle == old(dictionary).handle,
        final(dictionary).owner == old(dictionary).owner,
        final(dictionary).hard_owner == old(dictionary).hard_owner,
        final(dictionary).xdictionary_handle == old(dictionary).xdictionary_handle,
        final(dictionary).reactors == old(dictionary).reactors,
        final(document).objects@ == (match lookup(old(dictionary).model(), key@) {
            Some(h) => if record_orphaned(old(document).objects@, *final(dictionary), h) {
                old(document).objects@.remove(h.value)
            } else {
                old(document).objects@
            },
            None => old(document).objects@,
        }),
        final(document).header == old(document).header,
        same_besides_objects(*final(document), *old(document)),
{
    let old_handle = dictionary.get(key);
    dictionary.remove_entries(key);
    dictionary.set_entry_hard_owner(key, false);
    match old_handle {
        Some(handle) => {
            let owned = match document.objects.get(&handle.value) {
                Some(ObjectType::XRecord(record)) => record.owner.value == dictionary.handle.value,
                _ => false,
            };
            if !dictionary_names(dictionary, handle) && owned && !document.named_elsewhere(dictionary.handle, handle) {
                document.objects.remove(&handle.value);
            }
        },
        None => {},
    }
}

/// Owner of the object under a handle, for objects that record one.
pub open spec fn owner_of(objects: Map<u64, ObjectType>, h: Handle) -> Option<Handle> {
    if objects.contains_key(h.value) {
        match objects[h.value] {
            ObjectType::Dictionary(d) => Some(d.owner),
            ObjectType::DictionaryWithDefault(d) => Some(d.owner),
            ObjectType::DictionaryVariable(v) => Some(v.owner_handle),
            ObjectType::XRecord(r) => Some(r.owner),
            ObjectType::DynamicBlock(b) => Some(b.owner),
            ObjectType::Field(f) => Some(f.owner),
            ObjectType::FieldList(l) => Some(l.owner),
            ObjectType::Other { .. } => None,
        }
    } else {
        None
    }
}

impl CadDocument {
    /// Owner of the object under a handle, for objects that record one.
    pub fn object_owner(&self, h: Handle) -> (r: Option<Handle>)
        ensures
            r == owner_of(self.objects@, h),
    {
        match self.objects.get(&h.value) {
            Some(ObjectType::Dictionary(d)) => Some(d.owner),
            Some(ObjectType::DictionaryWithDefault(d)) => Some(d.owner),
            Some(ObjectType::DictionaryVariable(v)) => Some(v.owner_handle),
            Some(ObjectType::XRecord(r)) => Some(r.owner),
            Some(ObjectType::DynamicBlock(b)) => Some(b.owner),
            Some(ObjectType::Field(f)) => Some(f.owner),
            Some(ObjectType::FieldList(l)) => Some(l.owner),
            _ => None,
        }
    }

    /// Extension dictionary recorded for an owner.
    pub fn extension_dictionary_handle(&self, owner: Handle) -> (r: Option<Handle>)
        ensures
            r == extension_of(self.xdic_by_handle@, owner),
    {
        match self.xdic_by_handle.get(&owner.value) {
            Some(x) => Some(Handle::new(*x)),
            None => None,
        }
    }
}

/// The handles among `hs` whose object is owned by `parent`, in order.
pub open spec fn owned_by(objects: Map<u64, ObjectType>, hs: Seq<Handle>, parent: Handle) -> Seq<Handle>
    decreases hs.len(),
{
    if hs.len() == 0 {
        hs
    } else if owner_of(objects, hs.last()) == Some(parent) {
        owned_by(objects, hs.drop_last(), parent).push(hs.last())
    } else {
        owned_by(objects, hs.drop_last(), parent)
    }
}

/// The handle of an optional reference, as a sequence of zero or one.
pub open spec fn opt_seq(h: Option<Handle>) -> Seq<Handle> {
    match h {
        Some(x) => seq![x],
        None => Seq::empty(),
    }
}

/// The metadata a node owns, in the order it is explored, or none when the node
/// is not metadata that can be copied: a missing object, an XRecord whose
/// entries were not all read, or an object of another kind.
pub open spec fn clone_children(objects: Map<u64, ObjectType>, xdic: Map<u64, u64>, h: Handle) -> Option<Seq<Handle>> {
    let ext = opt_seq(extension_of(xdic, h));
    if !objects.contains_key(h.value) {
        None
    } else {
        match objects[h.value] {
            ObjectType::Dictionary(d) => Some(ext + opt_seq(d.xdictionary_handle)),
            ObjectType::XRecord(r) => if r.entries_complete {
                Some(ext + owned_by(objects, references_of(r), h) + opt_seq(r.xdictionary_handle))
            } else {
                None
            },
            ObjectType::Field(f) => Some(ext + f.child_fields@),
            ObjectType::FieldList(l) => Some(ext + owned_by(objects, l.fields@, h)),
            ObjectType::DictionaryVariable(_) => Some(ext),
            _ => None,
        }
    }
}

/// Handles paired with a depth.
pub open spec fn at_depth(hs: Seq<Handle>, d: int) -> Seq<(Handle, int)> {
    hs.map_values(|h: Handle| (h, d))
}

/// Depth-first exploration of owned metadata from the pending nodes (explored
/// last first), skipping nodes already seen: it succeeds when every node
/// reached is copyable metadata first reached at depth 128 or less.
pub open spec fn cloneable_run(
    objects: Map<u64, ObjectType>,
    xdic: Map<u64, u64>,
    pending: Seq<(Handle, int)>,
    seen: Set<u64>,
) -> bool
    decreases objects.dom().difference(seen).len(), pending.len(),
    when objects.dom().finite()
{
    if pending.len() == 0 {
        true
    } else {
        let (h, d) = pending.last();
        if seen.contains(h.value) {
            cloneable_run(objects, xdic, pending.drop_last(), seen)
        } else if d > 128 {
            false
        } else {
            match clone_children(objects, xdic, h) {
                None => false,
                Some(cs) => {
                    proof {
                        lemma_unseen_shrinks(objects.dom(), seen, h.value);
                    }
                    cloneable_run(objects, xdic, pending.drop_last() + at_depth(cs, d + 1), seen.insert(h.value))
                },
            }
        }
    }
}

/// Seeing one more element of a finite set leaves fewer unseen.
pub proof fn lemma_unseen_shrinks(dom: Set<u64>, seen: Set<u64>, k: u64)
    requires
        dom.finite(),
        dom.contains(k),
        !seen.contains(k),
    ensures
        dom.difference(seen.insert(k)).len() < dom.difference(seen).len(),
{
    broadcast use vstd::set_lib::group_set_properties;
    assert(dom.difference(seen.insert(k)) =~= dom.difference(seen).remove(k));
    assert(dom.difference(seen).contains(k));
}

/// Model of a list of pending nodes.
pub open spec fn pending_model(v: Seq<(Handle, usize)>) -> Seq<(Handle, int)> {
    v.map_values(|p: (Handle, usize)| (p.0, p.1 as int))
}

/// Push the handles among `hs` that the object under `parent` owns, at depth `d`.
fn push_owned(document: &CadDocument, pending: &mut Vec<(Handle, usize)>, hs: &Vec<Handle>, parent: Handle, d: usize)
    ensures
        pending_model(final(pending)@) == pending_model(old(pending)@)
            + at_depth(owned_by(document.objects@, hs@, parent), d as int),
{
    let ghost base = pending_model(pending@);
    let mut i: usize = 0;
    while i < hs.len()
        invariant
            i <= hs@.len(),
            pending_model(pending@) == base + at_depth(owned_by(document.objects@, hs@.take(i as int), parent), d as int),
        decreases hs@.len() - i,
    {
        proof {
            assert(hs@.take(i + 1).drop_last() =~= hs@.take(i as int));
            assert(hs@.take(i + 1).last() == hs@[i as int]);
        }
        let ghost before = pending_model(pending@);
        let owner = document.object_owner(hs[i]);
        let owned = match owner {
            Some(o) => o.value == parent.value,
            None => false,
        };
        if owned {
            pending.push((hs[i], d));
            assert(pending_model(pending@) =~= before.push((hs@[i as int], d as int)));
            assert(at_depth(owned_by(document.objects@, hs@.take(i + 1), parent), d as int)
                =~= at_depth(owned_by(document.objects@, hs@.take(i as int), parent), d as int).push((hs@[i as int], d as int)));
        }
        i += 1;
    }
    assert(hs@.take(hs@.len() as int) =~= hs@);
}

/// Push all of `hs` at depth `d`.
fn push_all(pending: &mut Vec<(Handle, usize)>, hs: &Vec<Handle>, d: usize)
    ensures
        pending_model(final(pending)@) == pending_model(old(pending)@) + at_depth(hs@, d as int),
{
    let ghost base = pending_model(pending@);
    let mut i: usize = 0;
    while i < hs.len()
        invariant
            i <= hs@.len(),
            pending_model(pending@) == base + at_depth(hs@.take(i as int), d as int),
        decreases hs@.len() - i,
    {
        let ghost before = pending_model(pending@);
        pending.push((hs[i], d));
        assert(pending_model(pending@) =~= before.push((hs@[i as int], d as int)));
        assert(at_depth(hs@.take(i + 1), d as int) =~= at_depth(hs@.take(i as int), d as int).push((hs@[i as int], d as int)));
        i += 1;
    }
    assert(hs@.take(hs@.len() as int) =~= hs@);
}

/// Push an optional handle at depth `d`.
fn push_opt(pending: &mut Vec<(Handle, usize)>, h: Option<Handle>, d: usize)
    ensures
        pending_model(final(pending)@) == pending_model(old(pending)@) + at_depth(opt_seq(h), d as int),
{
    let ghost before = pending_model(pending@);
    match h {
        Some(x) => {
            pending.push((x, d));
            assert(pending_model(pending@) =~= before + at_depth(opt_seq(h), d as int));
        },
        None => {
            assert(pending_model(pending@) =~= before + at_depth(opt_seq(h), d as int));
        },
    }
}

/// Whether the metadata owned from `source` can be copied (see `cloneable_run`).
pub fn cloneable_metadata(document: &CadDocument, source: Handle, depth: usize) -> (r: bool)
    ensures
        r == cloneable_run(document.objects@, document.xdic_by_handle@, seq![(source, depth as int)], Set::empty()),
{
    let ghost objects = document.objects@;
    let ghost xdic = document.xdic_by_handle@;
    let mut pending: Vec<(Handle, usize)> = Vec::new();
    pending.push((source, depth));
    let mut seen: HashSet<u64> = HashSet::new();
    proof {
        assert(pending_model(pending@) =~= seq![(source, depth as int)]);
        assert(seen@ =~= Set::<u64>::empty());
    }
    loop
        invariant
            objects == document.objects@,
            xdic == document.xdic_by_handle@,
            objects.dom().finite(),
            cloneable_run(objects, xdic, pending_model(pending@), seen@)
                == cloneable_run(objects, xdic, seq![(source, depth as int)], Set::empty()),
        decreases objects.dom().difference(seen@).len(), pending@.len(),
    {
        let ghost pm = pending_model(pending@);
        let ghost seen0 = seen@;
        let (h, d) = match pending.pop() {
            Some(x) => x,
            None => {
                return true;
            },
        };
        proof {
            assert(pending_model(pending@) =~= pm.drop_last());
            assert(pm.last() == (h, d as int));
        }
        if !seen.insert(h.value) {
            assert(seen@ =~= seen0);
            continue;
        }
        if d > 128 {
            return false;
        }
        let ghost rest = pending_model(pending@);
        let ext = document.extension_dictionary_handle(h);
        push_opt(&mut pending, ext, d + 1);
        match document.objects.get(&h.value) {
            Some(ObjectType::Dictionary(v)) => {
                push_opt(&mut pending, v.xdictionary_handle, d + 1);
            },
            Some(ObjectType::XRecord(v)) => {
                if !v.entries_complete {
                    return false;
                }
                let refs = v.get_references();
                push_owned(document, &mut pending, &refs, h, d + 1);
                push_opt(&mut pending, v.xdictionary_handle, d + 1);
            },
            Some(ObjectType::Field(v)) => {
                push_all(&mut pending, &v.child_fields, d + 1);
            },
            Some(ObjectType::FieldList(v)) => {
                push_owned(document, &mut pending, &v.fields, h, d + 1);
            },
            Some(ObjectType::DictionaryVariable(_)) => {},
            _ => {
                return false;
            },
        }
        proof {
            let cs = clone_children(objects, xdic, h)->0;
            assert(pending_model(pending@) =~= rest + at_depth(cs, d + 1));
            lemma_unseen_shrinks(objects.dom(), seen0, h.value);
        }
    }
}

} // verus!
