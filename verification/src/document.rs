use vstd::prelude::*;
use std::collections::HashMap;
use crate::objects::dictionary::{Dictionary, DictionaryVariable, ObjectType, lookup, key_index_from, lemma_key_index_from, with_entry,
    entry_added};
use crate::objects::xrecord::refers_to;
use crate::types::{DxfVersion, Handle};
use crate::entities::entity::EntityType;
use crate::notification::NotificationCollection;
use crate::tables::{Layer, LineType, Table, TableEntry};

verus! {

broadcast use vstd::std_specs::hash::group_hash_axioms;

/// Header variables that locate the drawing's root objects, and the next free handle.
#[derive(Debug, Clone, PartialEq)]
pub struct HeaderVariables {
    /// Root of the named-object dictionary tree.
    pub named_objects_dict_handle: Handle,
    /// Dictionary of plot-style names.
    pub acad_plotstylename_dict_handle: Handle,
    /// Dictionary of materials.
    pub acad_material_dict_handle: Handle,
    /// Value of the next handle that `allocate_handle` gives out.
    pub handle_seed: u64,
}

/// A drawing database.
#[derive(Debug, Clone, PartialEq)]
pub struct CadDocument {
    pub version: DxfVersion,
    pub maintenance_version: u8,
    pub header: HeaderVariables,
    /// Non-graphical objects, keyed by handle value.
    pub objects: HashMap<u64, ObjectType>,
    pub layers: Table<Layer>,
    pub line_types: Table<LineType>,
    pub text_styles: Table<TableEntry>,
    pub block_records: Table<TableEntry>,
    pub dim_styles: Table<TableEntry>,
    pub app_ids: Table<TableEntry>,
    pub views: Table<TableEntry>,
    pub vports: Table<TableEntry>,
    pub ucss: Table<TableEntry>,
    pub vx_table: Table<TableEntry>,
    /// Graphical entities of the drawing.
    pub entities: Vec<EntityType>,
    pub notifications: NotificationCollection,
    /// Extension dictionary of an entity or object, by the owner's handle value.
    pub xdic_by_handle: HashMap<u64, u64>,
}

/// Two documents agree on everything but their entities.
pub open spec fn same_besides_entities(a: CadDocument, b: CadDocument) -> bool {
    &&& a.version == b.version
    &&& a.maintenance_version == b.maintenance_version
    &&& a.header == b.header
    &&& a.objects == b.objects
    &&& a.layers == b.layers
    &&& a.line_types == b.line_types
    &&& a.text_styles == b.text_styles
    &&& a.block_records == b.block_records
    &&& a.dim_styles == b.dim_styles
    &&& a.app_ids == b.app_ids
    &&& a.views == b.views
    &&& a.vports == b.vports
    &&& a.ucss == b.ucss
    &&& a.vx_table == b.vx_table
    &&& a.notifications == b.notifications
    &&& a.xdic_by_handle == b.xdic_by_handle
}

/// Two documents agree on everything but their header and object map.
pub open spec fn same_besides_objects(a: CadDocument, b: CadDocument) -> bool {
    &&& a.version == b.version
    &&& a.maintenance_version == b.maintenance_version
    &&& a.layers == b.layers
    &&& a.line_types == b.line_types
    &&& a.text_styles == b.text_styles
    &&& a.block_records == b.block_records
    &&& a.dim_styles == b.dim_styles
    &&& a.app_ids == b.app_ids
    &&& a.views == b.views
    &&& a.vports == b.vports
    &&& a.ucss == b.ucss
    &&& a.vx_table == b.vx_table
    &&& a.entities == b.entities
    &&& a.notifications == b.notifications
    &&& a.xdic_by_handle == b.xdic_by_handle
}

/// The dictionary stored under a handle, if that object is a plain dictionary.
pub open spec fn dictionary_at(objects: Map<u64, ObjectType>, h: Handle) -> Option<Dictionary> {
    if objects.contains_key(h.value) {
        match objects[h.value] {
            ObjectType::Dictionary(d) => Some(d),
            _ => None,
        }
    } else {
        None
    }
}

/// The dictionary variable stored under a handle, if that object is one.
pub open spec fn variable_at(objects: Map<u64, ObjectType>, h: Handle) -> Option<DictionaryVariable> {
    if objects.contains_key(h.value) {
        match objects[h.value] {
            ObjectType::DictionaryVariable(v) => Some(v),
            _ => None,
        }
    } else {
        None
    }
}

/// Every handle named by these dictionary entries lies below `seed`.
pub open spec fn model_refs_below(es: Seq<(Seq<char>, Handle)>, seed: u64) -> bool {
    forall|i: int| 0 <= i < es.len() ==> (#[trigger] es[i]).1.value < seed
}

/// An optional handle, when present, lies below `seed`.
pub open spec fn opt_below(h: Option<Handle>, seed: u64) -> bool {
    h matches Some(x) ==> x.value < seed
}

/// Every handle of a sequence lies below `seed`.
pub open spec fn all_below(hs: Seq<Handle>, seed: u64) -> bool {
    forall|i: int| 0 <= i < hs.len() ==> (#[trigger] hs[i]).value < seed
}

/// Every handle an object refers to through its dictionary entries, its
/// references or its children, and its extension dictionary (also that of a
/// dynamic block), lies below `seed`.
pub open spec fn refs_below(o: ObjectType, seed: u64) -> bool {
    match o {
        ObjectType::Dictionary(d) => model_refs_below(d.model(), seed) && opt_below(d.xdictionary_handle, seed),
        ObjectType::DictionaryWithDefault(d) => model_refs_below(d.model(), seed) && opt_below(d.xdictionary_handle, seed),
        ObjectType::XRecord(r) => (forall|h: Handle| #[trigger] refers_to(r, h) ==> h.value < seed)
            && opt_below(r.xdictionary_handle, seed),
        ObjectType::Field(f) => all_below(f.child_fields@, seed),
        ObjectType::FieldList(l) => all_below(l.fields@, seed),
        ObjectType::DynamicBlock(b) => opt_below(b.xdictionary_handle, seed),
        _ => true,
    }
}

/// Every owner with a recorded extension dictionary, and that dictionary, lie below `seed`.
pub open spec fn xdic_below(xdic: Map<u64, u64>, seed: u64) -> bool {
    forall|k: u64| #[trigger] xdic.contains_key(k) ==> k < seed && xdic[k] < seed
}

/// A plain dictionary stored under `k` records `k` as its handle.
pub open spec fn keyed(o: ObjectType, k: u64) -> bool {
    o matches ObjectType::Dictionary(d) ==> d.handle.value == k
}

/// Every object handle is non-null and below `seed`, and so is every handle
/// that an object refers to; a plain dictionary records its own handle.
pub open spec fn objects_wf(objects: Map<u64, ObjectType>, seed: u64) -> bool {
    forall|k: u64| #[trigger] objects.contains_key(k) ==> {
        &&& 1 <= k < seed
        &&& refs_below(objects[k], seed)
        &&& keyed(objects[k], k)
    }
}

/// A handle found in entries whose references lie below `seed` lies below `seed` too.
pub proof fn lemma_lookup_below(es: Seq<(Seq<char>, Handle)>, key: Seq<char>, seed: u64)
    requires
        model_refs_below(es, seed),
    ensures
        lookup(es, key) matches Some(h) ==> h.value < seed,
{
    lemma_key_index_from(es, key, 0);
    let i = key_index_from(es, key, 0);
    if i < es.len() {
        assert(es[i].1.value < seed);
    }
}

/// References below a seed lie below every larger seed.
pub proof fn lemma_refs_below_grow(o: ObjectType, s: u64, t: u64)
    requires
        refs_below(o, s),
        s <= t,
    ensures
        refs_below(o, t),
{
    match o {
        ObjectType::Dictionary(d) => {
            assert forall|i: int| 0 <= i < d.model().len() implies (#[trigger] d.model()[i]).1.value < t by {
                assert(d.model()[i].1.value < s);
            }
        },
        ObjectType::DictionaryWithDefault(d) => {
            assert forall|i: int| 0 <= i < d.model().len() implies (#[trigger] d.model()[i]).1.value < t by {
                assert(d.model()[i].1.value < s);
            }
        },
        ObjectType::Field(f) => {
            assert forall|i: int| 0 <= i < f.child_fields@.len() implies (#[trigger] f.child_fields@[i]).value < t by {
                assert(f.child_fields@[i].value < s);
            }
        },
        ObjectType::FieldList(l) => {
            assert forall|i: int| 0 <= i < l.fields@.len() implies (#[trigger] l.fields@[i]).value < t by {
                assert(l.fields@[i].value < s);
            }
        },
        _ => {},
    }
}

/// Raising the seed keeps a well-formed object map well formed.
pub proof fn lemma_objects_wf_grow(objects: Map<u64, ObjectType>, s: u64, t: u64)
    requires
        objects_wf(objects, s),
        s <= t,
    ensures
        objects_wf(objects, t),
{
    assert forall|k: u64| #[trigger] objects.contains_key(k) implies 1 <= k < t && refs_below(objects[k], t)
        && keyed(objects[k], k) by {
        lemma_refs_below_grow(objects[k], s, t);
    }
}

/// Storing an object under a non-null handle below `seed`, whose references lie
/// below `seed`, keeps the object map well formed.
pub proof fn lemma_objects_wf_insert(objects: Map<u64, ObjectType>, seed: u64, k: u64, o: ObjectType)
    requires
        objects_wf(objects, seed),
        1 <= k < seed,
        refs_below(o, seed),
        keyed(o, k),
    ensures
        objects_wf(objects.insert(k, o), seed),
{
    let m = objects.insert(k, o);
    assert forall|j: u64| #[trigger] m.contains_key(j) implies 1 <= j < seed && refs_below(m[j], seed) && keyed(m[j], j) by {
        if j != k {
            assert(objects.contains_key(j));
        }
    }
}

/// Removing an object keeps the object map well formed.
pub proof fn lemma_objects_wf_remove(objects: Map<u64, ObjectType>, seed: u64, k: u64)
    requires
        objects_wf(objects, seed),
    ensures
        objects_wf(objects.remove(k), seed),
{
    let m = objects.remove(k);
    assert forall|j: u64| #[trigger] m.contains_key(j) implies 1 <= j < seed && refs_below(m[j], seed) && keyed(m[j], j) by {
        assert(objects.contains_key(j));
    }
}

/// Adding an entry whose handle lies below `seed` keeps every reference below `seed`.
pub proof fn lemma_with_entry_refs(es: Seq<(Seq<char>, Handle)>, key: Seq<char>, h: Handle, seed: u64)
    requires
        model_refs_below(es, seed),
        h.value < seed,
    ensures
        model_refs_below(with_entry(es, key, h), seed),
{
    let es2 = with_entry(es, key, h);
    let k = key_index_from(es, key, 0);
    lemma_key_index_from(es, key, 0);
    assert forall|i: int| 0 <= i < es2.len() implies (#[trigger] es2[i]).1.value < seed by {
        if k < es.len() {
            assert(es2 == es.update(k, (key, h)));
            if i != k {
                assert(es2[i] == es[i]);
            }
        } else {
            assert(es2 == es.push((key, h)));
            if i < es.len() {
                assert(es2[i] == es[i]);
            }
        }
    }
}

impl CadDocument {
    /// Every object handle is non-null and below the handle seed, so freshly
    /// allocated handles never name an existing object.
    pub open spec fn handles_wf(&self) -> bool {
        &&& 1 <= self.header.handle_seed
        &&& self.header.named_objects_dict_handle.value < self.header.handle_seed
        &&& objects_wf(self.objects@, self.header.handle_seed)
        &&& xdic_below(self.xdic_by_handle@, self.header.handle_seed)
    }

    /// An empty document of the given version, whose first allocated handle is 1.
    pub fn with_version(version: DxfVersion) -> (d: Self)
        ensures
            d.version == version,
            d.maintenance_version == 0,
            d.header.named_objects_dict_handle.value == 0,
            d.header.acad_plotstylename_dict_handle.value == 0,
            d.header.acad_material_dict_handle.value == 0,
            d.header.handle_seed == 1,
            d.objects@ == Map::<u64, ObjectType>::empty(),
            d.layers.entries@.len() == 0,
            d.line_types.entries@.len() == 0,
            d.text_styles.entries@.len() == 0,
            d.block_records.entries@.len() == 0,
            d.dim_styles.entries@.len() == 0,
            d.app_ids.entries@.len() == 0,
            d.views.entries@.len() == 0,
            d.vports.entries@.len() == 0,
            d.ucss.entries@.len() == 0,
            d.vx_table.entries@.len() == 0,
            d.entities@.len() == 0,
            d.notifications.items@.len() == 0,
            d.xdic_by_handle@ == Map::<u64, u64>::empty(),
            d.handles_wf(),
    {
        CadDocument {
            version,
            maintenance_version: 0,
            header: HeaderVariables {
                named_objects_dict_handle: Handle::null(),
                acad_plotstylename_dict_handle: Handle::null(),
                acad_material_dict_handle: Handle::null(),
                handle_seed: 1,
            },
            objects: HashMap::new(),
            layers: Table::new(),
            line_types: Table::new(),
            text_styles: Table::new(),
            block_records: Table::new(),
            dim_styles: Table::new(),
            app_ids: Table::new(),
            views: Table::new(),
            vports: Table::new(),
            ucss: Table::new(),
            vx_table: Table::new(),
            entities: Vec::new(),
            notifications: NotificationCollection::new(),
            xdic_by_handle: HashMap::new(),
        }
    }

    /// Hand out the next free handle and advance the seed.
    pub fn allocate_handle(&mut self) -> (h: Handle)
        requires
            old(self).header.handle_seed < u64::MAX,
        ensures
            h.value == old(self).header.handle_seed,
            final(self).header.handle_seed == old(self).header.handle_seed + 1,
            final(self).header.named_objects_dict_handle == old(self).header.named_objects_dict_handle,
            final(self).header.acad_plotstylename_dict_handle == old(self).header.acad_plotstylename_dict_handle,
            final(self).header.acad_material_dict_handle == old(self).header.acad_material_dict_handle,
            final(self).objects == old(self).objects,
            same_besides_objects(*final(self), *old(self)),
    {
        let h = Handle::new(self.header.handle_seed);
        self.header.handle_seed = self.header.handle_seed + 1;
        h
    }

    /// Add or repoint an entry of the dictionary stored under `dictionary`.
    pub(crate) fn add_dictionary_entry(&mut self, dictionary: Handle, key: &str, target: Handle)
        requires
            dictionary_at(old(self).objects@, dictionary) is Some,
        ensures
            final(self).objects@.dom() == old(self).objects@.dom(),
            forall|k: u64| k != dictionary.value && #[trigger] old(self).objects@.contains_key(k)
                ==> final(self).objects@[k] == old(self).objects@[k],
            dictionary_at(final(self).objects@, dictionary) is Some,
            dictionary_at(final(self).objects@, dictionary)->0.model()
                == with_entry(dictionary_at(old(self).objects@, dictionary)->0.model(), key@, target),
            dictionary_at(final(self).objects@, dictionary)->0.handle == dictionary_at(old(self).objects@, dictionary)->0.handle,
            dictionary_at(final(self).objects@, dictionary)->0.owner == dictionary_at(old(self).objects@, dictionary)->0.owner,
            entry_added(old(self).objects@[dictionary.value], final(self).objects@[dictionary.value], key@, target),
            final(self).header == old(self).header,
            same_besides_objects(*final(self), *old(self)),
            objects_wf(old(self).objects@, old(self).header.handle_seed) && target.value < old(self).header.handle_seed
                ==> objects_wf(final(self).objects@, final(self).header.handle_seed),
    {
        let ghost before = self.objects@;
        let ghost seed = self.header.handle_seed;
        let removed = self.objects.remove(&dictionary.value);
        match removed {
            Some(ObjectType::Dictionary(mut d)) => {
                let ghost d0 = d;
                d.add_entry(key, target);
                self.objects.insert(dictionary.value, ObjectType::Dictionary(d));
                assert(self.objects@.dom() =~= before.dom());
                proof {
                    if objects_wf(before, seed) && target.value < seed {
                        assert(before.contains_key(dictionary.value));
                        lemma_with_entry_refs(d0.model(), key@, target, seed);
                        assert(before.remove(dictionary.value).insert(dictionary.value, ObjectType::Dictionary(d))
                            =~= before.insert(dictionary.value, ObjectType::Dictionary(d)));
                        lemma_objects_wf_insert(before, seed, dictionary.value, ObjectType::Dictionary(d));
                    }
                }
            },
            _ => {
                assert(false);
            },
        }
    }
}

} // verus!
