use vstd::prelude::*;
use crate::objects::xrecord::XRecord;
use crate::objects::solid_history::SolidHistoryLoft;
use crate::text::{str_eq, eq_ci, eq_ignore_ascii_case};
use crate::types::Handle;

verus! {

/// Model of dictionary entries: each key's characters and the handle it names.
pub open spec fn entries_view(es: Seq<(String, Handle)>) -> Seq<(Seq<char>, Handle)> {
    es.map_values(|e: (String, Handle)| (e.0@, e.1))
}

/// Index of the first entry at or after `k` whose key equals `key` (`es.len()` when none).
pub open spec fn key_index_from(es: Seq<(Seq<char>, Handle)>, key: Seq<char>, k: int) -> int
    decreases es.len() - k,
{
    if k < 0 || k >= es.len() {
        es.len() as int
    } else if es[k].0 == key {
        k
    } else {
        key_index_from(es, key, k + 1)
    }
}

/// Handle that the first entry with the given key names.
pub open spec fn lookup(es: Seq<(Seq<char>, Handle)>, key: Seq<char>) -> Option<Handle> {
    let k = key_index_from(es, key, 0);
    if k < es.len() {
        Some(es[k].1)
    } else {
        None
    }
}

/// Entries after `add_entry(key, handle)`: the first entry with the key takes the handle,
/// or the entry is appended.
pub open spec fn with_entry(es: Seq<(Seq<char>, Handle)>, key: Seq<char>, handle: Handle) -> Seq<(Seq<char>, Handle)> {
    let k = key_index_from(es, key, 0);
    if k < es.len() {
        es.update(k, (key, handle))
    } else {
        es.push((key, handle))
    }
}

/// What `key_index_from` finds: the first position at or after `k` whose key
/// matches, or the length when none does.
pub proof fn lemma_key_index_from(es: Seq<(Seq<char>, Handle)>, key: Seq<char>, k: int)
    requires
        0 <= k <= es.len(),
    ensures
        k <= key_index_from(es, key, k) <= es.len(),
        key_index_from(es, key, k) < es.len() ==> es[key_index_from(es, key, k)].0 == key,
        forall|j: int| k <= j < key_index_from(es, key, k) ==> #[trigger] es[j].0 != key,
    decreases es.len() - k,
{
    if k < es.len() && es[k].0 != key {
        lemma_key_index_from(es, key, k + 1);
    }
}

/// After `add_entry(key, handle)` the key names `handle`, and every other key
/// names what it named before.
pub proof fn law_lookup_after_add_entry(es: Seq<(Seq<char>, Handle)>, key: Seq<char>, handle: Handle, other: Seq<char>)
    ensures
        lookup(with_entry(es, key, handle), key) == Some(handle),
        other != key ==> lookup(with_entry(es, key, handle), other) == lookup(es, other),
{
    let es2 = with_entry(es, key, handle);
    lemma_key_index_from(es, key, 0);
    lemma_key_index_from(es2, key, 0);
    lemma_key_index_from(es, other, 0);
    lemma_key_index_from(es2, other, 0);
    let i = key_index_from(es, key, 0);
    let i2 = key_index_from(es2, key, 0);
    if i2 < i {
        assert(es2[i2] == es[i2]);
    }
    if i < es.len() {
        assert(es2[i].0 == key);
    } else {
        assert(es2[es.len() as int].0 == key);
    }
    if other != key {
        let o = key_index_from(es, other, 0);
        let o2 = key_index_from(es2, other, 0);
        if o < es.len() {
            assert(es2[o].0 == es[o].0);
            if o2 < o {
                assert(es2[o2].0 == es[o2].0);
            }
        }
        if o2 < es.len() {
            assert(es2[o2].0 == es[o2].0);
            if o < o2 {
                assert(es2[o].0 == es[o].0);
            }
        }
    }
}

/// `b` is the dictionary `a` with the entry `key` added or pointed at `h`,
/// and nothing else changed.
pub open spec fn entry_added(a: ObjectType, b: ObjectType, key: Seq<char>, h: Handle) -> bool {
    match (a, b) {
        (ObjectType::Dictionary(x), ObjectType::Dictionary(y)) => {
            &&& y.model() == with_entry(x.model(), key, h)
            &&& y.handle == x.handle
            &&& y.owner == x.owner
            &&& y.hard_owner == x.hard_owner
            &&& y.hard_owned_keys == x.hard_owned_keys
            &&& y.xdictionary_handle == x.xdictionary_handle
            &&& y.reactors == x.reactors
        },
        _ => false,
    }
}

/// `b` is the drawing variable `a` holding `value`, and nothing else changed.
pub open spec fn value_replaced(a: ObjectType, b: ObjectType, value: Seq<char>) -> bool {
    match (a, b) {
        (ObjectType::DictionaryVariable(x), ObjectType::DictionaryVariable(y)) => {
            &&& y.value@ == value
            &&& y.handle == x.handle
            &&& y.owner_handle == x.owner_handle
            &&& y.schema_number == x.schema_number
            &&& y.name == x.name
        },
        _ => false,
    }
}

/// A dictionary object: named references to other objects.
#[derive(Debug, Clone, PartialEq)]
pub struct Dictionary {
    pub handle: Handle,
    pub owner: Handle,
    pub entries: Vec<(String, Handle)>,
    /// Whether the dictionary owns all of its entries.
    pub hard_owner: bool,
    /// Keys of the entries that the dictionary owns one by one.
    pub hard_owned_keys: Vec<String>,
    pub xdictionary_handle: Option<Handle>,
    pub reactors: Vec<Handle>,
}

impl Dictionary {
    /// Model of the entries.
    pub open spec fn model(&self) -> Seq<(Seq<char>, Handle)> {
        entries_view(self.entries@)
    }

    /// An empty dictionary with null handles.
    pub fn new() -> (d: Self)
        ensures
            d.handle.value == 0,
            d.owner.value == 0,
            d.entries@.len() == 0,
            !d.hard_owner,
            d.hard_owned_keys@.len() == 0,
            d.xdictionary_handle is None,
            d.reactors@.len() == 0,
    {
        Dictionary {
            handle: Handle::null(),
            owner: Handle::null(),
            entries: Vec::new(),
            hard_owner: false,
            hard_owned_keys: Vec::new(),
            xdictionary_handle: None,
            reactors: Vec::new(),
        }
    }

    fn find(&self, key: &str) -> (r: usize)
        ensures
            r == key_index_from(self.model(), key@, 0),
            r <= self.entries@.len(),
    {
        let ghost es = self.model();
        let mut i: usize = 0;
        while i < self.entries.len()
            invariant
                es == self.model(),
                i <= self.entries@.len(),
                key_index_from(es, key@, 0) == key_index_from(es, key@, i as int),
            decreases self.entries@.len() - i,
        {
            assert(es[i as int].0 == self.entries@[i as int].0@);
            if str_eq(self.entries[i].0.as_str(), key) {
                return i;
            }
            i += 1;
        }
        i
    }

    /// Handle named by the first entry with the given key.
    pub fn get(&self, key: &str) -> (r: Option<Handle>)
        ensures
            r == lookup(self.model(), key@),
    {
        let i = self.find(key);
        if i < self.entries.len() {
            Some(self.entries[i].1)
        } else {
            None
        }
    }

    /// Point `key` at `handle`: the first entry with the key is updated, or a new entry is appended.
    pub fn add_entry(&mut self, key: &str, handle: Handle)
        ensures
            final(self).model() == with_entry(old(self).model(), key@, handle),
            final(self).handle == old(self).handle,
            final(self).owner == old(self).owner,
            final(self).hard_owner == old(self).hard_owner,
            final(self).hard_owned_keys == old(self).hard_owned_keys,
            final(self).xdictionary_handle == old(self).xdictionary_handle,
            final(self).reactors == old(self).reactors,
    {
        let ghost es = self.model();
        let i = self.find(key);
        if i < self.entries.len() {
            self.entries.set(i, (key.to_owned(), handle));
            assert(self.model() =~= es.update(i as int, (key@, handle)));
        } else {
            self.entries.push((key.to_owned(), handle));
            assert(self.model() =~= es.push((key@, handle)));
        }
    }
}

/// Model of a list of strings.
pub open spec fn keys_view(ks: Seq<String>) -> Seq<Seq<char>> {
    ks.map_values(|k: String| k@)
}

/// Keys left after removing every copy of `key`.
pub open spec fn without_exact(ks: Seq<Seq<char>>, key: Seq<char>) -> Seq<Seq<char>>
    decreases ks.len(),
{
    if ks.len() == 0 {
        ks
    } else if ks.last() == key {
        without_exact(ks.drop_last(), key)
    } else {
        without_exact(ks.drop_last(), key).push(ks.last())
    }
}

/// Entries left after removing every entry whose key equals `key`, ASCII case ignored.
pub open spec fn without_key(es: Seq<(Seq<char>, Handle)>, key: Seq<char>) -> Seq<(Seq<char>, Handle)>
    decreases es.len(),
{
    if es.len() == 0 {
        es
    } else if eq_ci(es.last().0, key) {
        without_key(es.drop_last(), key)
    } else {
        without_key(es.drop_last(), key).push(es.last())
    }
}

/// No entry left by `without_key` has the key, and each is an entry of the original.
pub proof fn lemma_without_key(es: Seq<(Seq<char>, Handle)>, key: Seq<char>)
    ensures
        lookup(without_key(es, key), key) is None,
        forall|i: int| 0 <= i < without_key(es, key).len() ==> es.contains(#[trigger] without_key(es, key)[i]),
    decreases es.len(),
{
    let w = without_key(es, key);
    if es.len() > 0 {
        let rest = without_key(es.drop_last(), key);
        lemma_without_key(es.drop_last(), key);
        assert forall|i: int| 0 <= i < w.len() implies es.contains(#[trigger] w[i]) by {
            if i < rest.len() {
                assert(w[i] == rest[i]);
                assert(es.drop_last().contains(rest[i]));
                let j = choose|j: int| 0 <= j < es.drop_last().len() && es.drop_last()[j] == rest[i];
                assert(es[j] == rest[i]);
            } else {
                assert(w[i] == es.last());
                assert(es[es.len() - 1] == es.last());
            }
        }
        lemma_key_index_from(w, key, 0);
        lemma_key_index_from(rest, key, 0);
        let k = key_index_from(w, key, 0);
        if k < w.len() {
            if k < rest.len() {
                assert(w[k] == rest[k]);
            } else {
                assert(w[k] == es.last());
                assert(!eq_ci(es.last().0, key));
            }
        }
    }
}

impl Dictionary {
    /// A copy with the same fields and entries.
    pub fn copy(&self) -> (r: Self)
        ensures
            r.handle == self.handle,
            r.owner == self.owner,
            r.model() == self.model(),
            r.hard_owner == self.hard_owner,
            r.hard_keys() == self.hard_keys(),
            r.xdictionary_handle == self.xdictionary_handle,
            r.reactors@ == self.reactors@,
    {
        let mut entries: Vec<(String, Handle)> = Vec::new();
        let mut i: usize = 0;
        while i < self.entries.len()
            invariant
                i <= self.entries@.len(),
                entries_view(entries@) == self.model().take(i as int),
            decreases self.entries@.len() - i,
        {
            let ghost before = entries_view(entries@);
            entries.push((self.entries[i].0.clone(), self.entries[i].1));
            assert(entries_view(entries@) =~= before.push(self.model()[i as int]));
            assert(self.model().take(i + 1) =~= self.model().take(i as int).push(self.model()[i as int]));
            i += 1;
        }
        assert(self.model().take(self.model().len() as int) =~= self.model());
        let mut keys: Vec<String> = Vec::new();
        let mut j: usize = 0;
        while j < self.hard_owned_keys.len()
            invariant
                j <= self.hard_owned_keys@.len(),
                keys_view(keys@) == self.hard_keys().take(j as int),
            decreases self.hard_owned_keys@.len() - j,
        {
            let ghost before = keys_view(keys@);
            keys.push(self.hard_owned_keys[j].clone());
            assert(keys_view(keys@) =~= before.push(self.hard_keys()[j as int]));
            assert(self.hard_keys().take(j + 1) =~= self.hard_keys().take(j as int).push(self.hard_keys()[j as int]));
            j += 1;
        }
        assert(self.hard_keys().take(self.hard_keys().len() as int) =~= self.hard_keys());
        let mut reactors: Vec<Handle> = Vec::new();
        let mut k: usize = 0;
        while k < self.reactors.len()
            invariant
                k <= self.reactors@.len(),
                reactors@ == self.reactors@.take(k as int),
            decreases self.reactors@.len() - k,
        {
            reactors.push(self.reactors[k]);
            k += 1;
            assert(reactors@ =~= self.reactors@.take(k as int));
        }
        assert(self.reactors@.take(self.reactors@.len() as int) =~= self.reactors@);
        Dictionary {
            handle: self.handle,
            owner: self.owner,
            entries,
            hard_owner: self.hard_owner,
            hard_owned_keys: keys,
            xdictionary_handle: self.xdictionary_handle,
            reactors,
        }
    }

    /// Point the entry at position `i` at `target`, keeping its key.
    pub fn set_target_at(&mut self, i: usize, target: Handle)
        requires
            i < old(self).model().len(),
        ensures
            final(self).model() == old(self).model().update(i as int, (old(self).model()[i as int].0, target)),
            final(self).handle == old(self).handle,
            final(self).owner == old(self).owner,
            final(self).hard_owner == old(self).hard_owner,
            final(self).hard_owned_keys == old(self).hard_owned_keys,
            final(self).xdictionary_handle == old(self).xdictionary_handle,
            final(self).reactors == old(self).reactors,
    {
        let ghost m0 = self.model();
        assert(m0[i as int] == (self.entries@[i as int].0@, self.entries@[i as int].1));
        let name = self.entries[i].0.clone();
        self.entries.set(i, (name, target));
        assert(self.model() =~= m0.update(i as int, (m0[i as int].0, target)));
    }

    /// Keys of the entries owned one by one.
    pub open spec fn hard_keys(&self) -> Seq<Seq<char>> {
        keys_view(self.hard_owned_keys@)
    }

    /// Whether the entry of `key` is owned by the dictionary on its own.
    pub fn is_entry_hard_owner(&self, key: &str) -> (b: bool)
        ensures
            b == self.hard_keys().contains(key@),
    {
        let ghost ks = self.hard_keys();
        let mut i: usize = 0;
        while i < self.hard_owned_keys.len()
            invariant
                ks == self.hard_keys(),
                i <= self.hard_owned_keys@.len(),
                forall|j: int| 0 <= j < i ==> ks[j] != key@,
            decreases self.hard_owned_keys@.len() - i,
        {
            if str_eq(self.hard_owned_keys[i].as_str(), key) {
                assert(ks[i as int] == key@);
                return true;
            }
            i += 1;
        }
        false
    }

    /// Mark or unmark the entry of `key` as owned by the dictionary on its own.
    pub fn set_entry_hard_owner(&mut self, key: &str, owned: bool)
        ensures
            final(self).hard_keys() == (if owned {
                without_exact(old(self).hard_keys(), key@).push(key@)
            } else {
                without_exact(old(self).hard_keys(), key@)
            }),
            final(self).handle == old(self).handle,
            final(self).owner == old(self).owner,
            final(self).entries == old(self).entries,
            final(self).hard_owner == old(self).hard_owner,
            final(self).xdictionary_handle == old(self).xdictionary_handle,
            final(self).reactors == old(self).reactors,
    {
        let ghost ks = self.hard_keys();
        let mut kept: Vec<String> = Vec::new();
        let mut i: usize = 0;
        while i < self.hard_owned_keys.len()
            invariant
                ks == self.hard_keys(),
                i <= self.hard_owned_keys@.len(),
                keys_view(kept@) == without_exact(ks.take(i as int), key@),
            decreases self.hard_owned_keys@.len() - i,
        {
            proof {
                assert(ks.take(i + 1).drop_last() =~= ks.take(i as int));
                assert(ks.take(i + 1).last() == ks[i as int]);
            }
            if !str_eq(self.hard_owned_keys[i].as_str(), key) {
                let ghost before = keys_view(kept@);
                kept.push(self.hard_owned_keys[i].clone());
                assert(keys_view(kept@) =~= before.push(ks[i as int]));
            }
            i += 1;
        }
        assert(ks.take(ks.len() as int) =~= ks);
        if owned {
            let ghost before = keys_view(kept@);
            kept.push(key.to_owned());
            assert(keys_view(kept@) =~= before.push(key@));
        }
        self.hard_owned_keys = kept;
    }

    /// Remove every entry whose key equals `key`, ASCII case ignored.
    pub fn remove_entries(&mut self, key: &str)
        ensures
            final(self).model() == without_key(old(self).model(), key@),
            final(self).handle == old(self).handle,
            final(self).owner == old(self).owner,
            final(self).hard_owner == old(self).hard_owner,
            final(self).hard_owned_keys == old(self).hard_owned_keys,
            final(self).xdictionary_handle == old(self).xdictionary_handle,
            final(self).reactors == old(self).reactors,
    {
        let ghost es = self.model();
        let mut kept: Vec<(String, Handle)> = Vec::new();
        let mut i: usize = 0;
        while i < self.entries.len()
            invariant
                es == self.model(),
                i <= self.entries@.len(),
                entries_view(kept@) == without_key(es.take(i as int), key@),
            decreases self.entries@.len() - i,
        {
            proof {
                assert(es.take(i + 1).drop_last() =~= es.take(i as int));
                assert(es.take(i + 1).last() == es[i as int]);
                assert(es[i as int] == (self.entries@[i as int].0@, self.entries@[i as int].1));
            }
            if !eq_ignore_ascii_case(self.entries[i].0.as_str(), key) {
                let ghost before = entries_view(kept@);
                kept.push((self.entries[i].0.clone(), self.entries[i].1));
                assert(entries_view(kept@) =~= before.push(es[i as int]));
            }
            i += 1;
        }
        assert(es.take(es.len() as int) =~= es);
        self.entries = kept;
    }
}

/// A dictionary variable object: a named string value.
#[derive(Debug, Clone, PartialEq)]
pub struct DictionaryVariable {
    pub handle: Handle,
    pub owner_handle: Handle,
    pub schema_number: i16,
    pub name: String,
    pub value: String,
}

impl DictionaryVariable {
    /// A variable with the given name and value and null handles.
    pub fn new(name: &str, value: &str) -> (v: Self)
        ensures
            v.name@ == name@,
            v.value@ == value@,
            v.handle.value == 0,
            v.owner_handle.value == 0,
            v.schema_number == 0,
    {
        DictionaryVariable {
            handle: Handle::null(),
            owner_handle: Handle::null(),
            schema_number: 0,
            name: name.to_owned(),
            value: value.to_owned(),
        }
    }
}

/// The kind of operation a solid-history node records.
#[derive(Debug, Clone, PartialEq)]
pub enum SolidHistoryOperation {
    Loft(SolidHistoryLoft),
    Other,
}

/// What a dynamic-block object holds, as far as this library reads it.
#[derive(Debug, Clone, PartialEq)]
pub enum DynamicBlockData {
    /// Root of a solid's construction history.
    SolidHistory,
    /// One node of a construction history.
    SolidHistoryNode(SolidHistoryOperation),
    Other,
}

/// A dynamic-block or construction-history object.
#[derive(Debug, Clone, PartialEq)]
pub struct DynamicBlock {
    pub handle: Handle,
    pub owner: Handle,
    pub xdictionary_handle: Option<Handle>,
    pub data: DynamicBlockData,
}

/// A field object: computed text with child fields and referenced objects.
#[derive(Debug, Clone, PartialEq)]
pub struct Field {
    pub handle: Handle,
    pub owner: Handle,
    pub child_fields: Vec<Handle>,
    pub object_ids: Vec<Handle>,
}

/// The list of fields of a drawing.
#[derive(Debug, Clone, PartialEq)]
pub struct FieldList {
    pub handle: Handle,
    pub owner: Handle,
    pub fields: Vec<Handle>,
}

/// Database objects, as far as this library interprets them.
#[derive(Debug, Clone, PartialEq)]
pub enum ObjectType {
    Dictionary(Dictionary),
    DictionaryWithDefault(Dictionary),
    DictionaryVariable(DictionaryVariable),
    XRecord(XRecord),
    DynamicBlock(DynamicBlock),
    Field(Field),
    FieldList(FieldList),
    /// An object of a kind this library does not interpret, by handle and type name.
    Other { handle: Handle, object_name: String },
}

} // verus!
