use vstd::prelude::*;
use crate::document::{CadDocument, same_besides_objects, dictionary_at, variable_at, lemma_lookup_below, lemma_objects_wf_grow, lemma_objects_wf_insert};
use crate::objects::dictionary::{Dictionary, DictionaryVariable, ObjectType, lookup, law_lookup_after_add_entry, entry_added,
    value_replaced};
use crate::types::Handle;

verus! {

broadcast use vstd::std_specs::hash::group_hash_axioms;

/// Key of the variables dictionary inside the named-object dictionary.
pub open spec fn variables_key() -> Seq<char> {
    "AcDbVariableDictionary"@
}

/// Handle that the root dictionary gives for the variables dictionary.
pub open spec fn variables_handle(objects: Map<u64, ObjectType>, root: Handle) -> Option<Handle> {
    match dictionary_at(objects, root) {
        Some(r) => lookup(r.model(), variables_key()),
        None => None,
    }
}

/// The variables dictionary, when the root names one.
pub open spec fn variables_dictionary(objects: Map<u64, ObjectType>, root: Handle) -> Option<Dictionary> {
    match variables_handle(objects, root) {
        Some(h) => dictionary_at(objects, h),
        None => None,
    }
}

/// Handle that the variables dictionary gives for a variable name.
pub open spec fn variable_handle(objects: Map<u64, ObjectType>, root: Handle, name: Seq<char>) -> Option<Handle> {
    match variables_dictionary(objects, root) {
        Some(v) => lookup(v.model(), name),
        None => None,
    }
}

/// Serialized value of a drawing variable: root dictionary, then variables
/// dictionary, then the variable object, each of the expected kind.
pub open spec fn variable_value(objects: Map<u64, ObjectType>, root: Handle, name: Seq<char>) -> Option<Seq<char>> {
    match variable_handle(objects, root, name) {
        Some(h) => match variable_at(objects, h) {
            Some(v) => Some(v.value@),
            None => None,
        },
        None => None,
    }
}

/// An existing object along the path to a variable has the wrong kind, so a
/// write is refused rather than replacing it.
pub open spec fn variable_conflict(objects: Map<u64, ObjectType>, root: Handle, name: Seq<char>) -> bool {
    root.value != 0 && {
        ||| dictionary_at(objects, root) is None
        ||| (variables_handle(objects, root) is Some && variables_dictionary(objects, root) is None)
        ||| (variable_handle(objects, root, name) is Some
            && variable_at(objects, variable_handle(objects, root, name)->0) is None)
    }
}

/// What a successful write of the variable `name` with `value` does to the
/// objects `a` (root `ra`), giving `b` (root `rb`): an object that was there
/// stays as it was, except the root dictionary, which may gain the entry of
/// the variables dictionary, the variables dictionary, which may gain the
/// entry of the variable, and the variable, which takes the value.
pub open spec fn write_frame(a: Map<u64, ObjectType>, b: Map<u64, ObjectType>, rb: Handle, name: Seq<char>, value: Seq<char>) -> bool {
    forall|k: u64| #[trigger] a.contains_key(k) ==> {
        ||| b[k] == a[k]
        ||| (k == rb.value && entry_added(a[k], b[k], variables_key(), variables_handle(b, rb)->0))
        ||| (variables_handle(b, rb) == Some(Handle { value: k })
            && entry_added(a[k], b[k], name, variable_handle(b, rb, name)->0))
        ||| (variable_handle(b, rb, name) == Some(Handle { value: k }) && value_replaced(a[k], b[k], value))
    }
}

impl CadDocument {
    /// Value of the named drawing variable in this document.
    pub open spec fn variable_value(&self, name: Seq<char>) -> Option<Seq<char>> {
        variable_value(self.objects@, self.header.named_objects_dict_handle, name)
    }

    /// Read a serialized drawing variable without modifying its dictionary.
    pub fn drawing_variable(&self, name: &str) -> (r: Option<&str>)
        ensures
            match r {
                Some(s) => self.variable_value(name@) == Some(s@),
                None => self.variable_value(name@) is None,
            },
    {
        let root = match self.objects.get(&self.header.named_objects_dict_handle.value) {
            Some(ObjectType::Dictionary(root)) => root,
            _ => return None,
        };
        let variables_handle = match root.get("AcDbVariableDictionary") {
            Some(h) => h,
            None => return None,
        };
        let variables = match self.objects.get(&variables_handle.value) {
            Some(ObjectType::Dictionary(d)) => d,
            _ => return None,
        };
        let handle = match variables.get(name) {
            Some(h) => h,
            None => return None,
        };
        match self.objects.get(&handle.value) {
            Some(ObjectType::DictionaryVariable(v)) => Some(v.value.as_str()),
            _ => None,
        }
    }
}

impl CadDocument {
    /// Update or create a drawing variable, retaining existing object handles.
    /// Conflicting dictionary/object types are left intact.
    pub fn set_drawing_variable(&mut self, name: &str, value: &str) -> (r: bool)
        requires
            old(self).handles_wf(),
            old(self).header.handle_seed <= u64::MAX - 3,
        ensures
            r == (name@.len() > 0 && !variable_conflict(
                old(self).objects@,
                old(self).header.named_objects_dict_handle,
                name@,
            )),
            !r ==> *final(self) == *old(self),
            final(self).handles_wf(),
            old(self).header.handle_seed <= final(self).header.handle_seed <= old(self).header.handle_seed + 3,
            same_besides_objects(*final(self), *old(self)),
            old(self).header.named_objects_dict_handle.value != 0 ==> final(self).header.named_objects_dict_handle
                == old(self).header.named_objects_dict_handle,
            forall|k: u64| #[trigger] old(self).objects@.contains_key(k) ==> final(self).objects@.contains_key(k),
            r ==> final(self).variable_value(name@) == Some(value@),
            r ==> forall|n: Seq<char>|
                n != name@ && (variable_handle(old(self).objects@, old(self).header.named_objects_dict_handle, n) is None
                    || variable_handle(old(self).objects@, old(self).header.named_objects_dict_handle, n)
                    != variable_handle(old(self).objects@, old(self).header.named_objects_dict_handle, name@))
                    ==> #[trigger] final(self).variable_value(n) == old(self).variable_value(n)
                    && variable_handle(final(self).objects@, final(self).header.named_objects_dict_handle, n)
                        == variable_handle(old(self).objects@, old(self).header.named_objects_dict_handle, n),
            r && old(self).header.named_objects_dict_handle.value == 0 ==> {
                &&& final(self).header.named_objects_dict_handle.value == old(self).header.handle_seed
                &&& dictionary_at(final(self).objects@, final(self).header.named_objects_dict_handle) is Some
            },
            forall|k: u64| #[trigger] final(self).objects@.contains_key(k) && !old(self).objects@.contains_key(k)
                ==> old(self).header.handle_seed <= k < final(self).header.handle_seed,
            r ==> write_frame(old(self).objects@, final(self).objects@, final(self).header.named_objects_dict_handle, name@, value@),
            r && variable_handle(old(self).objects@, old(self).header.named_objects_dict_handle, name@) is Some ==> {
                let vh = variable_handle(old(self).objects@, old(self).header.named_objects_dict_handle, name@)->0;
                &&& final(self).header == old(self).header
                &&& final(self).objects@.dom() == old(self).objects@.dom()
                &&& forall|k: u64| #[trigger] old(self).objects@.contains_key(k) && k != vh.value
                    ==> final(self).objects@[k] == old(self).objects@[k]
                &&& value_replaced(old(self).objects@[vh.value], final(self).objects@[vh.value], value@)
            },
    {
        if name.is_empty() {
            return false;
        }
        let ghost old_objects = self.objects@;
        let ghost old_root = self.header.named_objects_dict_handle;
        let ghost seed = self.header.handle_seed;
        let mut root_handle = self.header.named_objects_dict_handle;
        if root_handle.value == 0 {
            root_handle = self.allocate_handle();
            let mut root = Dictionary::new();
            root.handle = root_handle;
            proof {
                assert(root.model() =~= Seq::<(Seq<char>, Handle)>::empty());
                lemma_objects_wf_grow(old_objects, seed, self.header.handle_seed);
                lemma_objects_wf_insert(old_objects, self.header.handle_seed, root_handle.value, ObjectType::Dictionary(root));
            }
            self.objects.insert(root_handle.value, ObjectType::Dictionary(root));
            self.header.named_objects_dict_handle = root_handle;
        }
        assert(self.handles_wf());
        let ghost objects1 = self.objects@;
        let existing_variables = match self.objects.get(&root_handle.value) {
            Some(ObjectType::Dictionary(root)) => root.get("AcDbVariableDictionary"),
            _ => return false,
        };
        let ghost root_model = dictionary_at(objects1, root_handle)->0.model();
        proof {
            lemma_lookup_below(root_model, variables_key(), self.header.handle_seed);
        }
        let vars_h = match existing_variables {
            Some(h) => {
                match self.objects.get(&h.value) {
                    Some(ObjectType::Dictionary(_)) => {},
                    _ => return false,
                }
                h
            },
            None => {
                let h = self.allocate_handle();
                let mut variables = Dictionary::new();
                variables.handle = h;
                variables.owner = root_handle;
                proof {
                    assert(variables.model() =~= Seq::<(Seq<char>, Handle)>::empty());
                    lemma_objects_wf_grow(objects1, (self.header.handle_seed - 1) as u64, self.header.handle_seed);
                    lemma_objects_wf_insert(objects1, self.header.handle_seed, h.value, ObjectType::Dictionary(variables));
                }
                self.objects.insert(h.value, ObjectType::Dictionary(variables));
                let ghost objects_before_entry = self.objects@;
                assert(root_handle.value < h.value);
                self.add_dictionary_entry(root_handle, "AcDbVariableDictionary", h);
                proof {
                    assert(dictionary_at(objects_before_entry, root_handle) == dictionary_at(objects1, root_handle));
                    assert(objects_before_entry.contains_key(h.value));
                    assert(dictionary_at(self.objects@, h) is Some);
                }
                proof {
                    law_lookup_after_add_entry(root_model, variables_key(), h, variables_key());
                    assert forall|k: u64| #[trigger] objects1.contains_key(k) implies self.objects@.contains_key(k)
                        && (self.objects@[k] == objects1[k]
                        || (k == root_handle.value && entry_added(objects1[k], self.objects@[k], variables_key(), h))) by {
                        assert(objects_before_entry.contains_key(k));
                        assert(objects_before_entry[k] == objects1[k]);
                    }
                }
                h
            },
        };
        assert(self.handles_wf());
        let ghost objects2 = self.objects@;
        proof {
            // Old objects are those before, but for the root, which may have gained the variables entry.
            assert forall|k: u64| #[trigger] old_objects.contains_key(k) implies objects2.contains_key(k) && (objects2[k] == old_objects[k]
                || (k == root_handle.value && entry_added(old_objects[k], objects2[k], variables_key(), vars_h))) by {
                assert(objects1.contains_key(k) && objects1[k] == old_objects[k]);
            }
            assert(old_objects.contains_key(vars_h.value) ==> objects2 == old_objects);
            assert(forall|k: u64| #[trigger] objects2.contains_key(k) && !old_objects.contains_key(k)
                ==> seed <= k < self.header.handle_seed);
            assert(variables_handle(objects2, root_handle) == Some(vars_h));
            assert(dictionary_at(objects2, root_handle) is Some);
            assert(dictionary_at(objects2, vars_h) is Some);
            // Values read before the write are those of the map at this point.
            if old_root.value == 0 || existing_variables is None {
                assert(dictionary_at(objects2, vars_h)->0.model().len() == 0);
                assert forall|n: Seq<char>| #[trigger] variable_value(objects2, root_handle, n)
                    == variable_value(old_objects, old_root, n)
                    && variable_handle(objects2, root_handle, n) == variable_handle(old_objects, old_root, n) by {
                    assert(lookup(dictionary_at(objects2, vars_h)->0.model(), n) is None);
                    if old_root.value == 0 {
                        assert(!old_objects.contains_key(0));
                    }
                }
            } else {
                assert(objects2 == old_objects);
            }
        }
        let existing = match self.objects.get(&vars_h.value) {
            Some(ObjectType::Dictionary(variables)) => variables.get(name),
            _ => return false,
        };
        let ghost variables_model = dictionary_at(objects2, vars_h)->0.model();
        proof {
            lemma_lookup_below(variables_model, name@, self.header.handle_seed);
        }
        match existing {
            Some(h) => {
                match self.objects.get(&h.value) {
                    Some(ObjectType::DictionaryVariable(_)) => {},
                    _ => return false,
                }
                let removed = self.objects.remove(&h.value);
                match removed {
                    Some(ObjectType::DictionaryVariable(mut variable)) => {
                        variable.value = value.to_owned();
                        proof {
                            lemma_objects_wf_insert(objects2, self.header.handle_seed, h.value, ObjectType::DictionaryVariable(variable));
                            assert(objects2.remove(h.value).insert(h.value, ObjectType::DictionaryVariable(variable))
                                =~= objects2.insert(h.value, ObjectType::DictionaryVariable(variable)));
                        }
                        self.objects.insert(h.value, ObjectType::DictionaryVariable(variable));
                        proof {
                            assert(objects2 == old_objects);
                            assert(dictionary_at(self.objects@, root_handle) == dictionary_at(objects2, root_handle));
                            assert(dictionary_at(self.objects@, vars_h) == dictionary_at(objects2, vars_h));
                            assert(variable_handle(self.objects@, root_handle, name@) == Some(h));
                            assert(value_replaced(old_objects[h.value], self.objects@[h.value], value@));
                            assert forall|k: u64| #[trigger] old_objects.contains_key(k) && k != h.value
                                implies self.objects@[k] == old_objects[k] by {}
                            assert forall|n: Seq<char>| n != name@
                                && (variable_handle(old_objects, old_root, n) is None
                                || variable_handle(old_objects, old_root, n) != variable_handle(old_objects, old_root, name@))
                                implies #[trigger] variable_value(self.objects@, root_handle, n)
                                == variable_value(old_objects, old_root, n)
                                && variable_handle(self.objects@, root_handle, n) == variable_handle(old_objects, old_root, n) by {
                                assert(variable_handle(self.objects@, root_handle, n) == variable_handle(objects2, root_handle, n));
                            }
                        }
                    },
                    _ => {},
                }
            },
            None => {
                let h = self.allocate_handle();
                let mut variable = DictionaryVariable::new(name, value);
                variable.handle = h;
                variable.owner_handle = vars_h;
                proof {
                    lemma_objects_wf_grow(objects2, (self.header.handle_seed - 1) as u64, self.header.handle_seed);
                    lemma_objects_wf_insert(objects2, self.header.handle_seed, h.value, ObjectType::DictionaryVariable(variable));
                }
                self.objects.insert(h.value, ObjectType::DictionaryVariable(variable));
                let ghost objects3 = self.objects@;
                self.add_dictionary_entry(vars_h, name, h);
                proof {
                    law_lookup_after_add_entry(variables_model, name@, h, name@);
                    let root_model2 = dictionary_at(objects2, root_handle)->0.model();
                    if root_handle == vars_h {
                        law_lookup_after_add_entry(variables_model, name@, h, variables_key());
                    }
                    assert(dictionary_at(objects3, vars_h) == dictionary_at(objects2, vars_h));
                    assert(dictionary_at(objects3, root_handle) == dictionary_at(objects2, root_handle));
                    assert(variables_handle(self.objects@, root_handle) == Some(vars_h));
                    assert(variable_handle(self.objects@, root_handle, name@) == Some(h));
                    assert(objects2.contains_key(vars_h.value));
                    assert(vars_h.value < h.value);
                    assert(objects3.contains_key(h.value));
                    assert(variable_at(self.objects@, h) == Some(variable));
                    assert forall|k: u64| #[trigger] old_objects.contains_key(k) implies {
                        ||| self.objects@[k] == old_objects[k]
                        ||| (k == root_handle.value && entry_added(old_objects[k], self.objects@[k], variables_key(),
                            variables_handle(self.objects@, root_handle)->0))
                        ||| (variables_handle(self.objects@, root_handle) == Some(Handle { value: k })
                            && entry_added(old_objects[k], self.objects@[k], name@, variable_handle(self.objects@, root_handle, name@)->0))
                    } by {
                        assert(objects2.contains_key(k));
                        assert(k != h.value);
                        if k == vars_h.value {
                            assert(objects2 == old_objects);
                            assert(objects3[k] == objects2[k]);
                        } else {
                            assert(objects3.contains_key(k));
                            assert(self.objects@[k] == objects3[k]);
                            assert(objects3[k] == objects2[k]);
                        }
                    }
                    assert forall|n: Seq<char>| n != name@
                        implies #[trigger] variable_value(self.objects@, root_handle, n)
                        == variable_value(objects2, root_handle, n)
                        && variable_handle(self.objects@, root_handle, n) == variable_handle(objects2, root_handle, n) by {
                        law_lookup_after_add_entry(variables_model, name@, h, n);
                        lemma_lookup_below(variables_model, n, (h.value) as u64);
                        if variable_handle(objects2, root_handle, n) is Some {
                            let hn = variable_handle(objects2, root_handle, n)->0;
                            assert(hn.value < h.value);
                            if hn != vars_h {
                                if objects2.contains_key(hn.value) {
                                    assert(objects3.contains_key(hn.value));
                                } else {
                                    assert(!self.objects@.contains_key(hn.value));
                                }
                                assert(variable_at(self.objects@, hn) == variable_at(objects2, hn));
                            }
                        }
                    }
                }
            },
        }
        true
    }
}

} // verus!
