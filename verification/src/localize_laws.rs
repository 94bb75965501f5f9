//! Laws of localizing copied entities: which entities change, what retained
//! entities leave behind, and how the symbol tables grow.

use vstd::prelude::*;
use crate::entities::entity::{EntityCommon, EntityType};
use crate::localize::{LocalizeState, localize_fold, localize_step, localize_plan, apply_plan, add_lines,
    entity_result, is_external, kept_outright, lemma_step_seed, lemma_fold_bounds, has_bar, layer_part, local_line};
use crate::nested_copy::{pair_get, pair_index_from, lemma_pair_index_from, lemma_last_bar_before, last_bar, pair_with,
    NestedCopyMode, DestinationState, destination_fold, destination_for, destinations_spec, source_parts,
    bound_name, sort_by_upper, upper_all, lemma_sort_contains};
use crate::text::{decimal, lemma_decimal_digits};
use crate::tables::{LayerModel, LineTypeModel, line_type_named, line_type_model_names, name_position,
    layer_named, layer_model_names, lemma_name_position};
use crate::text::{eq_ci, upper_seq, upper_char};

verus! {

/// `b` keeps the linetypes of `a` in place and appends linetypes whose
/// handles rise strictly, from `s0` up to below `s1`.
pub open spec fn line_types_grow(a: Seq<LineTypeModel>, b: Seq<LineTypeModel>, s0: int, s1: int) -> bool {
    &&& a.len() <= b.len()
    &&& forall|i: int| 0 <= i < a.len() ==> #[trigger] b[i] == a[i]
    &&& forall|i: int| a.len() <= i < b.len() ==> s0 <= (#[trigger] b[i]).handle.value < s1
    &&& forall|i: int, j: int| a.len() <= i < j < b.len() ==> (#[trigger] b[i]).handle.value < (#[trigger] b[j]).handle.value
}

/// `b` keeps the layers of `a` in place and appends layers whose handles
/// rise strictly, from `s0` up to below `s1`.
pub open spec fn layers_grow(a: Seq<LayerModel>, b: Seq<LayerModel>, s0: int, s1: int) -> bool {
    &&& a.len() <= b.len()
    &&& forall|i: int| 0 <= i < a.len() ==> #[trigger] b[i] == a[i]
    &&& forall|i: int| a.len() <= i < b.len() ==> s0 <= (#[trigger] b[i]).handle.value < s1
    &&& forall|i: int, j: int| a.len() <= i < j < b.len() ==> (#[trigger] b[i]).handle.value < (#[trigger] b[j]).handle.value
}

/// Whether an entity is retained with its references at a state: it refers
/// to an external reference but is kept outright or cannot be localized.
pub open spec fn retained_at(
    st: LocalizeState,
    e: EntityType,
    layer_names: Seq<(Seq<char>, Seq<char>)>,
    lt_names: Seq<(Seq<char>, Seq<char>)>,
) -> bool {
    &&& is_external(e.common_spec())
    &&& (kept_outright(e) || localize_plan(st.layers, st.line_types, layer_names, lt_names, e.common_spec()) is None)
}

/// Number of entities that refer to an external reference.
pub open spec fn external_count(es: Seq<EntityType>) -> nat
    decreases es.len(),
{
    if es.len() == 0 {
        0
    } else {
        external_count(es.drop_last()) + if is_external(es.last().common_spec()) { 1nat } else { 0nat }
    }
}

/// An entity without external references, or a retained one, is left as it is.
pub proof fn law_unlocalized_entity_unchanged(
    st: LocalizeState,
    before: EntityType,
    after: EntityType,
    layer_names: Seq<(Seq<char>, Seq<char>)>,
    lt_names: Seq<(Seq<char>, Seq<char>)>,
)
    requires
        entity_result(st, before, after, layer_names, lt_names),
        !is_external(before.common_spec()) || retained_at(st, before, layer_names, lt_names),
    ensures
        after == before,
{
}

/// A step counts the entity as retained exactly when it is retained, and
/// changes nothing else then; an entity without external references changes nothing.
pub proof fn law_step_retains(
    st: LocalizeState,
    e: EntityType,
    layer_names: Seq<(Seq<char>, Seq<char>)>,
    lt_names: Seq<(Seq<char>, Seq<char>)>,
)
    ensures
        localize_step(st, e, layer_names, lt_names).retained
            == st.retained + if retained_at(st, e, layer_names, lt_names) { 1nat } else { 0nat },
        !is_external(e.common_spec()) ==> localize_step(st, e, layer_names, lt_names) == st,
        retained_at(st, e, layer_names, lt_names) ==> localize_step(st, e, layer_names, lt_names)
            == (LocalizeState { retained: st.retained + 1, ..st }),
{
}

/// When every entity with external references is retained, localizing adds
/// no layer or linetype, allocates no handle, and counts each such entity.
pub proof fn law_retained_entities_leave_tables(
    es: Seq<EntityType>,
    layer_names: Seq<(Seq<char>, Seq<char>)>,
    lt_names: Seq<(Seq<char>, Seq<char>)>,
    st: LocalizeState,
)
    requires
        forall|i: int| 0 <= i < es.len() && is_external((#[trigger] es[i]).common_spec())
            ==> retained_at(st, es[i], layer_names, lt_names),
    ensures
        localize_fold(es, layer_names, lt_names, st)
            == (LocalizeState { retained: st.retained + external_count(es), ..st }),
    decreases es.len(),
{
    if es.len() > 0 {
        let front = es.drop_last();
        assert forall|i: int| 0 <= i < front.len() && is_external((#[trigger] front[i]).common_spec())
            implies retained_at(st, front[i], layer_names, lt_names) by {
            assert(front[i] == es[i]);
        }
        law_retained_entities_leave_tables(front, layer_names, lt_names, st);
        let e = es.last();
        assert(e == es[es.len() - 1]);
    }
}

/// Adding linetypes keeps those there and appends new ones under rising
/// handles from the seed on.
pub proof fn lemma_add_lines_grow(lts: Seq<LineTypeModel>, lines: Seq<LineTypeModel>, seed: int)
    requires
        0 <= seed,
        add_lines(lts, lines, seed).1 <= u64::MAX,
    ensures
        seed <= add_lines(lts, lines, seed).1,
        line_types_grow(lts, add_lines(lts, lines, seed).0, seed, add_lines(lts, lines, seed).1),
    decreases lines.len(),
{
    if lines.len() > 0 {
        lemma_add_lines_grow(lts, lines.drop_last(), seed);
        let (cur, s) = add_lines(lts, lines.drop_last(), seed);
        let line = lines.last();
        if line_type_named(cur, line.name) is None {
            let b = cur.push(LineTypeModel { handle: crate::types::Handle { value: s as u64 }, ..line });
            assert(add_lines(lts, lines, seed).0 == b);
            assert forall|i: int| 0 <= i < lts.len() implies #[trigger] b[i] == lts[i] by {
                assert(b[i] == cur[i]);
            }
            assert forall|i: int| lts.len() <= i < b.len() implies seed <= (#[trigger] b[i]).handle.value < s + 1 by {
                if i < cur.len() {
                    assert(b[i] == cur[i]);
                }
            }
            assert forall|i: int, j: int| lts.len() <= i < j < b.len() implies
                (#[trigger] b[i]).handle.value < (#[trigger] b[j]).handle.value by {
                assert(b[i] == cur[i]);
                if j < cur.len() {
                    assert(b[j] == cur[j]);
                }
            }
        }
    }
}

/// One step keeps the layers and linetypes there and appends new ones under
/// rising handles from the seed on.
pub proof fn lemma_step_grow(
    st: LocalizeState,
    e: EntityType,
    layer_names: Seq<(Seq<char>, Seq<char>)>,
    lt_names: Seq<(Seq<char>, Seq<char>)>,
)
    requires
        0 <= st.seed,
        st.seed + 3 <= u64::MAX,
    ensures
        st.seed <= localize_step(st, e, layer_names, lt_names).seed,
        layers_grow(st.layers, localize_step(st, e, layer_names, lt_names).layers,
            st.seed, localize_step(st, e, layer_names, lt_names).seed),
        line_types_grow(st.line_types, localize_step(st, e, layer_names, lt_names).line_types,
            st.seed, localize_step(st, e, layer_names, lt_names).seed),
{
    let c = e.common_spec();
    lemma_step_seed(st, e, layer_names, lt_names);
    if is_external(c) && !kept_outright(e) {
        match localize_plan(st.layers, st.line_types, layer_names, lt_names, c) {
            Some(plan) => {
                lemma_add_lines_grow(st.line_types, plan.lines, st.seed);
                let (lts, s) = add_lines(st.line_types, plan.lines, st.seed);
                match plan.layer {
                    Some(l) => {
                        let b = st.layers.push(LayerModel { handle: crate::types::Handle { value: s as u64 }, ..l });
                        assert(apply_plan(st, plan).layers == b);
                        assert forall|i: int| 0 <= i < st.layers.len() implies #[trigger] b[i] == st.layers[i] by {}
                    },
                    None => {},
                }
            },
            None => {},
        }
    }
}

/// Localizing keeps every layer and linetype that was there, in place, and
/// appends new ones under rising handles from the seed on, below the final
/// seed; with a non-null seed, they are non-null.
pub proof fn law_symbols_kept_and_fresh(
    es: Seq<EntityType>,
    layer_names: Seq<(Seq<char>, Seq<char>)>,
    lt_names: Seq<(Seq<char>, Seq<char>)>,
    st: LocalizeState,
)
    requires
        0 <= st.seed,
        st.seed + 3 * es.len() <= u64::MAX,
    ensures
        st.seed <= localize_fold(es, layer_names, lt_names, st).seed,
        layers_grow(st.layers, localize_fold(es, layer_names, lt_names, st).layers,
            st.seed, localize_fold(es, layer_names, lt_names, st).seed),
        line_types_grow(st.line_types, localize_fold(es, layer_names, lt_names, st).line_types,
            st.seed, localize_fold(es, layer_names, lt_names, st).seed),
    decreases es.len(),
{
    if es.len() > 0 {
        law_symbols_kept_and_fresh(es.drop_last(), layer_names, lt_names, st);
        lemma_fold_bounds(es.drop_last(), layer_names, lt_names, st);
        let mid = localize_fold(es.drop_last(), layer_names, lt_names, st);
        lemma_step_grow(mid, es.last(), layer_names, lt_names);
        let fin = localize_fold(es, layer_names, lt_names, st);
        assert(fin == localize_step(mid, es.last(), layer_names, lt_names));
        assert forall|i: int| 0 <= i < st.layers.len() implies #[trigger] fin.layers[i] == st.layers[i] by {
            assert(fin.layers[i] == mid.layers[i]);
        }
        assert forall|i: int| st.layers.len() <= i < fin.layers.len() implies
            st.seed <= (#[trigger] fin.layers[i]).handle.value < fin.seed by {
            if i < mid.layers.len() {
                assert(fin.layers[i] == mid.layers[i]);
            }
        }
        assert forall|i: int, j: int| st.layers.len() <= i < j < fin.layers.len() implies
            (#[trigger] fin.layers[i]).handle.value < (#[trigger] fin.layers[j]).handle.value by {
            if j < mid.layers.len() {
                assert(fin.layers[i] == mid.layers[i]);
                assert(fin.layers[j] == mid.layers[j]);
            } else if i < mid.layers.len() {
                assert(fin.layers[i] == mid.layers[i]);
            }
        }
        assert forall|i: int| 0 <= i < st.line_types.len() implies #[trigger] fin.line_types[i] == st.line_types[i] by {
            assert(fin.line_types[i] == mid.line_types[i]);
        }
        assert forall|i: int| st.line_types.len() <= i < fin.line_types.len() implies
            st.seed <= (#[trigger] fin.line_types[i]).handle.value < fin.seed by {
            if i < mid.line_types.len() {
                assert(fin.line_types[i] == mid.line_types[i]);
            }
        }
        assert forall|i: int, j: int| st.line_types.len() <= i < j < fin.line_types.len() implies
            (#[trigger] fin.line_types[i]).handle.value < (#[trigger] fin.line_types[j]).handle.value by {
            if j < mid.line_types.len() {
                assert(fin.line_types[i] == mid.line_types[i]);
                assert(fin.line_types[j] == mid.line_types[j]);
            } else if i < mid.line_types.len() {
                assert(fin.line_types[i] == mid.line_types[i]);
            }
        }
    }
}

/// Looking a name up in a longer table that keeps the shorter one in front
/// finds what the shorter one found.
pub proof fn lemma_name_position_prefix(a: Seq<Seq<char>>, b: Seq<Seq<char>>, name: Seq<char>, k: int)
    requires
        0 <= k,
        a.len() <= b.len(),
        forall|i: int| 0 <= i < a.len() ==> #[trigger] b[i] == a[i],
        name_position(a, name, k) < a.len(),
    ensures
        name_position(b, name, k) == name_position(a, name, k),
    decreases a.len() - k,
{
    if k < a.len() && !eq_ci(a[k], name) {
        lemma_name_position_prefix(a, b, name, k + 1);
    }
}

/// A linetype found in a table is still found, the same, once linetypes are appended.
pub proof fn lemma_line_type_named_prefix(a: Seq<LineTypeModel>, b: Seq<LineTypeModel>, name: Seq<char>)
    requires
        a.len() <= b.len(),
        forall|i: int| 0 <= i < a.len() ==> #[trigger] b[i] == a[i],
        line_type_named(a, name) is Some,
    ensures
        line_type_named(b, name) == line_type_named(a, name),
{
    let na = line_type_model_names(a);
    let nb = line_type_model_names(b);
    assert forall|i: int| 0 <= i < na.len() implies #[trigger] nb[i] == na[i] by {
        assert(b[i] == a[i]);
    }
    assert(na.len() == a.len() && nb.len() == b.len());
    lemma_name_position_prefix(na, nb, name, 0);
    crate::tables::lemma_name_position(na, name, 0);
    let p = name_position(na, name, 0);
    assert(0 <= p < a.len());
    assert(b[p] == a[p]);
}

/// Folding over two runs of entities is folding over the second from where
/// the first left off.
pub proof fn lemma_fold_append(
    a: Seq<EntityType>,
    b: Seq<EntityType>,
    layer_names: Seq<(Seq<char>, Seq<char>)>,
    lt_names: Seq<(Seq<char>, Seq<char>)>,
    st: LocalizeState,
)
    ensures
        localize_fold(a + b, layer_names, lt_names, st)
            == localize_fold(b, layer_names, lt_names, localize_fold(a, layer_names, lt_names, st)),
    decreases b.len(),
{
    if b.len() == 0 {
        assert(a + b =~= a);
    } else {
        lemma_fold_append(a, b.drop_last(), layer_names, lt_names, st);
        assert((a + b).drop_last() =~= a + b.drop_last());
        assert((a + b).last() == b.last());
    }
}

/// A localized entity that takes the handle of a linetype keeps a handle that
/// the final linetype table gives under the entity's linetype name: later
/// entities only append linetypes, which never hide one found before.
pub proof fn law_localized_linetype_handle(
    es: Seq<EntityType>,
    layer_names: Seq<(Seq<char>, Seq<char>)>,
    lt_names: Seq<(Seq<char>, Seq<char>)>,
    st: LocalizeState,
    j: int,
    after: EntityType,
)
    requires
        0 <= j < es.len(),
        0 <= st.seed,
        st.seed + 3 * es.len() <= u64::MAX,
        entity_result(localize_fold(es.take(j), layer_names, lt_names, st), es[j], after, layer_names, lt_names),
        after != es[j],
        after.common_spec().linetype_handle is Some,
    ensures
        line_type_named(localize_fold(es, layer_names, lt_names, st).line_types, after.common_spec().linetype@)
            matches Some(l) && Some(l.handle) == after.common_spec().linetype_handle,
{
    let stj = localize_fold(es.take(j), layer_names, lt_names, st);
    let e = es[j];
    let c = e.common_spec();
    assert(!(!is_external(c) || kept_outright(e)
        || localize_plan(stj.layers, stj.line_types, layer_names, lt_names, c) is None)) by {
        if !is_external(c) || kept_outright(e)
            || localize_plan(stj.layers, stj.line_types, layer_names, lt_names, c) is None {
            assert(after == e);
        }
    }
    let plan = localize_plan(stj.layers, stj.line_types, layer_names, lt_names, c)->0;
    let st2 = apply_plan(stj, plan);
    assert(after.common_spec().linetype_handle == match line_type_named(st2.line_types, plan.line_name) {
        Some(l) => Some(l.handle),
        None => None,
    }) by {
        crate::io::surface_history::lemma_with_common_twice(e,
            EntityCommon { layer: after.common_spec().layer, linetype: after.common_spec().linetype,
                linetype_handle: after.common_spec().linetype_handle, ..c },
            EntityCommon { layer: after.common_spec().layer, linetype: after.common_spec().linetype,
                linetype_handle: after.common_spec().linetype_handle, ..c });
    }
    // The state after the entity is the fold through it.
    assert(es.take(j + 1).drop_last() =~= es.take(j));
    assert(es.take(j + 1).last() == e);
    assert(localize_fold(es.take(j + 1), layer_names, lt_names, st) == st2);
    let rest = es.skip(j + 1);
    assert(es.take(j + 1) + rest =~= es);
    lemma_fold_append(es.take(j + 1), rest, layer_names, lt_names, st);
    lemma_fold_bounds(es.take(j + 1), layer_names, lt_names, st);
    law_symbols_kept_and_fresh(rest, layer_names, lt_names, st2);
    let fin = localize_fold(es, layer_names, lt_names, st);
    lemma_line_type_named_prefix(st2.line_types, fin.line_types, plan.line_name);
}

/// When every entity with external references is retained, every entity is
/// left as it is, and the symbol tables and seed stay as they were.
pub proof fn law_all_retained_entities_unchanged(
    es: Seq<EntityType>,
    after: Seq<EntityType>,
    layer_names: Seq<(Seq<char>, Seq<char>)>,
    lt_names: Seq<(Seq<char>, Seq<char>)>,
    st: LocalizeState,
)
    requires
        after.len() == es.len(),
        forall|j: int| 0 <= j < es.len() ==> entity_result(localize_fold(es.take(j), layer_names, lt_names, st),
            es[j], #[trigger] after[j], layer_names, lt_names),
        forall|i: int| 0 <= i < es.len() && is_external((#[trigger] es[i]).common_spec())
            ==> retained_at(st, es[i], layer_names, lt_names),
    ensures
        after == es,
        localize_fold(es, layer_names, lt_names, st)
            == (LocalizeState { retained: st.retained + external_count(es), ..st }),
{
    law_retained_entities_leave_tables(es, layer_names, lt_names, st);
    assert forall|j: int| 0 <= j < es.len() implies #[trigger] after[j] == es[j] by {
        let pre = es.take(j);
        assert forall|k: int| 0 <= k < pre.len() && is_external((#[trigger] pre[k]).common_spec())
            implies retained_at(st, pre[k], layer_names, lt_names) by {
            assert(pre[k] == es[k]);
        }
        law_retained_entities_leave_tables(pre, layer_names, lt_names, st);
        let stj = localize_fold(pre, layer_names, lt_names, st);
        assert(stj.layers == st.layers && stj.line_types == st.line_types);
        assert(entity_result(stj, es[j], after[j], layer_names, lt_names));
        if is_external(es[j].common_spec()) {
            assert(retained_at(st, es[j], layer_names, lt_names));
        }
    }
    assert(after =~= es);
}

/// Number of entities retained in turn, each judged at the state the entities
/// before it leave.
pub open spec fn retained_count(
    es: Seq<EntityType>,
    layer_names: Seq<(Seq<char>, Seq<char>)>,
    lt_names: Seq<(Seq<char>, Seq<char>)>,
    st: LocalizeState,
) -> nat
    decreases es.len(),
{
    if es.len() == 0 {
        0
    } else {
        retained_count(es.drop_last(), layer_names, lt_names, st)
            + if retained_at(localize_fold(es.drop_last(), layer_names, lt_names, st), es.last(), layer_names, lt_names) {
                1nat
            } else {
                0nat
            }
    }
}

/// Localizing counts exactly the entities it retains, each of which it leaves
/// as it is (see `law_unlocalized_entity_unchanged`); at most every entity.
pub proof fn law_retained_count(
    es: Seq<EntityType>,
    layer_names: Seq<(Seq<char>, Seq<char>)>,
    lt_names: Seq<(Seq<char>, Seq<char>)>,
    st: LocalizeState,
)
    ensures
        localize_fold(es, layer_names, lt_names, st).retained == st.retained + retained_count(es, layer_names, lt_names, st),
        retained_count(es, layer_names, lt_names, st) <= es.len(),
    decreases es.len(),
{
    if es.len() > 0 {
        law_retained_count(es.drop_last(), layer_names, lt_names, st);
        law_step_retains(localize_fold(es.drop_last(), layer_names, lt_names, st), es.last(), layer_names, lt_names);
    }
}

/// A name that matches, ASCII case ignored, a name without `|` holds none.
pub proof fn lemma_eq_ci_bar_free(a: Seq<char>, b: Seq<char>)
    requires
        eq_ci(a, b),
        !has_bar(b),
    ensures
        !has_bar(a),
{
    lemma_last_bar_before(a, a.len() as int);
    lemma_last_bar_before(b, b.len() as int);
    if has_bar(a) {
        let j = crate::nested_copy::last_bar(a);
        assert(upper_seq(a).len() == a.len() && upper_seq(b).len() == b.len());
        assert(upper_seq(a)[j] == upper_char(a[j]));
        assert(upper_seq(b)[j] == upper_char(b[j]));
        assert(b[j] == '|');
    }
}

/// Destinations that hold no `|`.
pub open spec fn bar_free(m: Seq<(Seq<char>, Seq<char>)>) -> bool {
    forall|i: int| 0 <= i < m.len() ==> !has_bar(#[trigger] m[i].1)
}

/// A destination found in bar-free destinations holds no `|`.
pub proof fn lemma_pair_get_bar_free(m: Seq<(Seq<char>, Seq<char>)>, key: Seq<char>)
    requires
        bar_free(m),
    ensures
        pair_get(m, key) matches Some(v) ==> !has_bar(v),
{
    lemma_pair_index_from(m, key, 0);
    let k = pair_index_from(m, key, 0);
    if k < m.len() {
        assert(!has_bar(m[k].1));
    }
}

/// With bar-free destinations, a plan's layer and linetype names hold no `|`.
pub proof fn lemma_plan_bar_free(
    lays: Seq<LayerModel>,
    lts: Seq<LineTypeModel>,
    layer_names: Seq<(Seq<char>, Seq<char>)>,
    lt_names: Seq<(Seq<char>, Seq<char>)>,
    c: EntityCommon,
)
    requires
        bar_free(layer_names),
        bar_free(lt_names),
    ensures
        localize_plan(lays, lts, layer_names, lt_names, c) matches Some(plan)
            ==> !has_bar(plan.layer_name) && !has_bar(plan.line_name),
{
    if localize_plan(lays, lts, layer_names, lt_names, c) is Some {
        let (layer, lines, layer_name) = layer_part(lays, lts, layer_names, lt_names, c.layer@)->0;
        if has_bar(c.layer@) {
            lemma_pair_get_bar_free(layer_names, upper_seq(c.layer@));
            let dest = pair_get(layer_names, upper_seq(c.layer@))->0;
            match layer_named(lays, dest) {
                Some(existing) => {
                    lemma_name_position(layer_model_names(lays), dest, 0);
                    let k = name_position(layer_model_names(lays), dest, 0);
                    assert(layer_model_names(lays)[k] == existing.name);
                    lemma_eq_ci_bar_free(existing.name, dest);
                },
                None => {},
            }
        }
        if has_bar(c.linetype@) {
            lemma_pair_get_bar_free(lt_names, upper_seq(c.linetype@));
            let dest = pair_get(lt_names, upper_seq(c.linetype@))->0;
            match line_type_named(lts, dest) {
                Some(existing) => {
                    lemma_name_position(line_type_model_names(lts), dest, 0);
                    let k = name_position(line_type_model_names(lts), dest, 0);
                    assert(line_type_model_names(lts)[k] == existing.name);
                    lemma_eq_ci_bar_free(existing.name, dest);
                },
                None => {},
            }
        }
    }
}

/// With bar-free destinations, an entity that refers to an external
/// reference and is not retained changes, and then holds no `|` in its layer
/// or linetype name.
pub proof fn lemma_localized_entity_changes(
    st: LocalizeState,
    before: EntityType,
    after: EntityType,
    layer_names: Seq<(Seq<char>, Seq<char>)>,
    lt_names: Seq<(Seq<char>, Seq<char>)>,
)
    requires
        entity_result(st, before, after, layer_names, lt_names),
        bar_free(layer_names),
        bar_free(lt_names),
        is_external(before.common_spec()),
        !retained_at(st, before, layer_names, lt_names),
    ensures
        after != before,
        !has_bar(after.common_spec().layer@),
        !has_bar(after.common_spec().linetype@),
{
    lemma_plan_bar_free(st.layers, st.line_types, layer_names, lt_names, before.common_spec());
}

/// Number of the first `n` entities that refer to an external reference and
/// that `after` holds as they were.
pub open spec fn unchanged_external(es: Seq<EntityType>, after: Seq<EntityType>, n: int) -> nat
    decreases n,
{
    if n <= 0 {
        0
    } else {
        unchanged_external(es, after, n - 1)
            + if is_external(es[n - 1].common_spec()) && after[n - 1] == es[n - 1] { 1nat } else { 0nat }
    }
}

/// With bar-free destinations (as `nested_copy_symbol_names` gives), the
/// count that localizing returns is the number of entities that refer to an
/// external reference and are left as they were; an entity that changes holds
/// no `|` in its layer or linetype name afterwards.
pub proof fn law_count_is_unchanged_externals(
    es: Seq<EntityType>,
    after: Seq<EntityType>,
    layer_names: Seq<(Seq<char>, Seq<char>)>,
    lt_names: Seq<(Seq<char>, Seq<char>)>,
    st: LocalizeState,
)
    requires
        after.len() == es.len(),
        forall|j: int| 0 <= j < es.len() ==> entity_result(localize_fold(es.take(j), layer_names, lt_names, st),
            es[j], #[trigger] after[j], layer_names, lt_names),
        bar_free(layer_names),
        bar_free(lt_names),
    ensures
        localize_fold(es, layer_names, lt_names, st).retained == st.retained + unchanged_external(es, after, es.len() as int),
        forall|i: int| 0 <= i < es.len() && #[trigger] after[i] != es[i]
            ==> !has_bar(after[i].common_spec().layer@) && !has_bar(after[i].common_spec().linetype@),
{
    lemma_count_prefix(es, after, layer_names, lt_names, st, es.len() as int);
    assert(es.take(es.len() as int) =~= es);
    assert forall|i: int| 0 <= i < es.len() && #[trigger] after[i] != es[i]
        implies !has_bar(after[i].common_spec().layer@) && !has_bar(after[i].common_spec().linetype@) by {
        let sti = localize_fold(es.take(i), layer_names, lt_names, st);
        if !is_external(es[i].common_spec()) || retained_at(sti, es[i], layer_names, lt_names) {
            law_unlocalized_entity_unchanged(sti, es[i], after[i], layer_names, lt_names);
        } else {
            lemma_localized_entity_changes(sti, es[i], after[i], layer_names, lt_names);
        }
    }
}

/// The count over the first `n` entities (see `law_count_is_unchanged_externals`).
pub proof fn lemma_count_prefix(
    es: Seq<EntityType>,
    after: Seq<EntityType>,
    layer_names: Seq<(Seq<char>, Seq<char>)>,
    lt_names: Seq<(Seq<char>, Seq<char>)>,
    st: LocalizeState,
    n: int,
)
    requires
        0 <= n <= es.len(),
        after.len() == es.len(),
        forall|j: int| 0 <= j < es.len() ==> entity_result(localize_fold(es.take(j), layer_names, lt_names, st),
            es[j], #[trigger] after[j], layer_names, lt_names),
        bar_free(layer_names),
        bar_free(lt_names),
    ensures
        localize_fold(es.take(n), layer_names, lt_names, st).retained == st.retained + unchanged_external(es, after, n),
    decreases n,
{
    if n == 0 {
        assert(es.take(0) =~= Seq::<EntityType>::empty());
    } else {
        lemma_count_prefix(es, after, layer_names, lt_names, st, n - 1);
        let pre = es.take(n);
        assert(pre.drop_last() =~= es.take(n - 1));
        assert(pre.last() == es[n - 1]);
        let stp = localize_fold(es.take(n - 1), layer_names, lt_names, st);
        law_step_retains(stp, es[n - 1], layer_names, lt_names);
        assert(entity_result(stp, es[n - 1], after[n - 1], layer_names, lt_names));
        if retained_at(stp, es[n - 1], layer_names, lt_names) {
            law_unlocalized_entity_unchanged(stp, es[n - 1], after[n - 1], layer_names, lt_names);
        } else if is_external(es[n - 1].common_spec()) {
            lemma_localized_entity_changes(stp, es[n - 1], after[n - 1], layer_names, lt_names);
        }
    }
}

/// A name holds no `|` when none of its characters is one.
pub proof fn lemma_no_bar(s: Seq<char>)
    requires
        forall|j: int| 0 <= j < s.len() ==> #[trigger] s[j] != '|',
    ensures
        !has_bar(s),
{
    lemma_last_bar_before(s, s.len() as int);
}

/// The characters of a name without `|` are none of them `|`.
pub proof fn lemma_bar_free_chars(s: Seq<char>)
    requires
        !has_bar(s),
    ensures
        forall|j: int| 0 <= j < s.len() ==> #[trigger] s[j] != '|',
{
    lemma_last_bar_before(s, s.len() as int);
}

/// The destination of a source name holds no `|`.
pub proof fn lemma_destination_bar_free(used: Seq<Seq<char>>, source: Seq<char>, mode: NestedCopyMode)
    ensures
        source_parts(source) matches Some((prefix, local)) ==> !has_bar(destination_for(used, prefix, local, mode)),
{
    if source_parts(source) is Some {
    let i = last_bar(source);
    lemma_last_bar_before(source, source.len() as int);
    let (prefix, local) = source_parts(source)->0;
    assert forall|j: int| 0 <= j < local.len() implies #[trigger] local[j] != '|' by {
        assert(local[j] == source[i + 1 + j]);
    }
    lemma_no_bar(local);
    match mode {
        NestedCopyMode::Insert => {},
        NestedCopyMode::Bind => {
            let n = crate::nested_copy::free_index_from(used, prefix, local, 0);
            let b = bound_name(prefix, n, local);
            lemma_bar_free_chars(prefix);
            lemma_decimal_digits(n);
            let dn = decimal(n);
            assert forall|j: int| 0 <= j < b.len() implies #[trigger] b[j] != '|' by {
                let p1 = prefix + seq!['$'];
                let p2 = p1 + dn;
                let p3 = p2 + seq!['$'];
                assert(b == p3 + local);
                if j < prefix.len() {
                    assert(b[j] == prefix[j]);
                } else if j < p1.len() {
                    assert(b[j] == '$');
                } else if j < p2.len() {
                    assert(b[j] == dn[j - p1.len()]);
                    assert(48 <= (dn[j - p1.len()]) as u32 <= 57);
                } else if j < p3.len() {
                    assert(b[j] == '$');
                } else {
                    assert(b[j] == local[j - p3.len()]);
                }
            }
            lemma_no_bar(b);
        },
    }
    }
}

/// Processing source names keeps the destinations bar-free.
pub proof fn lemma_fold_bar_free(sources: Seq<Seq<char>>, mode: NestedCopyMode, st: DestinationState)
    requires
        bar_free(st.map),
    ensures
        bar_free(destination_fold(sources, mode, st).map),
    decreases sources.len(),
{
    if sources.len() > 0 {
        lemma_fold_bar_free(sources.drop_last(), mode, st);
        let cur = destination_fold(sources.drop_last(), mode, st);
        let source = sources.last();
        match source_parts(source) {
            Some((prefix, local)) => {
                let d = destination_for(cur.used, prefix, local, mode);
                lemma_destination_bar_free(cur.used, source, mode);
                let key = crate::text::upper_seq(source);
                let m = pair_with(cur.map, key, d);
                let k = pair_index_from(cur.map, key, 0);
                lemma_pair_index_from(cur.map, key, 0);
                if k < cur.map.len() {
                    assert(m == cur.map.update(k, (key, d)));
                    assert forall|i: int| 0 <= i < m.len() implies !has_bar(#[trigger] m[i].1) by {
                        if i != k {
                            assert(m[i] == cur.map[i]);
                        }
                    }
                } else {
                    assert(m == cur.map.push((key, d)));
                    assert forall|i: int| 0 <= i < m.len() implies !has_bar(#[trigger] m[i].1) by {
                        if i < cur.map.len() {
                            assert(m[i] == cur.map[i]);
                        }
                    }
                }
            },
            None => {},
        }
    }
}

/// Destinations that `nested_copy_symbol_names` gives hold no `|`: a
/// destination is the local part of its source, or that part bound to the
/// prefix as `prefix$index$local`.
pub proof fn law_destinations_bar_free(names: Seq<Seq<char>>, mode: NestedCopyMode)
    ensures
        bar_free(destinations_spec(names, mode)),
{
    let sorted = sort_by_upper(names);
    lemma_fold_bar_free(sorted, mode, DestinationState { used: upper_all(sorted), map: Seq::empty() });
}

/// A name that the map gives as some source's destination.
pub open spec fn is_destination(m: Seq<(Seq<char>, Seq<char>)>, name: Seq<char>) -> bool {
    exists|k: int| 0 <= k < m.len() && #[trigger] m[k].1 == name
}

/// Every linetype from `from` on carries a destination name of `m`.
pub open spec fn lines_named_from(lines: Seq<LineTypeModel>, from: int, m: Seq<(Seq<char>, Seq<char>)>) -> bool {
    forall|i: int| from <= i < lines.len() ==> is_destination(m, #[trigger] lines[i].name)
}

/// Every layer from `from` on carries a destination name of `m`.
pub open spec fn layers_named_from(layers: Seq<LayerModel>, from: int, m: Seq<(Seq<char>, Seq<char>)>) -> bool {
    forall|i: int| from <= i < layers.len() ==> is_destination(m, #[trigger] layers[i].name)
}

/// A value that a name map gives is a destination of it.
pub proof fn lemma_pair_get_destination(m: Seq<(Seq<char>, Seq<char>)>, key: Seq<char>)
    ensures
        pair_get(m, key) matches Some(v) ==> is_destination(m, v),
{
    lemma_pair_index_from(m, key, 0);
    let k = pair_index_from(m, key, 0);
    if k < m.len() {
        assert(m[k].1 == pair_get(m, key)->0);
    }
}

/// The linetypes to create for a linetype name carry destination names.
pub proof fn lemma_local_line_named(
    lts: Seq<LineTypeModel>,
    lt_names: Seq<(Seq<char>, Seq<char>)>,
    source: Seq<char>,
    out: Seq<LineTypeModel>,
)
    requires
        lines_named_from(out, 0, lt_names),
    ensures
        local_line(lts, lt_names, source, out) matches Some((_, lines)) ==> lines_named_from(lines, 0, lt_names),
{
    lemma_pair_get_destination(lt_names, upper_seq(source));
    if local_line(lts, lt_names, source, out) is Some && has_bar(source) {
        let (_, lines) = local_line(lts, lt_names, source, out)->0;
        assert forall|i: int| 0 <= i < lines.len() implies is_destination(lt_names, #[trigger] lines[i].name) by {
            if i < out.len() {
                assert(lines[i] == out[i]);
            }
        }
    }
}

/// A plan creates a layer and linetypes that carry destination names.
pub proof fn lemma_plan_named(
    lays: Seq<LayerModel>,
    lts: Seq<LineTypeModel>,
    layer_names: Seq<(Seq<char>, Seq<char>)>,
    lt_names: Seq<(Seq<char>, Seq<char>)>,
    c: EntityCommon,
)
    ensures
        localize_plan(lays, lts, layer_names, lt_names, c) matches Some(plan) ==> {
            &&& lines_named_from(plan.lines, 0, lt_names)
            &&& plan.layer matches Some(l) ==> is_destination(layer_names, l.name)
        },
{
    lemma_pair_get_destination(layer_names, upper_seq(c.layer@));
    assert(lines_named_from(Seq::<LineTypeModel>::empty(), 0, lt_names));
    if has_bar(c.layer@) {
        let dest = pair_get(layer_names, upper_seq(c.layer@));
        match dest {
            Some(d) => match layer_named(lays, d) {
                Some(_) => {},
                None => match layer_named(lays, c.layer@) {
                    Some(imported) => {
                        let prefixed = c.layer@.subrange(0, last_bar(c.layer@)).push('|') + imported.line_type;
                        let source_line = if !has_bar(imported.line_type) && line_type_named(lts, prefixed) is Some {
                            prefixed
                        } else {
                            imported.line_type
                        };
                        lemma_local_line_named(lts, lt_names, source_line, Seq::empty());
                    },
                    None => {},
                },
            },
            None => {},
        }
    }
    match layer_part(lays, lts, layer_names, lt_names, c.layer@) {
        Some((_, lines, _)) => {
            lemma_local_line_named(lts, lt_names, c.linetype@, lines);
        },
        None => {},
    }
}

/// Adding linetypes that carry destination names appends only such.
pub proof fn lemma_add_lines_named(
    lts: Seq<LineTypeModel>,
    lines: Seq<LineTypeModel>,
    seed: int,
    lt_names: Seq<(Seq<char>, Seq<char>)>,
)
    requires
        lines_named_from(lines, 0, lt_names),
    ensures
        add_lines(lts, lines, seed).0.len() >= lts.len(),
        forall|i: int| 0 <= i < lts.len() ==> #[trigger] add_lines(lts, lines, seed).0[i] == lts[i],
        lines_named_from(add_lines(lts, lines, seed).0, lts.len() as int, lt_names),
    decreases lines.len(),
{
    if lines.len() > 0 {
        let front = lines.drop_last();
        assert forall|i: int| 0 <= i < front.len() implies is_destination(lt_names, #[trigger] front[i].name) by {
            assert(front[i] == lines[i]);
        }
        lemma_add_lines_named(lts, front, seed, lt_names);
        let (cur, s) = add_lines(lts, front, seed);
        let line = lines.last();
        assert(is_destination(lt_names, lines[lines.len() - 1].name));
        if line_type_named(cur, line.name) is None {
            let b = cur.push(LineTypeModel { handle: crate::types::Handle { value: s as u64 }, ..line });
            assert(add_lines(lts, lines, seed).0 == b);
            assert forall|i: int| 0 <= i < lts.len() implies #[trigger] b[i] == lts[i] by {
                assert(b[i] == cur[i]);
            }
            assert forall|i: int| lts.len() <= i < b.len() implies is_destination(lt_names, #[trigger] b[i].name) by {
                if i < cur.len() {
                    assert(b[i] == cur[i]);
                }
            }
        }
    }
}

/// Localizing appends only layers and linetypes that carry destination names.
pub proof fn lemma_fold_named(
    es: Seq<EntityType>,
    layer_names: Seq<(Seq<char>, Seq<char>)>,
    lt_names: Seq<(Seq<char>, Seq<char>)>,
    st: LocalizeState,
)
    ensures
        localize_fold(es, layer_names, lt_names, st).layers.len() >= st.layers.len(),
        localize_fold(es, layer_names, lt_names, st).line_types.len() >= st.line_types.len(),
        forall|i: int| 0 <= i < st.layers.len() ==> #[trigger] localize_fold(es, layer_names, lt_names, st).layers[i] == st.layers[i],
        forall|i: int| 0 <= i < st.line_types.len()
            ==> #[trigger] localize_fold(es, layer_names, lt_names, st).line_types[i] == st.line_types[i],
        layers_named_from(localize_fold(es, layer_names, lt_names, st).layers, st.layers.len() as int, layer_names),
        lines_named_from(localize_fold(es, layer_names, lt_names, st).line_types, st.line_types.len() as int, lt_names),
    decreases es.len(),
{
    if es.len() > 0 {
        lemma_fold_named(es.drop_last(), layer_names, lt_names, st);
        let mid = localize_fold(es.drop_last(), layer_names, lt_names, st);
        let e = es.last();
        let c = e.common_spec();
        let fin = localize_fold(es, layer_names, lt_names, st);
        assert(fin == localize_step(mid, e, layer_names, lt_names));
        if is_external(c) && !kept_outright(e) {
            match localize_plan(mid.layers, mid.line_types, layer_names, lt_names, c) {
                Some(plan) => {
                    lemma_plan_named(mid.layers, mid.line_types, layer_names, lt_names, c);
                    lemma_add_lines_named(mid.line_types, plan.lines, mid.seed, lt_names);
                    let lts = add_lines(mid.line_types, plan.lines, mid.seed).0;
                    assert(fin.line_types == lts);
                    assert forall|i: int| 0 <= i < st.line_types.len() implies #[trigger] fin.line_types[i] == st.line_types[i] by {
                        assert(fin.line_types[i] == mid.line_types[i]);
                    }
                    assert forall|i: int| st.line_types.len() <= i < fin.line_types.len()
                        implies is_destination(lt_names, #[trigger] fin.line_types[i].name) by {
                        if i < mid.line_types.len() {
                            assert(fin.line_types[i] == mid.line_types[i]);
                        }
                    }
                    assert forall|i: int| 0 <= i < st.layers.len() implies #[trigger] fin.layers[i] == st.layers[i] by {
                        assert(fin.layers[i] == mid.layers[i]);
                    }
                    assert forall|i: int| st.layers.len() <= i < fin.layers.len()
                        implies is_destination(layer_names, #[trigger] fin.layers[i].name) by {
                        if i < mid.layers.len() {
                            assert(fin.layers[i] == mid.layers[i]);
                        }
                    }
                },
                None => {},
            }
        }
    }
}

/// What localizing does to the symbol tables and to the entities' linetype
/// handles: every layer and linetype there stays in place; the appended ones
/// carry destination names of the maps and rising handles from the seed on,
/// below the final seed (non-null from a non-null seed); and a changed entity
/// that takes a linetype handle takes the one the final table gives under its
/// linetype name.
pub proof fn law_localized_symbols(
    es: Seq<EntityType>,
    after: Seq<EntityType>,
    layer_names: Seq<(Seq<char>, Seq<char>)>,
    lt_names: Seq<(Seq<char>, Seq<char>)>,
    st: LocalizeState,
)
    requires
        0 <= st.seed,
        st.seed + 3 * es.len() <= u64::MAX,
        after.len() == es.len(),
        forall|j: int| 0 <= j < es.len() ==> entity_result(localize_fold(es.take(j), layer_names, lt_names, st),
            es[j], #[trigger] after[j], layer_names, lt_names),
    ensures
        ({
            let fin = localize_fold(es, layer_names, lt_names, st);
            &&& layers_grow(st.layers, fin.layers, st.seed, fin.seed)
            &&& line_types_grow(st.line_types, fin.line_types, st.seed, fin.seed)
            &&& layers_named_from(fin.layers, st.layers.len() as int, layer_names)
            &&& lines_named_from(fin.line_types, st.line_types.len() as int, lt_names)
            &&& forall|i: int| 0 <= i < es.len() && #[trigger] after[i] != es[i]
                && after[i].common_spec().linetype_handle is Some
                ==> (line_type_named(fin.line_types, after[i].common_spec().linetype@) matches Some(l)
                    && Some(l.handle) == after[i].common_spec().linetype_handle)
        }),
{
    law_symbols_kept_and_fresh(es, layer_names, lt_names, st);
    lemma_fold_named(es, layer_names, lt_names, st);
    assert forall|i: int| 0 <= i < es.len() && #[trigger] after[i] != es[i] && after[i].common_spec().linetype_handle is Some
        implies (line_type_named(localize_fold(es, layer_names, lt_names, st).line_types, after[i].common_spec().linetype@)
            matches Some(l) && Some(l.handle) == after[i].common_spec().linetype_handle) by {
        law_localized_linetype_handle(es, layer_names, lt_names, st, i, after[i]);
    }
}

/// The kinds whose references localizing rewrites: points, lines, circles,
/// arcs, ellipses, polylines (plain, 2D, 3D and lightweight), splines,
/// helixes, solids, 3D faces, rays, construction lines, meshes and polyface
/// meshes. An external entity of one of these kinds that carries no
/// material or plot style is localized when its symbols resolve (it is not
/// counted, and the step applies its plan); an external entity of any other
/// kind, such as a text, an insert, a hatch or a surface, or one with a
/// non-null material or plot style, is retained and counted.
pub proof fn law_localized_kinds(
    st: LocalizeState,
    e: EntityType,
    layer_names: Seq<(Seq<char>, Seq<char>)>,
    lt_names: Seq<(Seq<char>, Seq<char>)>,
)
    requires
        is_external(e.common_spec()),
    ensures
        ({
            let c = e.common_spec();
            let listed = e is Point || e is Line || e is Circle || e is Arc || e is Ellipse || e is Polyline
                || e is Polyline2D || e is Polyline3D || e is LwPolyline || e is Spline || e is Helix
                || e is Solid || e is Face3D || e is Ray || e is XLine || e is Mesh || e is PolyfaceMesh;
            let unstyled = !(c.material_handle matches Some(h) && h.value != 0)
                && !(c.plotstyle_handle matches Some(h) && h.value != 0);
            let plan = localize_plan(st.layers, st.line_types, layer_names, lt_names, c);
            &&& (listed && unstyled && plan is Some)
                ==> localize_step(st, e, layer_names, lt_names) == apply_plan(st, plan->0)
                    && !retained_at(st, e, layer_names, lt_names)
            &&& (!listed || !unstyled) ==> retained_at(st, e, layer_names, lt_names)
                && localize_step(st, e, layer_names, lt_names) == (LocalizeState { retained: st.retained + 1, ..st })
        }),
{
}

/// A name refers to an external reference exactly when it holds a `|`.
pub proof fn law_has_bar(s: Seq<char>)
    ensures
        has_bar(s) <==> exists|j: int| 0 <= j < s.len() && s[j] == '|',
{
    lemma_last_bar_before(s, s.len() as int);
    if has_bar(s) {
        assert(s[last_bar(s)] == '|');
    }
}

/// `dest` is the destination that a symbol named `source` takes: the source
/// holds exactly one `|`, and the destination is what follows it (insert), or
/// what precedes it and what follows it joined as `prefix$index$local` for
/// some index (bind).
pub open spec fn destination_of(source: Seq<char>, dest: Seq<char>, mode: NestedCopyMode) -> bool {
    exists|i: int| 0 <= i < source.len() && #[trigger] source[i] == '|'
        && (forall|j: int| 0 <= j < source.len() && j != i ==> source[j] != '|')
        && match mode {
            NestedCopyMode::Insert => dest == source.subrange(i + 1, source.len() as int),
            NestedCopyMode::Bind => exists|n: nat| dest == source.subrange(0, i) + seq!['$'] + #[trigger] decimal(n)
                + seq!['$'] + source.subrange(i + 1, source.len() as int),
        }
}

/// A source name that `destinations_spec` maps names its destination (see `destination_of`).
proof fn lemma_step_destination(used: Seq<Seq<char>>, source: Seq<char>, mode: NestedCopyMode)
    ensures
        source_parts(source) matches Some((prefix, local))
            ==> destination_of(source, destination_for(used, prefix, local, mode), mode),
{
    if source_parts(source) is Some {
    let i = last_bar(source);
    lemma_last_bar_before(source, source.len() as int);
    let (prefix, local) = source_parts(source)->0;
    lemma_last_bar_before(prefix, prefix.len() as int);
    assert forall|j: int| 0 <= j < source.len() && j != i implies source[j] != '|' by {
        if j < i {
            assert(prefix[j] == source[j]);
        }
    }
    match mode {
        NestedCopyMode::Insert => {},
        NestedCopyMode::Bind => {
            let n = crate::nested_copy::free_index_from(used, prefix, local, 0);
            assert(destination_for(used, prefix, local, mode) == prefix + seq!['$'] + decimal(n) + seq!['$'] + local);
        },
    }
    }
}

/// Processing source names maps each key to the destination of a source name
/// with that key, and gives every source with one `|` a key.
proof fn lemma_fold_destinations(sources: Seq<Seq<char>>, mode: NestedCopyMode, used: Seq<Seq<char>>)
    ensures
        ({
            let m = destination_fold(sources, mode, DestinationState { used, map: Seq::empty() }).map;
            &&& forall|k: int| #![trigger m[k]] 0 <= k < m.len() ==> exists|j: int| 0 <= j < sources.len()
                && upper_seq(#[trigger] sources[j]) == m[k].0 && destination_of(sources[j], m[k].1, mode)
            &&& forall|j: int| 0 <= j < sources.len() && source_parts(#[trigger] sources[j]) is Some
                ==> exists|k: int| 0 <= k < m.len() && m[k].0 == upper_seq(sources[j])
        }),
    decreases sources.len(),
{
    if sources.len() > 0 {
        let front = sources.drop_last();
        lemma_fold_destinations(front, mode, used);
        let cur = destination_fold(front, mode, DestinationState { used, map: Seq::empty() });
        let m0 = cur.map;
        let source = sources.last();
        let m = destination_fold(sources, mode, DestinationState { used, map: Seq::empty() }).map;
        assert forall|j: int| 0 <= j < front.len() implies #[trigger] front[j] == sources[j] by {}
        match source_parts(source) {
            Some((prefix, local)) => {
                let d = destination_for(cur.used, prefix, local, mode);
                let key = upper_seq(source);
                lemma_step_destination(cur.used, source, mode);
                lemma_pair_index_from(m0, key, 0);
                let p = pair_index_from(m0, key, 0);
                assert(m == pair_with(m0, key, d));
                assert forall|k: int| #![trigger m[k]] 0 <= k < m.len() implies exists|j: int| 0 <= j < sources.len()
                    && upper_seq(#[trigger] sources[j]) == m[k].0 && destination_of(sources[j], m[k].1, mode) by {
                    if (p < m0.len() && k == p) || (p >= m0.len() && k == m0.len()) {
                        assert(m[k] == (key, d));
                        assert(sources[sources.len() - 1] == source);
                    } else {
                        assert(m[k] == m0[k]);
                        let j = choose|j: int| 0 <= j < front.len()
                            && upper_seq(#[trigger] front[j]) == m0[k].0 && destination_of(front[j], m0[k].1, mode);
                        assert(sources[j] == front[j]);
                    }
                }
                assert forall|j: int| 0 <= j < sources.len() && source_parts(#[trigger] sources[j]) is Some
                    implies exists|k: int| 0 <= k < m.len() && m[k].0 == upper_seq(sources[j]) by {
                    if j == sources.len() - 1 {
                        if p < m0.len() {
                            assert(m[p].0 == key);
                        } else {
                            assert(m[m0.len() as int].0 == key);
                        }
                    } else {
                        assert(sources[j] == front[j]);
                        let k = choose|k: int| 0 <= k < m0.len() && m0[k].0 == upper_seq(front[j]);
                        if p < m0.len() && k == p {
                            assert(m[p].0 == key);
                            assert(m0[p].0 == key);
                        } else {
                            assert(m[k] == m0[k]);
                        }
                    }
                }
            },
            None => {
                assert(m == m0);
                assert forall|k: int| #![trigger m[k]] 0 <= k < m.len() implies exists|j: int| 0 <= j < sources.len()
                    && upper_seq(#[trigger] sources[j]) == m[k].0 && destination_of(sources[j], m[k].1, mode) by {
                    let j = choose|j: int| 0 <= j < front.len()
                        && upper_seq(#[trigger] front[j]) == m0[k].0 && destination_of(front[j], m0[k].1, mode);
                    assert(sources[j] == front[j]);
                }
                assert forall|j: int| 0 <= j < sources.len() && source_parts(#[trigger] sources[j]) is Some
                    implies exists|k: int| 0 <= k < m.len() && m[k].0 == upper_seq(sources[j]) by {
                    assert(j != sources.len() - 1);
                    assert(sources[j] == front[j]);
                }
            },
        }
    }
}

/// The key of `pair` is the ASCII upper case of a name among `names`, and its
/// value that name's destination.
pub open spec fn key_destined(names: Seq<Seq<char>>, pair: (Seq<char>, Seq<char>), mode: NestedCopyMode) -> bool {
    exists|y: Seq<char>| #[trigger] names.contains(y) && upper_seq(y) == pair.0 && destination_of(y, pair.1, mode)
}

/// Every key of the map `m` is the ASCII upper case of a name among `names`
/// that maps to that name's destination (see `destination_of`), and every
/// name with exactly one `|` has a key.
pub open spec fn names_destined(names: Seq<Seq<char>>, m: Seq<(Seq<char>, Seq<char>)>, mode: NestedCopyMode) -> bool {
    &&& forall|k: int| 0 <= k < m.len() ==> #[trigger] key_destined(names, m[k], mode)
    &&& forall|y: Seq<char>| #[trigger] names.contains(y) && source_parts(y) is Some
        ==> exists|k: int| 0 <= k < m.len() && m[k].0 == upper_seq(y)
}

/// A key of the destination map comes from a name of the table (see `names_destined`).
proof fn lemma_key_destined(names: Seq<Seq<char>>, mode: NestedCopyMode, k: int)
    requires
        0 <= k < destinations_spec(names, mode).len(),
    ensures
        key_destined(names, destinations_spec(names, mode)[k], mode),
{
    let sorted = sort_by_upper(names);
    lemma_fold_destinations(sorted, mode, upper_all(sorted));
    let m = destinations_spec(names, mode);
    assert(m[k] == m[k]);
    let j = choose|j: int| 0 <= j < sorted.len()
        && upper_seq(#[trigger] sorted[j]) == m[k].0 && destination_of(sorted[j], m[k].1, mode);
    lemma_sort_contains(names, sorted[j]);
    assert(sorted.contains(sorted[j]));
    assert(names.contains(sorted[j]));
}

/// Every key of the destination map is the ASCII upper case of a symbol name
/// of the table that holds exactly one `|`, and maps to that name's
/// destination: the local part after the `|` (insert), or `prefix$index$local`
/// for some index (bind); every symbol name with exactly one `|` has a key.
pub proof fn law_destination_names(names: Seq<Seq<char>>, mode: NestedCopyMode)
    ensures
        names_destined(names, destinations_spec(names, mode), mode),
{
    let sorted = sort_by_upper(names);
    lemma_fold_destinations(sorted, mode, upper_all(sorted));
    let m = destinations_spec(names, mode);
    assert forall|k: int| 0 <= k < m.len() implies #[trigger] key_destined(names, m[k], mode) by {
        lemma_key_destined(names, mode, k);
    }
    assert forall|y: Seq<char>| #[trigger] names.contains(y) && source_parts(y) is Some
        implies exists|k: int| 0 <= k < m.len() && m[k].0 == upper_seq(y) by {
        lemma_sort_contains(names, y);
        let j = choose|j: int| 0 <= j < sorted.len() && sorted[j] == y;
        assert(source_parts(sorted[j]) is Some);
    }
}

} // verus!
