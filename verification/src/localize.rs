//! Localizing the layer and linetype references of entities copied out of an
//! external reference.

use vstd::prelude::*;
use crate::document::CadDocument;
use crate::entities::entity::{EntityCommon, EntityType};
use crate::nested_copy::{NestedCopySymbolNames, pairs_model, pair_get, pair_lookup, last_bar, last_bar_index,
    lemma_last_bar_before};
use crate::tables::{Layer, LayerFlags, LayerModel, LineType, LineTypeModel, Table, TableRecord, layer_models,
    line_type_models, layer_model_names, line_type_model_names, layer_named, line_type_named, name_position,
    record_named, record_names, with_record_named, lemma_layer_names, lemma_line_type_names, lemma_name_position};
use crate::text::{upper_seq, eq_ci, eq_ignore_ascii_case, push_char, to_ascii_uppercase};
use crate::types::Handle;
use crate::localize_laws::{retained_at, external_count, law_all_retained_entities_unchanged};

verus! {

/// The name refers to an external reference: it holds a `|`.
pub open spec fn has_bar(s: Seq<char>) -> bool {
    last_bar(s) >= 0
}

/// Whether a string holds a `|`.
fn holds_bar(s: &str) -> (b: bool)
    ensures
        b == has_bar(s@),
{
    last_bar_index(s).is_some()
}

/// Entity kinds whose layer and linetype references can be localized.
pub open spec fn localizable_kind(e: EntityType) -> bool {
    match e {
        EntityType::Point(_) | EntityType::Line(_) | EntityType::Circle(_) | EntityType::Arc(_)
        | EntityType::Ellipse(_) | EntityType::Polyline(_) | EntityType::Polyline2D(_)
        | EntityType::Polyline3D(_) | EntityType::LwPolyline(_) | EntityType::Spline(_)
        | EntityType::Helix(_) | EntityType::Solid(_) | EntityType::Face3D(_) | EntityType::Ray(_)
        | EntityType::XLine(_) | EntityType::Mesh(_) | EntityType::PolyfaceMesh(_) => true,
        _ => false,
    }
}

/// Whether an entity kind can be localized.
fn is_localizable(e: &EntityType) -> (b: bool)
    ensures
        b == localizable_kind(*e),
{
    match e {
        EntityType::Point(_) | EntityType::Line(_) | EntityType::Circle(_) | EntityType::Arc(_)
        | EntityType::Ellipse(_) | EntityType::Polyline(_) | EntityType::Polyline2D(_)
        | EntityType::Polyline3D(_) | EntityType::LwPolyline(_) | EntityType::Spline(_)
        | EntityType::Helix(_) | EntityType::Solid(_) | EntityType::Face3D(_) | EntityType::Ray(_)
        | EntityType::XLine(_) | EntityType::Mesh(_) | EntityType::PolyfaceMesh(_) => true,
        _ => false,
    }
}

/// A handle that is present and not null.
pub open spec fn non_null(h: Option<Handle>) -> bool {
    h matches Some(x) && x.value != 0
}

/// An entity that refers to an external reference's layer or linetype.
pub open spec fn is_external(c: EntityCommon) -> bool {
    has_bar(c.layer@) || has_bar(c.linetype@)
}

/// An external entity kept as it is: it carries a material or plot style, or
/// its kind is not supported.
pub open spec fn kept_outright(e: EntityType) -> bool {
    non_null(e.common_spec().material_handle) || non_null(e.common_spec().plotstyle_handle) || !localizable_kind(e)
}

/// A linetype that embeds shapes or text.
pub open spec fn line_is_complex(m: LineTypeModel) -> bool {
    exists|i: int| 0 <= i < m.elements.len() && (#[trigger] m.elements[i]).complex is Some
}

/// Local linetype for a source linetype name, and the linetypes to create: a
/// local name stays; a reference name takes its destination, reusing an
/// existing linetype of that name or copying the simple source linetype.
pub open spec fn local_line(
    lts: Seq<LineTypeModel>,
    lt_names: Seq<(Seq<char>, Seq<char>)>,
    source: Seq<char>,
    out: Seq<LineTypeModel>,
) -> Option<(Seq<char>, Seq<LineTypeModel>)> {
    if !has_bar(source) {
        Some((source, out))
    } else {
        match pair_get(lt_names, upper_seq(source)) {
            None => None,
            Some(dest) => match line_type_named(lts, dest) {
                Some(existing) => Some((existing.name, out)),
                None => match line_type_named(lts, source) {
                    None => None,
                    Some(line) => if line_is_complex(line) {
                        None
                    } else {
                        let local = LineTypeModel {
                            name: dest,
                            handle: Handle { value: 0 },
                            xref_dependent: false,
                            xref_block_record_handle: Handle { value: 0 },
                            ..line
                        };
                        Some((dest, if name_position(line_type_model_names(out), dest, 0) < out.len() {
                            out
                        } else {
                            out.push(local)
                        }))
                    },
                },
            },
        }
    }
}

/// Local layer for an entity's layer name, the layer to create, and the
/// linetypes the new layer needs.
pub open spec fn layer_part(
    lays: Seq<LayerModel>,
    lts: Seq<LineTypeModel>,
    layer_names: Seq<(Seq<char>, Seq<char>)>,
    lt_names: Seq<(Seq<char>, Seq<char>)>,
    layer: Seq<char>,
) -> Option<(Option<LayerModel>, Seq<LineTypeModel>, Seq<char>)> {
    if !has_bar(layer) {
        Some((None, Seq::empty(), layer))
    } else {
        match pair_get(layer_names, upper_seq(layer)) {
            None => None,
            Some(dest) => match layer_named(lays, dest) {
                Some(existing) => Some((None, Seq::empty(), existing.name)),
                None => match layer_named(lays, layer) {
                    None => None,
                    Some(imported) => if imported.material.value != 0 || imported.plotstyle_handle.value != 0 {
                        None
                    } else {
                        let prefixed = layer.subrange(0, last_bar(layer)).push('|') + imported.line_type;
                        let source_line = if !has_bar(imported.line_type) && line_type_named(lts, prefixed) is Some {
                            prefixed
                        } else {
                            imported.line_type
                        };
                        match local_line(lts, lt_names, source_line, Seq::empty()) {
                            None => None,
                            Some((lt, out)) => Some((
                                Some(LayerModel {
                                    line_type: lt,
                                    name: dest,
                                    handle: Handle { value: 0 },
                                    flags: LayerFlags { xref_dependent: false, ..imported.flags },
                                    xref_block_record_handle: Handle { value: 0 },
                                    ..imported
                                }),
                                out,
                                dest,
                            )),
                        }
                    },
                },
            },
        }
    }
}

/// What localizing one entity needs: a layer to create, linetypes to create,
/// and the entity's new layer and linetype names.
pub struct LocalizePlan {
    pub layer: Option<LayerModel>,
    pub lines: Seq<LineTypeModel>,
    pub layer_name: Seq<char>,
    pub line_name: Seq<char>,
}

/// The plan for an entity's references; none when they cannot be localized.
pub open spec fn localize_plan(
    lays: Seq<LayerModel>,
    lts: Seq<LineTypeModel>,
    layer_names: Seq<(Seq<char>, Seq<char>)>,
    lt_names: Seq<(Seq<char>, Seq<char>)>,
    c: EntityCommon,
) -> Option<LocalizePlan> {
    match layer_part(lays, lts, layer_names, lt_names, c.layer@) {
        None => None,
        Some((layer, lines, layer_name)) => match local_line(lts, lt_names, c.linetype@, lines) {
            None => None,
            Some((line_name, lines2)) => Some(LocalizePlan { layer, lines: lines2, layer_name, line_name }),
        },
    }
}

/// Symbol tables and handle seed while entities are localized, and the number
/// of entities kept with their references.
pub struct LocalizeState {
    pub layers: Seq<LayerModel>,
    pub line_types: Seq<LineTypeModel>,
    pub seed: int,
    pub retained: nat,
}

/// Linetypes added in order, each under a fresh handle, unless one of that name exists.
pub open spec fn add_lines(lts: Seq<LineTypeModel>, lines: Seq<LineTypeModel>, seed: int) -> (Seq<LineTypeModel>, int)
    decreases lines.len(),
{
    if lines.len() == 0 {
        (lts, seed)
    } else {
        let (cur, s) = add_lines(lts, lines.drop_last(), seed);
        let line = lines.last();
        if line_type_named(cur, line.name) is None {
            (cur.push(LineTypeModel { handle: Handle { value: s as u64 }, ..line }), s + 1)
        } else {
            (cur, s)
        }
    }
}

/// State after a plan is carried out.
pub open spec fn apply_plan(st: LocalizeState, plan: LocalizePlan) -> LocalizeState {
    let (lts, s) = add_lines(st.line_types, plan.lines, st.seed);
    match plan.layer {
        Some(l) => LocalizeState {
            layers: st.layers.push(LayerModel { handle: Handle { value: s as u64 }, ..l }),
            line_types: lts,
            seed: s + 1,
            retained: st.retained,
        },
        None => LocalizeState { layers: st.layers, line_types: lts, seed: s, retained: st.retained },
    }
}

/// One entity localized, or counted as retained.
pub open spec fn localize_step(
    st: LocalizeState,
    e: EntityType,
    layer_names: Seq<(Seq<char>, Seq<char>)>,
    lt_names: Seq<(Seq<char>, Seq<char>)>,
) -> LocalizeState {
    let c = e.common_spec();
    if !is_external(c) {
        st
    } else if kept_outright(e) {
        LocalizeState { retained: st.retained + 1, ..st }
    } else {
        match localize_plan(st.layers, st.line_types, layer_names, lt_names, c) {
            None => LocalizeState { retained: st.retained + 1, ..st },
            Some(plan) => apply_plan(st, plan),
        }
    }
}

/// The entities processed in order.
pub open spec fn localize_fold(
    es: Seq<EntityType>,
    layer_names: Seq<(Seq<char>, Seq<char>)>,
    lt_names: Seq<(Seq<char>, Seq<char>)>,
    st: LocalizeState,
) -> LocalizeState
    decreases es.len(),
{
    if es.len() == 0 {
        st
    } else {
        localize_step(localize_fold(es.drop_last(), layer_names, lt_names, st), es.last(), layer_names, lt_names)
    }
}

/// How an entity reads after its step: unchanged, or with its layer and
/// linetype names from the plan and the handle of its linetype.
pub open spec fn entity_result(
    st: LocalizeState,
    before: EntityType,
    after: EntityType,
    layer_names: Seq<(Seq<char>, Seq<char>)>,
    lt_names: Seq<(Seq<char>, Seq<char>)>,
) -> bool {
    let c = before.common_spec();
    if !is_external(c) || kept_outright(before)
        || localize_plan(st.layers, st.line_types, layer_names, lt_names, c) is None {
        after == before
    } else {
        let plan = localize_plan(st.layers, st.line_types, layer_names, lt_names, c)->0;
        let st2 = apply_plan(st, plan);
        let h = match line_type_named(st2.line_types, plan.line_name) {
            Some(l) => Some(l.handle),
            None => None,
        };
        let ac = after.common_spec();
        &&& ac.layer@ == plan.layer_name
        &&& ac.linetype@ == plan.line_name
        &&& after == before.with_common(EntityCommon { layer: ac.layer, linetype: ac.linetype, linetype_handle: h, ..c })
    }
}

/// A layer found by name in a table is the model found by name among its models.
pub proof fn lemma_layer_named(rs: Seq<Layer>, name: Seq<char>)
    ensures
        match record_named(rs, name) {
            Some(l) => layer_named(layer_models(rs), name) == Some(l@),
            None => layer_named(layer_models(rs), name) is None,
        },
{
    lemma_layer_names(rs);
    lemma_name_position(record_names(rs), name, 0);
}

/// A linetype found by name in a table is the model found by name among its models.
pub proof fn lemma_line_type_named(rs: Seq<LineType>, name: Seq<char>)
    ensures
        match record_named(rs, name) {
            Some(l) => line_type_named(line_type_models(rs), name) == Some(l@),
            None => line_type_named(line_type_models(rs), name) is None,
        },
{
    lemma_line_type_names(rs);
    lemma_name_position(record_names(rs), name, 0);
}

/// Model of an optional layer.
pub open spec fn opt_layer_model(o: Option<Layer>) -> Option<LayerModel> {
    match o {
        Some(l) => Some(l@),
        None => None,
    }
}

/// Position of the first linetype of a list with the given name, ASCII case ignored.
fn line_position(v: &Vec<LineType>, name: &str) -> (i: usize)
    ensures
        i == name_position(line_type_model_names(line_type_models(v@)), name@, 0),
        i <= v@.len(),
{
    let ghost names = line_type_model_names(line_type_models(v@));
    let mut i: usize = 0;
    while i < v.len()
        invariant
            names == line_type_model_names(line_type_models(v@)),
            names.len() == v@.len(),
            i <= v@.len(),
            name_position(names, name@, 0) == name_position(names, name@, i as int),
        decreases v@.len() - i,
    {
        assert(names[i as int] == v@[i as int].name@);
        if eq_ignore_ascii_case(v[i].name.as_str(), name) {
            return i;
        }
        i += 1;
    }
    i
}

/// Adding `lines` raises the seed by at most their number.
pub proof fn lemma_add_lines_seed(lts: Seq<LineTypeModel>, lines: Seq<LineTypeModel>, seed: int)
    ensures
        seed <= add_lines(lts, lines, seed).1 <= seed + lines.len(),
    decreases lines.len(),
{
    if lines.len() > 0 {
        lemma_add_lines_seed(lts, lines.drop_last(), seed);
    }
}

/// A linetype resolution adds at most one linetype.
pub proof fn lemma_local_line_len(
    lts: Seq<LineTypeModel>,
    lt_names: Seq<(Seq<char>, Seq<char>)>,
    source: Seq<char>,
    out: Seq<LineTypeModel>,
)
    ensures
        local_line(lts, lt_names, source, out) matches Some((d, out2)) ==> out2.len() <= out.len() + 1,
{
}

/// One step raises the seed by at most three.
pub proof fn lemma_step_seed(
    st: LocalizeState,
    e: EntityType,
    layer_names: Seq<(Seq<char>, Seq<char>)>,
    lt_names: Seq<(Seq<char>, Seq<char>)>,
)
    ensures
        st.seed <= localize_step(st, e, layer_names, lt_names).seed <= st.seed + 3,
        localize_step(st, e, layer_names, lt_names).retained <= st.retained + 1,
{
    let c = e.common_spec();
    if is_external(c) && !kept_outright(e) {
        match localize_plan(st.layers, st.line_types, layer_names, lt_names, c) {
            Some(plan) => {
                let lp = layer_part(st.layers, st.line_types, layer_names, lt_names, c.layer@)->0;
                if has_bar(c.layer@) {
                    let dest = pair_get(layer_names, upper_seq(c.layer@))->0;
                    if layer_named(st.layers, dest) is None {
                        let imported = layer_named(st.layers, c.layer@)->0;
                        let prefixed = c.layer@.subrange(0, last_bar(c.layer@)).push('|') + imported.line_type;
                        let source_line = if !has_bar(imported.line_type) && line_type_named(st.line_types, prefixed) is Some {
                            prefixed
                        } else {
                            imported.line_type
                        };
                        lemma_local_line_len(st.line_types, lt_names, source_line, Seq::empty());
                    }
                }
                lemma_local_line_len(st.line_types, lt_names, c.linetype@, lp.1);
                lemma_add_lines_seed(st.line_types, plan.lines, st.seed);
            },
            None => {},
        }
    }
}

/// The fold raises the seed by at most three per entity and retains at most every entity.
pub proof fn lemma_fold_bounds(
    es: Seq<EntityType>,
    layer_names: Seq<(Seq<char>, Seq<char>)>,
    lt_names: Seq<(Seq<char>, Seq<char>)>,
    st: LocalizeState,
)
    ensures
        st.seed <= localize_fold(es, layer_names, lt_names, st).seed <= st.seed + 3 * es.len(),
        localize_fold(es, layer_names, lt_names, st).retained <= st.retained + es.len(),
    decreases es.len(),
{
    if es.len() > 0 {
        lemma_fold_bounds(es.drop_last(), layer_names, lt_names, st);
        lemma_step_seed(localize_fold(es.drop_last(), layer_names, lt_names, st), es.last(), layer_names, lt_names);
    }
}

impl CadDocument {
    /// Models of the layers.
    pub open spec fn layer_models(&self) -> Seq<LayerModel> {
        layer_models(self.layers.entries@)
    }

    /// Models of the linetypes.
    pub open spec fn line_type_models(&self) -> Seq<LineTypeModel> {
        line_type_models(self.line_types.entries@)
    }

    /// Resolve a linetype name for localization (see `local_line`).
    fn local_line(&self, lt_names: &Vec<(String, String)>, source: &str, output: &mut Vec<LineType>) -> (r: Option<String>)
        ensures
            match local_line(self.line_type_models(), pairs_model(lt_names@), source@, line_type_models(old(output)@)) {
                None => r is None && final(output)@ == old(output)@,
                Some((d, out)) => r matches Some(x) && x@ == d && line_type_models(final(output)@) == out,
            },
    {
        if !holds_bar(source) {
            return Some(source.to_owned());
        }
        let key = to_ascii_uppercase(source);
        let destination = match pair_lookup(lt_names, key.as_str()) {
            Some(d) => d.clone(),
            None => return None,
        };
        proof {
            lemma_line_type_named(self.line_types.entries@, destination@);
            lemma_line_type_named(self.line_types.entries@, source@);
        }
        match self.line_types.get(destination.as_str()) {
            Some(existing) => {
                return Some(existing.name.clone());
            },
            None => {},
        }
        let source_line = match self.line_types.get(source) {
            Some(l) => l,
            None => return None,
        };
        if source_line.is_complex() {
            return None;
        }
        let mut line = source_line.copy();
        line.name = destination.clone();
        line.handle = Handle::null();
        line.xref_dependent = false;
        line.xref_block_record_handle = Handle::null();
        let ghost before = line_type_models(output@);
        if line_position(output, destination.as_str()) >= output.len() {
            output.push(line);
            assert(line_type_models(output@) =~= before.push(line@));
        }
        Some(destination)
    }

    /// Resolve a layer name for localization (see `layer_part`).
    fn layer_part(&self, names: &NestedCopySymbolNames, layer: &str) -> (r: Option<(Option<Layer>, Vec<LineType>, String)>)
        ensures
            match layer_part(self.layer_models(), self.line_type_models(), pairs_model(names.layers@),
                pairs_model(names.line_types@), layer@) {
                None => r is None,
                Some((l, out, name)) => r matches Some((rl, rout, rname))
                    && opt_layer_model(rl) == l && line_type_models(rout@) == out && rname@ == name,
            },
    {
        let ghost empty = Seq::<LineTypeModel>::empty();
        if !holds_bar(layer) {
            let out: Vec<LineType> = Vec::new();
            assert(line_type_models(out@) =~= empty);
            return Some((None, out, layer.to_owned()));
        }
        let key = to_ascii_uppercase(layer);
        let destination = match pair_lookup(&names.layers, key.as_str()) {
            Some(d) => d.clone(),
            None => return None,
        };
        proof {
            lemma_layer_named(self.layers.entries@, destination@);
            lemma_layer_named(self.layers.entries@, layer@);
        }
        match self.layers.get(destination.as_str()) {
            Some(existing) => {
                let out: Vec<LineType> = Vec::new();
                assert(line_type_models(out@) =~= empty);
                return Some((None, out, existing.name.clone()));
            },
            None => {},
        }
        let mut imported = match self.layers.get(layer) {
            Some(l) => l.copy(),
            None => return None,
        };
        if !imported.material.is_null() || !imported.plotstyle_handle.is_null() {
            return None;
        }
        let b = match last_bar_index(layer) {
            Some(b) => b,
            None => return None,
        };
        proof {
            lemma_last_bar_before(layer@, layer@.len() as int);
        }
        let prefix = layer.substring_char(0, b);
        let mut prefixed = prefix.to_owned();
        push_char(&mut prefixed, '|');
        prefixed.append(imported.line_type.as_str());
        proof {
            lemma_line_type_named(self.line_types.entries@, prefixed@);
        }
        let source_line = if !holds_bar(imported.line_type.as_str()) && self.line_types.get(prefixed.as_str()).is_some() {
            prefixed
        } else {
            imported.line_type.clone()
        };
        let mut out: Vec<LineType> = Vec::new();
        assert(line_type_models(out@) =~= empty);
        let line_type = match self.local_line(&names.line_types, source_line.as_str(), &mut out) {
            Some(lt) => lt,
            None => return None,
        };
        imported.line_type = line_type;
        imported.name = destination.clone();
        imported.handle = Handle::null();
        imported.flags.xref_dependent = false;
        imported.xref_block_record_handle = Handle::null();
        Some((Some(imported), out, destination))
    }
}

/// Two documents agree on everything but their layers, linetypes and handle seed.
pub open spec fn same_besides_symbols(a: CadDocument, b: CadDocument) -> bool {
    &&& a.version == b.version
    &&& a.maintenance_version == b.maintenance_version
    &&& a.header.named_objects_dict_handle == b.header.named_objects_dict_handle
    &&& a.header.acad_plotstylename_dict_handle == b.header.acad_plotstylename_dict_handle
    &&& a.header.acad_material_dict_handle == b.header.acad_material_dict_handle
    &&& a.objects == b.objects
    &&& a.text_styles == b.text_styles
    &&& a.block_records == b.block_records
    &&& a.dim_styles == b.dim_styles
    &&& a.app_ids == b.app_ids
    &&& a.views == b.views
    &&& a.vports == b.vports
    &&& a.ucss == b.ucss
    &&& a.vx_table == b.vx_table
    &&& a.entities == b.entities
    &&& a.notifications == b.notifications
    &&& a.xdic_by_handle == b.xdic_by_handle
}

impl CadDocument {
    /// The localization plan for an entity's common data (see `localize_plan`).
    fn plan(&self, names: &NestedCopySymbolNames, c: &EntityCommon) -> (r: Option<(Option<Layer>, Vec<LineType>, String, String)>)
        ensures
            match localize_plan(self.layer_models(), self.line_type_models(), pairs_model(names.layers@),
                pairs_model(names.line_types@), *c) {
                None => r is None,
                Some(p) => r matches Some((rl, rlines, rlayer, rline))
                    && opt_layer_model(rl) == p.layer && line_type_models(rlines@) == p.lines
                    && rlayer@ == p.layer_name && rline@ == p.line_name,
            },
    {
        let (layer, mut lines, layer_name) = match self.layer_part(names, c.layer.as_str()) {
            Some(x) => x,
            None => return None,
        };
        let line_name = match self.local_line(&names.line_types, c.linetype.as_str(), &mut lines) {
            Some(x) => x,
            None => return None,
        };
        Some((layer, lines, layer_name, line_name))
    }

    /// Create the linetypes of a plan that do not exist yet, each under a fresh handle.
    fn add_plan_lines(&mut self, lines: &Vec<LineType>)
        requires
            old(self).header.handle_seed + lines@.len() <= u64::MAX,
        ensures
            (final(self).line_type_models(), final(self).header.handle_seed as int)
                == add_lines(old(self).line_type_models(), line_type_models(lines@), old(self).header.handle_seed as int),
            final(self).layers == old(self).layers,
            same_besides_symbols(*final(self), *old(self)),
            final(self).header.handle_seed == old(self).header.handle_seed ==> *final(self) == *old(self),
    {
        let ghost lts0 = self.line_type_models();
        let ghost seed0 = self.header.handle_seed as int;
        let ghost ls = line_type_models(lines@);
        let mut i: usize = 0;
        while i < lines.len()
            invariant
                i <= lines@.len(),
                ls == line_type_models(lines@),
                ls.len() == lines@.len(),
                seed0 + lines@.len() <= u64::MAX,
                (self.line_type_models(), self.header.handle_seed as int) == add_lines(lts0, ls.take(i as int), seed0),
                self.layers == old(self).layers,
                same_besides_symbols(*self, *old(self)),
                old(self).header.handle_seed <= self.header.handle_seed,
                self.header.handle_seed == old(self).header.handle_seed ==> *self == *old(self),
            decreases lines@.len() - i,
        {
            proof {
                assert(ls.take(i + 1).drop_last() =~= ls.take(i as int));
                assert(ls.take(i + 1).last() == lines@[i as int]@);
                lemma_add_lines_seed(lts0, ls.take(i as int), seed0);
                lemma_line_type_named(self.line_types.entries@, lines@[i as int].name@);
            }
            if self.line_types.get(lines[i].name.as_str()).is_none() {
                let mut line = lines[i].copy();
                line.handle = self.allocate_handle();
                let ghost before = self.line_types.entries@;
                proof {
                    lemma_line_type_names(before);
                    lemma_name_position(record_names(before), line.name@, 0);
                }
                self.line_types.add_or_replace(line);
                assert(self.line_types.entries@ == before.push(line));
                assert(self.line_type_models() =~= line_type_models(before).push(line@));
            }
            i += 1;
        }
        assert(ls.take(lines@.len() as int) =~= ls);
    }
}

/// A plan creates at most two linetypes, and its layer, if any, is new under
/// the plan's layer name.
pub proof fn lemma_plan_shape(
    lays: Seq<LayerModel>,
    lts: Seq<LineTypeModel>,
    layer_names: Seq<(Seq<char>, Seq<char>)>,
    lt_names: Seq<(Seq<char>, Seq<char>)>,
    c: EntityCommon,
)
    ensures
        localize_plan(lays, lts, layer_names, lt_names, c) matches Some(p) ==> {
            &&& p.lines.len() <= 2
            &&& p.layer matches Some(l) ==> l.name == p.layer_name && layer_named(lays, l.name) is None
        },
{
    match layer_part(lays, lts, layer_names, lt_names, c.layer@) {
        Some(lp) => {
            if has_bar(c.layer@) {
                let dest = pair_get(layer_names, upper_seq(c.layer@))->0;
                if layer_named(lays, dest) is None {
                    let imported = layer_named(lays, c.layer@)->0;
                    let prefixed = c.layer@.subrange(0, last_bar(c.layer@)).push('|') + imported.line_type;
                    let source_line = if !has_bar(imported.line_type) && line_type_named(lts, prefixed) is Some {
                        prefixed
                    } else {
                        imported.line_type
                    };
                    lemma_local_line_len(lts, lt_names, source_line, Seq::empty());
                }
            }
            lemma_local_line_len(lts, lt_names, c.linetype@, lp.1);
        },
        None => {},
    }
}

impl CadDocument {
    /// Localize supported layer and simple-linetype dependencies of extracted entities.
    /// Unsupported style-bearing entities retain their original imported references.
    /// Returns the number of entities whose imported references were retained.
    #[verifier::spinoff_prover]
    #[verifier::rlimit(80)]
    pub fn localize_nested_copy_symbols(&mut self, entities: &mut Vec<EntityType>, names: &NestedCopySymbolNames) -> (r: usize)
        requires
            old(self).header.handle_seed + 3 * old(entities)@.len() <= u64::MAX,
        ensures
            ({
                let init = LocalizeState {
                    layers: old(self).layer_models(),
                    line_types: old(self).line_type_models(),
                    seed: old(self).header.handle_seed as int,
                    retained: 0,
                };
                let pl = pairs_model(names.layers@);
                let plt = pairs_model(names.line_types@);
                let st = localize_fold(old(entities)@, pl, plt, init);
                &&& r == st.retained
                &&& final(self).layer_models() == st.layers
                &&& final(self).line_type_models() == st.line_types
                &&& final(self).header.handle_seed == st.seed
                &&& final(entities)@.len() == old(entities)@.len()
                &&& (forall|i: int| 0 <= i < old(entities)@.len() && is_external((#[trigger] old(entities)@[i]).common_spec())
                    ==> retained_at(init, old(entities)@[i], pl, plt)) ==> {
                    &&& *final(self) == *old(self)
                    &&& final(entities)@ == old(entities)@
                    &&& r == external_count(old(entities)@)
                }
                &&& forall|j: int| 0 <= j < old(entities)@.len() ==> entity_result(
                    localize_fold(old(entities)@.take(j), pl, plt, init),
                    old(entities)@[j],
                    #[trigger] final(entities)@[j],
                    pl,
                    plt,
                )
            }),
            same_besides_symbols(*final(self), *old(self)),
    {
        let ghost old_entities = entities@;
        let ghost init = LocalizeState {
            layers: self.layer_models(),
            line_types: self.line_type_models(),
            seed: self.header.handle_seed as int,
            retained: 0,
        };
        let ghost pl = pairs_model(names.layers@);
        let ghost plt = pairs_model(names.line_types@);
        let ghost seed0 = self.header.handle_seed as int;
        let mut retained: usize = 0;
        let mut i: usize = 0;
        while i < entities.len()
            invariant
                i <= entities@.len(),
                entities@.len() == old_entities.len(),
                seed0 == old(self).header.handle_seed as int,
                seed0 + 3 * old_entities.len() <= u64::MAX,
                init == (LocalizeState {
                    layers: old(self).layer_models(),
                    line_types: old(self).line_type_models(),
                    seed: seed0,
                    retained: 0,
                }),
                pl == pairs_model(names.layers@),
                plt == pairs_model(names.line_types@),
                ({
                    let st = localize_fold(old_entities.take(i as int), pl, plt, init);
                    &&& self.layer_models() == st.layers
                    &&& self.line_type_models() == st.line_types
                    &&& self.header.handle_seed as int == st.seed
                    &&& retained as nat == st.retained
                    &&& st.seed <= seed0 + 3 * i
                    &&& st.retained <= i
                }),
                same_besides_symbols(*self, *old(self)),
                seed0 <= self.header.handle_seed,
                self.header.handle_seed == seed0 ==> *self == *old(self),
                forall|j: int| 0 <= j < i ==> entity_result(
                    localize_fold(old_entities.take(j), pl, plt, init),
                    old_entities[j],
                    #[trigger] entities@[j],
                    pl,
                    plt,
                ),
                forall|j: int| i <= j < old_entities.len() ==> #[trigger] entities@[j] == old_entities[j],
            decreases old_entities.len() - i,
        {
            let ghost st = localize_fold(old_entities.take(i as int), pl, plt, init);
            let ghost e0 = old_entities[i as int];
            proof {
                assert(old_entities.take(i + 1).drop_last() =~= old_entities.take(i as int));
                assert(old_entities.take(i + 1).last() == e0);
                lemma_step_seed(st, e0, pl, plt);
                assert(entities@[i as int] == e0);
            }
            let c = entities[i].common();
            let external = holds_bar(c.layer.as_str()) || holds_bar(c.linetype.as_str());
            if external {
                let material = match c.material_handle {
                    Some(h) => !h.is_null(),
                    None => false,
                };
                let plotstyle = match c.plotstyle_handle {
                    Some(h) => !h.is_null(),
                    None => false,
                };
                if material || plotstyle || !is_localizable(&entities[i]) {
                    retained += 1;
                } else {
                    proof {
                        lemma_plan_shape(st.layers, st.line_types, pl, plt, *c);
                    }
                    match self.plan(names, c) {
                        None => {
                            retained += 1;
                        },
                        Some((layer, lines, layer_name, line_name)) => {
                            let ghost plan = localize_plan(st.layers, st.line_types, pl, plt, *c)->0;
                            proof {
                                lemma_add_lines_seed(st.line_types, plan.lines, st.seed);
                            }
                            self.add_plan_lines(&lines);
                            match layer {
                                Some(mut l) => {
                                    l.handle = self.allocate_handle();
                                    let ghost before = self.layers.entries@;
                                    proof {
                                        lemma_layer_names(before);
                                        lemma_name_position(record_names(before), l.name@, 0);
                                    }
                                    self.layers.add_or_replace(l);
                                    assert(self.layers.entries@ == before.push(l));
                                    assert(self.layer_models() =~= layer_models(before).push(l@));
                                },
                                None => {},
                            }
                            proof {
                                lemma_line_type_named(self.line_types.entries@, line_name@);
                            }
                            let line_handle = match self.line_types.get(line_name.as_str()) {
                                Some(lt) => Some(lt.handle),
                                None => None,
                            };
                            let mut e = entities.remove(i);
                            {
                                let ec = e.common_mut();
                                ec.layer = layer_name;
                                ec.linetype = line_name;
                                ec.linetype_handle = line_handle;
                            }
                            entities.insert(i, e);
                        },
                    }
                }
            }
            i += 1;
        }
        assert(old_entities.take(old_entities.len() as int) =~= old_entities);
        proof {
            if forall|k: int| 0 <= k < old_entities.len() && is_external((#[trigger] old_entities[k]).common_spec())
                ==> retained_at(init, old_entities[k], pl, plt) {
                law_all_retained_entities_unchanged(old_entities, entities@, pl, plt, init);
            }
        }
        retained
    }
}

} // verus!
