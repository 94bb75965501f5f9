use vstd::prelude::*;
use crate::objects::xrecord::{EntryModel, ValueModel, mesh_coords, mesh_entries, without_codes,
    first_code_from, first_with_code, model_as_handle, override_scan, override_slot, region_slot,
    stops_override, with_viewport_override, bounds_scan, BoundsScan, section_scan, SectionScan,
    SectionModel, with_section, section_block, marker, first_section_from, known_kind_of, KnownXRecordKind,
    code_value_type, XRecordValueType, value_type_is_handle, default_reference_kind, is_object_id_code,
    cloning_flag_value, DictionaryCloningFlags, model_as_i32, model_as_double};
use crate::text::{opens, trim_open, eq_ci, upper_seq, upper_char};
use crate::types::{Handle, Vector3, ProxyReferenceKind};

verus! {

/// Entries kept by `without_codes` all lie outside the removed code range.
pub proof fn lemma_without_codes_excludes(es: Seq<EntryModel>, lo: i32, hi: i32)
    ensures
        forall|i: int|
            0 <= i < without_codes(es, lo, hi).len() ==> !(lo <= #[trigger] without_codes(es, lo, hi)[i].code <= hi),
    decreases es.len(),
{
    if es.len() > 0 {
        lemma_without_codes_excludes(es.drop_last(), lo, hi);
    }
}

/// Entries without code 43 in front of a payload do not change the triples read from it.
proof fn lemma_mesh_skip_prefix(a: Seq<EntryModel>, b: Seq<EntryModel>)
    requires
        forall|i: int| 0 <= i < a.len() ==> (#[trigger] a[i]).code != 43,
    ensures
        mesh_coords(a + b) == mesh_coords(b),
    decreases a.len(),
{
    if a.len() > 0 {
        assert((a + b)[0] == a[0]);
        assert((a + b).drop_first() =~= a.drop_first() + b);
        lemma_mesh_skip_prefix(a.drop_first(), b);
    } else {
        assert(a + b =~= b);
    }
}

/// The encoding of triples, read from the front: the first triple, then the rest.
proof fn lemma_mesh_entries_front(cs: Seq<Vector3>)
    requires
        cs.len() > 0,
    ensures
        mesh_entries(cs) == seq![
            EntryModel { code: 43, value: ValueModel::Double(cs[0].x) },
            EntryModel { code: 44, value: ValueModel::Double(cs[0].y) },
            EntryModel { code: 45, value: ValueModel::Double(cs[0].z) },
        ] + mesh_entries(cs.drop_first()),
    decreases cs.len(),
{
    let t0 = seq![
        EntryModel { code: 43, value: ValueModel::Double(cs[0].x) },
        EntryModel { code: 44, value: ValueModel::Double(cs[0].y) },
        EntryModel { code: 45, value: ValueModel::Double(cs[0].z) },
    ];
    if cs.len() == 1 {
        assert(cs.drop_last() =~= Seq::<Vector3>::empty());
        assert(cs.drop_first() =~= Seq::<Vector3>::empty());
        assert(mesh_entries(cs) =~= t0 + mesh_entries(cs.drop_first()));
    } else {
        lemma_mesh_entries_front(cs.drop_last());
        assert(cs.drop_last().drop_first() =~= cs.drop_first().drop_last());
        assert(cs.drop_first().last() == cs.last());
        assert(mesh_entries(cs) =~= t0 + mesh_entries(cs.drop_first()));
    }
}

/// Reading the encoding of triples gives the triples back.
proof fn lemma_mesh_decode(cs: Seq<Vector3>)
    ensures
        mesh_coords(mesh_entries(cs)) == cs,
    decreases cs.len(),
{
    if cs.len() == 0 {
        assert(mesh_entries(cs) =~= Seq::<EntryModel>::empty());
    } else {
        lemma_mesh_entries_front(cs);
        lemma_mesh_decode(cs.drop_first());
        let es = mesh_entries(cs);
        assert(es.subrange(3, es.len() as int) =~= mesh_entries(cs.drop_first()));
        assert(seq![Vector3 { x: cs[0].x, y: cs[0].y, z: cs[0].z }] + cs.drop_first() =~= cs);
    }
}

/// Texture coordinates written by `set_mesh_texture_coordinates` are exactly
/// what `mesh_texture_coordinates` reads back, whatever the record held before.
pub proof fn law_mesh_texture_coordinates_roundtrip(before: Seq<EntryModel>, coords: Seq<Vector3>)
    ensures
        mesh_coords(without_codes(before, 43, 45) + mesh_entries(coords)) == coords,
{
    let kept = without_codes(before, 43, 45);
    lemma_without_codes_excludes(before, 43, 45);
    assert forall|i: int| 0 <= i < kept.len() implies (#[trigger] kept[i]).code != 43 by {
    }
    lemma_mesh_skip_prefix(kept, mesh_entries(coords));
    lemma_mesh_decode(coords);
}

/// Dropping a code range drops what lies in it at the end, and a second time changes nothing.
proof fn lemma_without_codes_append(a: Seq<EntryModel>, b: Seq<EntryModel>, lo: i32, hi: i32)
    requires
        forall|i: int| 0 <= i < b.len() ==> lo <= (#[trigger] b[i]).code <= hi,
    ensures
        without_codes(a + b, lo, hi) == without_codes(a, lo, hi),
    decreases b.len(),
{
    if b.len() == 0 {
        assert(a + b =~= a);
    } else {
        assert((a + b).drop_last() =~= a + b.drop_last());
        assert((a + b).last() == b.last());
        lemma_without_codes_append(a, b.drop_last(), lo, hi);
    }
}

/// Dropping a code range twice is dropping it once.
proof fn lemma_without_codes_twice(es: Seq<EntryModel>, lo: i32, hi: i32)
    ensures
        without_codes(without_codes(es, lo, hi), lo, hi) == without_codes(es, lo, hi),
    decreases es.len(),
{
    if es.len() > 0 {
        lemma_without_codes_twice(es.drop_last(), lo, hi);
        let prev = without_codes(es.drop_last(), lo, hi);
        if !(lo <= es.last().code <= hi) {
            assert(prev.push(es.last()).drop_last() =~= prev);
        }
    }
}

/// The mesh triples hold codes 43 to 45 only.
proof fn lemma_mesh_entries_codes(cs: Seq<Vector3>)
    ensures
        forall|i: int| 0 <= i < mesh_entries(cs).len() ==> 43 <= (#[trigger] mesh_entries(cs)[i]).code <= 45,
    decreases cs.len(),
{
    if cs.len() > 0 {
        lemma_mesh_entries_codes(cs.drop_last());
        let p = mesh_entries(cs.drop_last());
        assert forall|i: int| 0 <= i < mesh_entries(cs).len() implies 43 <= (#[trigger] mesh_entries(cs)[i]).code <= 45 by {
            if i < p.len() {
                assert(mesh_entries(cs)[i] == p[i]);
            }
        }
    }
}

/// Setting texture coordinates leaves the entries whose code lies outside 43
/// to 45 as they were, in the same order.
pub proof fn law_mesh_other_entries_kept(before: Seq<EntryModel>, coords: Seq<Vector3>)
    ensures
        without_codes(without_codes(before, 43, 45) + mesh_entries(coords), 43, 45) == without_codes(before, 43, 45),
{
    lemma_mesh_entries_codes(coords);
    lemma_without_codes_append(without_codes(before, 43, 45), mesh_entries(coords), 43, 45);
    lemma_without_codes_twice(before, 43, 45);
}

/// Replacing an entry by one with the searched code keeps the first match.
proof fn lemma_first_code_update(es: Seq<EntryModel>, code: i32, k: int, i: int, e: EntryModel)
    requires
        0 <= k <= i < es.len(),
        first_code_from(es, code, k) == i,
        e.code == code,
    ensures
        first_code_from(es.update(i, e), code, k) == i,
    decreases i - k,
{
    if k < i {
        lemma_first_code_update(es, code, k + 1, i, e);
    }
}

/// Appending an entry with the searched code to a sequence without one makes it the first match.
proof fn lemma_first_code_push(es: Seq<EntryModel>, code: i32, k: int, e: EntryModel)
    requires
        0 <= k <= es.len(),
        first_code_from(es, code, k) == es.len(),
        e.code == code,
    ensures
        first_code_from(es.push(e), code, k) == es.len(),
    decreases es.len() - k,
{
    if k < es.len() {
        lemma_first_code_push(es, code, k + 1, e);
    }
}

/// The annotation-scale handle read back after `set_annotation_scale_handle(h)` is `h`.
pub proof fn law_annotation_scale_roundtrip(es: Seq<EntryModel>, h: Handle)
    ensures
        ({
            let e = EntryModel { code: 340, value: ValueModel::Handle(h) };
            let after = match first_with_code(es, 340) {
                Some(i) => es.update(i, e),
                None => es.push(e),
            };
            match first_with_code(after, 340) {
                Some(i) => model_as_handle(after[i].value) == Some(h),
                None => false,
            }
        }),
{
    let e = EntryModel { code: 340, value: ValueModel::Handle(h) };
    match first_with_code(es, 340) {
        Some(i) => {
            lemma_first_code_from_bounds(es, 340, 0);
            lemma_first_code_update(es, 340, 0, i, e);
        },
        None => {
            lemma_first_code_from_bounds(es, 340, 0);
            lemma_first_code_push(es, 340, 0, e);
        },
    }
}

/// The search result lies between its start and the length.
proof fn lemma_first_code_from_bounds(es: Seq<EntryModel>, code: i32, k: int)
    requires
        0 <= k,
    ensures
        k <= first_code_from(es, code, k) <= es.len() || (k > es.len() && first_code_from(es, code, k) == es.len()),
    decreases es.len() - k,
{
    if k < es.len() && es[k].code != code {
        lemma_first_code_from_bounds(es, code, k + 1);
    }
}


/// The pairs read from a prefix are a prefix of the pairs read from the whole.
proof fn lemma_override_found_prefix(s: Seq<EntryModel>, n: int, code: i32)
    requires
        0 <= n <= s.len(),
    ensures
        override_scan(s.take(n), code).found.len() <= override_scan(s, code).found.len(),
        forall|k: int|
            0 <= k < override_scan(s.take(n), code).found.len() ==> override_scan(s.take(n), code).found[k]
                == #[trigger] override_scan(s, code).found[k],
    decreases s.len(),
{
    if n < s.len() {
        assert(s.drop_last().take(n) =~= s.take(n));
        lemma_override_found_prefix(s.drop_last(), n, code);
    } else {
        assert(s.take(n) =~= s);
    }
}

/// Where `override_slot` finds an entry, a viewport entry for the viewport
/// precedes it and the value entry is the first of its group with the code.
proof fn lemma_override_slot_witness(es: Seq<EntryModel>, i: int, vp: Handle, code: i32, j: int) -> (w: int)
    requires
        0 <= i,
        override_slot(es, i, vp, code) == Some(j),
    ensures
        i <= w < es.len(),
        es[w].code == 335,
        model_as_handle(es[w].value) == Some(vp),
        region_slot(es, w + 1, code) == Some(j),
    decreases es.len() - i,
{
    if es[i].code == 335 && model_as_handle(es[i].value) == Some(vp) && region_slot(es, i + 1, code)
        == Some(j) {
        i
    } else {
        lemma_override_slot_witness(es, i + 1, vp, code, j)
    }
}

/// What `region_slot` finding an entry says about the entries up to it.
proof fn lemma_region_slot_props(es: Seq<EntryModel>, k: int, code: i32, j: int)
    requires
        0 <= k,
        region_slot(es, k, code) == Some(j),
    ensures
        k <= j < es.len(),
        es[j].code == code,
        forall|m: int| k <= m < j ==> !stops_override(#[trigger] es[m]) && es[m].code != code,
    decreases es.len() - k,
{
    if es[k].code != code {
        lemma_region_slot_props(es, k + 1, code, j);
    }
}

/// After a viewport entry, the viewport stays pending across entries that neither
/// name a viewport nor carry the value code.
proof fn lemma_viewport_pending(es: Seq<EntryModel>, w: int, m: int, vp: Handle, code: i32)
    requires
        0 <= w < m <= es.len(),
        es[w].code == 335,
        model_as_handle(es[w].value) == Some(vp),
        forall|q: int| w < q < m ==> (#[trigger] es[q]).code != 335 && es[q].code != code,
    ensures
        override_scan(es.take(m), code).viewport == Some(vp),
    decreases m - w,
{
    assert(es.take(m).drop_last() =~= es.take(m - 1));
    if m > w + 1 {
        lemma_viewport_pending(es, w, m - 1, vp, code);
    }
}

/// A viewport override written by `set_layer_viewport_override` is among the
/// pairs that `layer_viewport_overrides` reads for the same value code (which
/// must not be the viewport code 335 itself).
pub proof fn law_viewport_override_readback(
    es: Seq<EntryModel>,
    section_name: Seq<char>,
    value_code: i32,
    viewport: Handle,
    value: ValueModel,
)
    requires
        value_code != 335,
    ensures
        override_scan(
            with_viewport_override(es, section_name, value_code, viewport, value),
            value_code,
        ).found.contains((viewport, value)),
{
    let after = with_viewport_override(es, section_name, value_code, viewport, value);
    match override_slot(es, 0, viewport, value_code) {
        Some(j) => {
            let w = lemma_override_slot_witness(es, 0, viewport, value_code, j);
            lemma_region_slot_props(es, w + 1, value_code, j);
            assert forall|q: int| w < q < j + 1 implies (#[trigger] after[q]).code != 335 && after[q].code
                != value_code || q == j by {
                if q < j {
                    assert(!stops_override(es[q]));
                }
            }
            assert(after.take(j) =~= es.take(j));
            if j > w + 1 {
                lemma_viewport_pending(es, w, j, viewport, value_code);
            } else {
                assert(es.take(j).drop_last() =~= es.take(w));
            }
            assert(after.take(j + 1).drop_last() =~= after.take(j));
            let before_found = override_scan(after.take(j), value_code).found;
            assert(override_scan(after.take(j + 1), value_code).found == before_found.push((viewport, value)));
            lemma_override_found_prefix(after, j + 1, value_code);
            assert(override_scan(after, value_code).found[before_found.len() as int] == (viewport, value));
        },
        None => {
            let n = es.len() as int;
            assert(after.take(n + 2).drop_last() =~= after.take(n + 1));
            assert(after.take(n + 3).drop_last() =~= after.take(n + 2));
            assert(after[n + 1].code == 335);
            assert(override_scan(after.take(n + 2), value_code).viewport == Some(viewport));
            let before_found = override_scan(after.take(n + 2), value_code).found;
            assert(override_scan(after.take(n + 3), value_code).found == before_found.push((viewport, value)));
            lemma_override_found_prefix(after, n + 3, value_code);
            assert(override_scan(after, value_code).found[before_found.len() as int] == (viewport, value));
        },
    }
}


/// Without a marker equal to `start_text` the search for a section finds nothing.
proof fn lemma_bounds_unmatched(es: Seq<EntryModel>, start_text: Seq<char>)
    requires
        forall|i: int| 0 <= i < es.len() && (#[trigger] es[i]).code == 102
            ==> !(es[i].value matches ValueModel::Str(v) && eq_ci(v, start_text)),
    ensures
        bounds_scan(es, start_text).start is None,
        bounds_scan(es, start_text).end is None,
    decreases es.len(),
{
    if es.len() > 0 {
        lemma_bounds_unmatched(es.drop_last(), start_text);
        assert(es.last() == es[es.len() - 1]);
    }
}

/// Inside an open section, entries other than markers are gathered into it,
/// whatever sections lie outside it.
proof fn lemma_scan_inner(
    prefix: Seq<EntryModel>,
    done: Seq<SectionModel>,
    outer: Seq<(Seq<char>, Seq<EntryModel>)>,
    name: Seq<char>,
    body: Seq<EntryModel>,
    k: int,
)
    requires
        0 <= k <= body.len(),
        forall|i: int| 0 <= i < body.len() ==> (#[trigger] body[i]).code != 102,
        section_scan(prefix) == (SectionScan { sections: done, stack: outer.push((name, Seq::<EntryModel>::empty())) }),
    ensures
        section_scan(prefix + body.take(k)) == (SectionScan { sections: done, stack: outer.push((name, body.take(k))) }),
    decreases k,
{
    if k == 0 {
        assert(prefix + body.take(0) =~= prefix);
        assert(body.take(0) =~= Seq::<EntryModel>::empty());
    } else {
        lemma_scan_inner(prefix, done, outer, name, body, k - 1);
        assert((prefix + body.take(k)).drop_last() =~= prefix + body.take(k - 1));
        assert((prefix + body.take(k)).last() == body[k - 1]);
        assert(body.take(k - 1).push(body[k - 1]) =~= body.take(k));
        let st = section_scan(prefix + body.take(k - 1));
        assert(st.stack.drop_last() =~= outer);
        assert(st.stack.drop_last().push((st.stack.last().0, st.stack.last().1.push(body[k - 1])))
            =~= outer.push((name, body.take(k))));
    }
}

/// Appending a section after sections that do not bear its name makes it the
/// first one found by that name.
proof fn lemma_first_section_push(ss: Seq<SectionModel>, x: SectionModel, name: Seq<char>, k: int)
    requires
        0 <= k <= ss.len(),
        first_section_from(ss, name, k) == ss.len(),
        eq_ci(x.name, name),
    ensures
        first_section_from(ss.push(x), name, k) == ss.len(),
    decreases ss.len() - k,
{
    if k < ss.len() {
        assert(ss.push(x)[k] == ss[k]);
        lemma_first_section_push(ss, x, name, k + 1);
    } else {
        assert(ss.push(x)[k] == x);
    }
}

/// A section written by `set_section` where no marker `{NAME` stands yet and
/// no section of that name is found is appended: `sections` then finds the
/// sections found before followed by the new one, and `section(name)` returns
/// it, with the same name and entries. This holds whatever sections the record
/// holds, even unclosed ones. (The body carries no markers itself, and the
/// name does not begin with `{`.)
pub proof fn law_set_section_readback(es: Seq<EntryModel>, name: Seq<char>, body: Seq<EntryModel>)
    requires
        forall|i: int| 0 <= i < es.len() && (#[trigger] es[i]).code == 102
            ==> !(es[i].value matches ValueModel::Str(v) && eq_ci(v, seq!['{'] + name)),
        first_section_from(section_scan(es).sections, name, 0) == section_scan(es).sections.len(),
        forall|i: int| 0 <= i < body.len() ==> (#[trigger] body[i]).code != 102,
        !opens(name),
    ensures
        section_scan(with_section(es, name, body)).sections
            == section_scan(es).sections.push(SectionModel { name, entries: body }),
        first_section_from(section_scan(with_section(es, name, body)).sections, name, 0)
            == section_scan(es).sections.len(),
{
    let open_text = seq!['{'] + name;
    lemma_bounds_unmatched(es, open_text);
    assert(with_section(es, name, body) == es + section_block(name, body));
    let st0 = section_scan(es);
    let p1 = es.push(marker(open_text));
    assert(p1.drop_last() =~= es);
    assert(open_text.drop_first() =~= name);
    assert(open_text[0] == '{');
    assert(opens(open_text));
    assert(trim_open(name) == name);
    assert(trim_open(open_text) == trim_open(name));
    assert(trim_open(open_text) == name);
    assert(section_scan(p1) == (SectionScan { sections: st0.sections, stack: st0.stack.push((name, Seq::<EntryModel>::empty())) }));
    lemma_scan_inner(p1, st0.sections, st0.stack, name, body, body.len() as int);
    assert(body.take(body.len() as int) =~= body);
    let p2 = p1 + body;
    let whole = p2.push(marker(seq!['}']));
    assert(whole =~= es + section_block(name, body));
    assert(whole.drop_last() =~= p2);
    assert(upper_seq(seq!['}']) =~= seq!['}']);
    assert(!opens(seq!['}']));
    let st = section_scan(p2);
    assert(st.stack.last() == (name, body));
    assert(section_scan(whole).sections =~= st0.sections.push(SectionModel { name, entries: body }));
    assert(eq_ci(name, name));
    lemma_first_section_push(st0.sections, SectionModel { name, entries: body }, name, 0);
}

/// ASCII lower-case mapping of a character.
pub open spec fn lower_char(c: char) -> char {
    if 'A' <= c && c <= 'Z' {
        ((c as u32) + 32) as char
    } else {
        c
    }
}

/// Upper-casing a lower-cased or upper-cased character gives the character upper-cased.
proof fn lemma_upper_of_case(c: char)
    ensures
        upper_char(lower_char(c)) == upper_char(c),
        upper_char(upper_char(c)) == upper_char(c),
{
}

/// Names equal with ASCII case ignored are classified alike.
pub proof fn law_kind_ignores_case(a: Seq<char>, b: Seq<char>)
    requires
        eq_ci(a, b),
    ensures
        known_kind_of(a) == known_kind_of(b),
{
}

/// Classification does not change when the name is ASCII upper- or lower-cased.
pub proof fn law_kind_case_invariant(s: Seq<char>)
    ensures
        known_kind_of(s) == known_kind_of(upper_seq(s)),
        known_kind_of(s) == known_kind_of(s.map_values(|c: char| lower_char(c))),
{
    let l = s.map_values(|c: char| lower_char(c));
    assert forall|i: int| 0 <= i < s.len() implies #[trigger] upper_seq(upper_seq(s))[i] == upper_seq(s)[i] by {
        lemma_upper_of_case(s[i]);
    }
    assert(upper_seq(upper_seq(s)) =~= upper_seq(s));
    assert forall|i: int| 0 <= i < s.len() implies #[trigger] upper_seq(l)[i] == upper_seq(s)[i] by {
        lemma_upper_of_case(s[i]);
    }
    assert(upper_seq(l) =~= upper_seq(s));
    law_kind_ignores_case(s, upper_seq(s));
    law_kind_ignores_case(s, l);
}

/// A name with a leading space matches, ASCII case ignored, no name that
/// starts with a letter.
proof fn lemma_leading_space_differs(s: Seq<char>, name: Seq<char>)
    requires
        s.len() > 0,
        s[0] == ' ',
        name.len() > 0,
        'A' <= name[0] <= 'Z',
    ensures
        !eq_ci(s, name),
{
    if eq_ci(s, name) {
        assert(upper_seq(s)[0] == upper_seq(name)[0]);
    }
}

/// Names are matched as they are, untrimmed: a name with a leading space is of no known kind.
pub proof fn law_kind_untrimmed(s: Seq<char>)
    requires
        s.len() > 0,
        s[0] == ' ',
    ensures
        known_kind_of(s) == KnownXRecordKind::Unknown,
{
    reveal_strlit("ADSK_XREC_LAYER_ALPHA_OVR");
    lemma_leading_space_differs(s, "ADSK_XREC_LAYER_ALPHA_OVR"@);
    reveal_strlit("ADSK_XREC_LAYER_COLOR_OVR");
    lemma_leading_space_differs(s, "ADSK_XREC_LAYER_COLOR_OVR"@);
    reveal_strlit("ADSK_XREC_LAYER_LINETYPE_OVR");
    lemma_leading_space_differs(s, "ADSK_XREC_LAYER_LINETYPE_OVR"@);
    reveal_strlit("ADSK_XREC_LAYER_LINEWT_OVR");
    lemma_leading_space_differs(s, "ADSK_XREC_LAYER_LINEWT_OVR"@);
    reveal_strlit("ADSK_XREC_LAYER_RECONCILED");
    lemma_leading_space_differs(s, "ADSK_XREC_LAYER_RECONCILED"@);
    reveal_strlit("ACADLAYERSTATEANNOSCALE");
    lemma_leading_space_differs(s, "ACADLAYERSTATEANNOSCALE"@);
    reveal_strlit("ASDK_XREC_ANNOTATION_SCALE_INFO");
    lemma_leading_space_differs(s, "ASDK_XREC_ANNOTATION_SCALE_INFO"@);
    reveal_strlit("ASDK_XREC_ANNO_SCALE_INFO");
    lemma_leading_space_differs(s, "ASDK_XREC_ANNO_SCALE_INFO"@);
    reveal_strlit("ADSK_XREC_VTR_ANNOSCALE_DATA");
    lemma_leading_space_differs(s, "ADSK_XREC_VTR_ANNOSCALE_DATA"@);
    reveal_strlit("ADSK_XREC_SUBDVERTEXTEXCOORDS");
    lemma_leading_space_differs(s, "ADSK_XREC_SUBDVERTEXTEXCOORDS"@);
    reveal_strlit("ACAD_XREC_ROUNDTRIP");
    lemma_leading_space_differs(s, "ACAD_XREC_ROUNDTRIP"@);
    reveal_strlit("ACAD_MTEXT_RT");
    lemma_leading_space_differs(s, "ACAD_MTEXT_RT"@);
    reveal_strlit("ACAD_MTEXT_2008_RT");
    lemma_leading_space_differs(s, "ACAD_MTEXT_2008_RT"@);
    reveal_strlit("ACDBHEADERROUNDTRIPXREC");
    lemma_leading_space_differs(s, "ACDBHEADERROUNDTRIPXREC"@);
    reveal_strlit("AUXHDRRNDTRIPDATA");
    lemma_leading_space_differs(s, "AUXHDRRNDTRIPDATA"@);
    reveal_strlit("ACDB_RECOMPOSE_DATA");
    lemma_leading_space_differs(s, "ACDB_RECOMPOSE_DATA"@);
    reveal_strlit("ACAD_ENHANCEDBLOCKHISTORY");
    lemma_leading_space_differs(s, "ACAD_ENHANCEDBLOCKHISTORY"@);
    reveal_strlit("ASEBLOCKHIERARCHYINDEXRECORD");
    lemma_leading_space_differs(s, "ASEBLOCKHIERARCHYINDEXRECORD"@);
    reveal_strlit("ADSK_XREC_LAYOUTTHUMBNAIL");
    lemma_leading_space_differs(s, "ADSK_XREC_LAYOUTTHUMBNAIL"@);
    reveal_strlit("ADSK_XREC_VTRANIMATIONINFO");
    lemma_leading_space_differs(s, "ADSK_XREC_VTRANIMATIONINFO"@);
    reveal_strlit("ADSK_XREC_VTRTHUMBNAIL");
    lemma_leading_space_differs(s, "ADSK_XREC_VTRTHUMBNAIL"@);
    reveal_strlit("ADSK_XREC_VTRVIEWINFO");
    lemma_leading_space_differs(s, "ADSK_XREC_VTRVIEWINFO"@);
    reveal_strlit("ADSK_XREC_PHOTOMETRICLIGHTINFO");
    lemma_leading_space_differs(s, "ADSK_XREC_PHOTOMETRICLIGHTINFO"@);
    reveal_strlit("LIGHTINGQUALITY");
    lemma_leading_space_differs(s, "LIGHTINGQUALITY"@);
    reveal_strlit("ACAD_LAST_SAVED_VERSION_INFO");
    lemma_leading_space_differs(s, "ACAD_LAST_SAVED_VERSION_INFO"@);
    reveal_strlit("ACAD_CIP_PREVIOUS_PRODUCT_INFO");
    lemma_leading_space_differs(s, "ACAD_CIP_PREVIOUS_PRODUCT_INFO"@);
    reveal_strlit("DWGPROPS");
    lemma_leading_space_differs(s, "DWGPROPS"@);
    reveal_strlit("FINGERPRINTGUID");
    lemma_leading_space_differs(s, "FINGERPRINTGUID"@);
    reveal_strlit("ACADDIM");
    lemma_leading_space_differs(s, "ACADDIM"@);
    reveal_strlit("DIMSTYLEDATA");
    lemma_leading_space_differs(s, "DIMSTYLEDATA"@);
    reveal_strlit("DIMLTEX1");
    lemma_leading_space_differs(s, "DIMLTEX1"@);
    reveal_strlit("DIMLTEX2");
    lemma_leading_space_differs(s, "DIMLTEX2"@);
    reveal_strlit("DIMLTYPE");
    lemma_leading_space_differs(s, "DIMLTYPE"@);
    reveal_strlit("TSTACKALIGN");
    lemma_leading_space_differs(s, "TSTACKALIGN"@);
    reveal_strlit("TSTACKSIZE");
    lemma_leading_space_differs(s, "TSTACKSIZE"@);
    reveal_strlit("PUCSBASE");
    lemma_leading_space_differs(s, "PUCSBASE"@);
    reveal_strlit("PUCSORGBACK");
    lemma_leading_space_differs(s, "PUCSORGBACK"@);
    reveal_strlit("PUCSORGBOTTOM");
    lemma_leading_space_differs(s, "PUCSORGBOTTOM"@);
    reveal_strlit("PUCSORGFRONT");
    lemma_leading_space_differs(s, "PUCSORGFRONT"@);
    reveal_strlit("PUCSORGLEFT");
    lemma_leading_space_differs(s, "PUCSORGLEFT"@);
    reveal_strlit("PUCSORGRIGHT");
    lemma_leading_space_differs(s, "PUCSORGRIGHT"@);
    reveal_strlit("PUCSORGTOP");
    lemma_leading_space_differs(s, "PUCSORGTOP"@);
    reveal_strlit("PUCSORTHOREF");
    lemma_leading_space_differs(s, "PUCSORTHOREF"@);
    reveal_strlit("PUCSORTHOVIEW");
    lemma_leading_space_differs(s, "PUCSORTHOVIEW"@);
    reveal_strlit("UCSBASE");
    lemma_leading_space_differs(s, "UCSBASE"@);
    reveal_strlit("UCSORGBACK");
    lemma_leading_space_differs(s, "UCSORGBACK"@);
    reveal_strlit("UCSORGBOTTOM");
    lemma_leading_space_differs(s, "UCSORGBOTTOM"@);
    reveal_strlit("UCSORGFRONT");
    lemma_leading_space_differs(s, "UCSORGFRONT"@);
    reveal_strlit("UCSORGLEFT");
    lemma_leading_space_differs(s, "UCSORGLEFT"@);
    reveal_strlit("UCSORGRIGHT");
    lemma_leading_space_differs(s, "UCSORGRIGHT"@);
    reveal_strlit("UCSORGTOP");
    lemma_leading_space_differs(s, "UCSORGTOP"@);
    reveal_strlit("UCSORTHOREF");
    lemma_leading_space_differs(s, "UCSORTHOREF"@);
    reveal_strlit("UCSORTHOVIEW");
    lemma_leading_space_differs(s, "UCSORTHOVIEW"@);
    reveal_strlit("ACAD_LAYOUTSELFREF");
    lemma_leading_space_differs(s, "ACAD_LAYOUTSELFREF"@);
    reveal_strlit("LAYOUTDICT");
    lemma_leading_space_differs(s, "LAYOUTDICT"@);
    reveal_strlit("PLOTSETDICT");
    lemma_leading_space_differs(s, "PLOTSETDICT"@);
    reveal_strlit("PLOTSTYLNAMDICT");
    lemma_leading_space_differs(s, "PLOTSTYLNAMDICT"@);
    reveal_strlit("PSVPSCALE");
    lemma_leading_space_differs(s, "PSVPSCALE"@);
    reveal_strlit("STYLESHEET");
    lemma_leading_space_differs(s, "STYLESHEET"@);
    reveal_strlit("HYPERLINKBASE");
    lemma_leading_space_differs(s, "HYPERLINKBASE"@);
    reveal_strlit("ADVMATERIAL");
    lemma_leading_space_differs(s, "ADVMATERIAL"@);
    reveal_strlit("FBXASSET");
    lemma_leading_space_differs(s, "FBXASSET"@);
    reveal_strlit("BUMPTILE");
    lemma_leading_space_differs(s, "BUMPTILE"@);
    reveal_strlit("DIFFUSETILE");
    lemma_leading_space_differs(s, "DIFFUSETILE"@);
    reveal_strlit("OPACITYTILE");
    lemma_leading_space_differs(s, "OPACITYTILE"@);
    reveal_strlit("REFLECTIONTILE");
    lemma_leading_space_differs(s, "REFLECTIONTILE"@);
    reveal_strlit("REFRACTIONTILE");
    lemma_leading_space_differs(s, "REFRACTIONTILE"@);
    reveal_strlit("SPECULARTILE");
    lemma_leading_space_differs(s, "SPECULARTILE"@);
    reveal_strlit("BUMP");
    lemma_leading_space_differs(s, "BUMP"@);
    reveal_strlit("DIFFUSE");
    lemma_leading_space_differs(s, "DIFFUSE"@);
    reveal_strlit("MATERIALDICT");
    lemma_leading_space_differs(s, "MATERIALDICT"@);
    reveal_strlit("VIZ XML MATERIAL DEFINITION");
    lemma_leading_space_differs(s, "VIZ XML MATERIAL DEFINITION"@);
    reveal_strlit("ACAD_MLATT");
    lemma_leading_space_differs(s, "ACAD_MLATT"@);
    reveal_strlit("ACAD_VIEWS_VIEW_CUSTOM");
    lemma_leading_space_differs(s, "ACAD_VIEWS_VIEW_CUSTOM"@);
    reveal_strlit("AECDEPRECATIONHISTORY");
    lemma_leading_space_differs(s, "AECDEPRECATIONHISTORY"@);
    reveal_strlit("CEPSNID");
    lemma_leading_space_differs(s, "CEPSNID"@);
    reveal_strlit("CEPSNTYPE");
    lemma_leading_space_differs(s, "CEPSNTYPE"@);
    reveal_strlit("COLORDICT");
    lemma_leading_space_differs(s, "COLORDICT"@);
    reveal_strlit("INSUNITS");
    lemma_leading_space_differs(s, "INSUNITS"@);
    reveal_strlit("LWETCUNION");
    lemma_leading_space_differs(s, "LWETCUNION"@);
    reveal_strlit("MCS_DOCUMENT_ID");
    lemma_leading_space_differs(s, "MCS_DOCUMENT_ID"@);
    reveal_strlit("MCS_PARAMS_DATA");
    lemma_leading_space_differs(s, "MCS_PARAMS_DATA"@);
    reveal_strlit("MC_VERSION_DATA");
    lemma_leading_space_differs(s, "MC_VERSION_DATA"@);
    reveal_strlit("VERSIONGUID");
    lemma_leading_space_differs(s, "VERSIONGUID"@);
}

/// No opening marker of `es` names `name` once its braces are trimmed (ASCII case ignored).
pub open spec fn no_opening_named(es: Seq<EntryModel>, name: Seq<char>) -> bool {
    forall|i: int| 0 <= i < es.len() && (#[trigger] es[i]).code == 102
        ==> !(es[i].value matches ValueModel::Str(v) && opens(v) && eq_ci(trim_open(v), name))
}

/// Every section found, and every section still open, bears the trimmed name
/// of an opening marker.
proof fn lemma_scan_names(es: Seq<EntryModel>, name: Seq<char>)
    requires
        no_opening_named(es, name),
    ensures
        forall|k: int| 0 <= k < section_scan(es).sections.len()
            ==> !eq_ci((#[trigger] section_scan(es).sections[k]).name, name),
        forall|k: int| 0 <= k < section_scan(es).stack.len()
            ==> !eq_ci((#[trigger] section_scan(es).stack[k]).0, name),
    decreases es.len(),
{
    if es.len() > 0 {
        let front = es.drop_last();
        assert forall|i: int| 0 <= i < front.len() && (#[trigger] front[i]).code == 102
            implies !(front[i].value matches ValueModel::Str(v) && opens(v) && eq_ci(trim_open(v), name)) by {
            assert(front[i] == es[i]);
        }
        lemma_scan_names(front, name);
        let st = section_scan(front);
        let e = es.last();
        assert(e == es[es.len() - 1]);
        let st2 = section_scan(es);
        assert(st2 == crate::objects::xrecord::scan_step(st, e));
        assert forall|k: int| 0 <= k < st2.stack.len() implies !eq_ci((#[trigger] st2.stack[k]).0, name) by {
            if k < st.stack.len() {
                if k < st.stack.len() - 1 {
                    assert(st.stack.drop_last()[k] == st.stack[k]);
                }
            }
        }
        assert forall|k: int| 0 <= k < st2.sections.len() implies !eq_ci((#[trigger] st2.sections[k]).name, name) by {
            if k < st.sections.len() {
                assert(st2.sections[k] == st.sections[k]);
            } else {
                assert(st.stack.last() == st.stack[st.stack.len() - 1]);
            }
        }
    }
}

/// Among sections none of which bears `name`, none is found by it.
proof fn lemma_first_section_none(ss: Seq<SectionModel>, name: Seq<char>, k: int)
    requires
        0 <= k <= ss.len(),
        forall|j: int| 0 <= j < ss.len() ==> !eq_ci((#[trigger] ss[j]).name, name),
    ensures
        first_section_from(ss, name, k) == ss.len(),
    decreases ss.len() - k,
{
    if k < ss.len() {
        lemma_first_section_none(ss, name, k + 1);
    }
}

/// Trimmed, `{NAME` is `NAME` again when `NAME` does not begin with `{`.
proof fn lemma_trim_marker(v: Seq<char>, name: Seq<char>)
    requires
        eq_ci(v, seq!['{'] + name),
        !opens(name),
    ensures
        opens(v),
        eq_ci(trim_open(v), name),
{
    let t = seq!['{'] + name;
    assert(t.len() == name.len() + 1);
    assert(t[0] == '{');
    assert(upper_seq(v).len() == v.len() && upper_seq(t).len() == t.len());
    assert(v.len() == t.len());
    assert(upper_seq(v)[0] == upper_seq(t)[0]);
    assert(upper_seq(t)[0] == upper_char(t[0]));
    assert(upper_char(v[0]) == '{');
    assert(v[0] == '{');
    let rest = v.drop_first();
    assert forall|i: int| 0 <= i < rest.len() implies #[trigger] upper_seq(rest)[i] == upper_seq(name)[i] by {
        assert(upper_seq(v)[i + 1] == upper_seq(t)[i + 1]);
        assert(t[i + 1] == name[i]);
    }
    assert(upper_seq(rest) =~= upper_seq(name));
    if rest.len() > 0 {
        assert(upper_seq(rest)[0] == upper_seq(name)[0]);
        assert(upper_char(rest[0]) == upper_char(name[0]));
        assert(rest[0] != '{');
    }
    assert(!opens(rest));
    assert(trim_open(v) == trim_open(rest));
}

/// `set_section` on a record where no opening marker already names the
/// section, with a body without markers and a name not beginning with `{`,
/// appends the block; `section(name)` then finds exactly the new section.
pub proof fn law_set_section_appends(es: Seq<EntryModel>, name: Seq<char>, body: Seq<EntryModel>)
    requires
        no_opening_named(es, name),
        forall|i: int| 0 <= i < body.len() ==> (#[trigger] body[i]).code != 102,
        !opens(name),
    ensures
        with_section(es, name, body) == es + section_block(name, body),
        section_scan(with_section(es, name, body)).sections
            == section_scan(es).sections.push(SectionModel { name, entries: body }),
        first_section_from(section_scan(with_section(es, name, body)).sections, name, 0)
            == section_scan(es).sections.len(),
{
    assert forall|i: int| 0 <= i < es.len() && (#[trigger] es[i]).code == 102
        implies !(es[i].value matches ValueModel::Str(v) && eq_ci(v, seq!['{'] + name)) by {
        match es[i].value {
            ValueModel::Str(v) => {
                if eq_ci(v, seq!['{'] + name) {
                    lemma_trim_marker(v, name);
                }
            },
            _ => {},
        }
    }
    lemma_scan_names(es, name);
    lemma_first_section_none(section_scan(es).sections, name, 0);
    lemma_bounds_unmatched(es, seq!['{'] + name);
    law_set_section_readback(es, name, body);
}

/// The DXF group-code table: the value type each group code carries.
/// Negative codes and 5, 105, 320..=329, 390..=399, 480, 481 and 1005 are
/// handles; 330..=369 object ids; 0..=4, 6..=9, 100..=102, 300..=309,
/// 410..=419, 430..=439, 470..=479, 999 and 1000..=1003 strings; 10..=37,
/// 110..=139, 210..=269, 1010..=1039 and 1043..=1069 points; 38..=59,
/// 140..=149, 460..=469 and 1040..=1042 doubles; 280..=289 bytes; 60..=79,
/// 170..=179, 270..=279, 370..=389, 400..=409 and 1070 16-bit integers;
/// 80..=99, 420..=429, 440..=459 and 1071 32-bit integers; 150..=169 64-bit
/// integers; 290..=299 booleans; 310..=319 and 1004 binary chunks; any other
/// code is of no known type.
pub proof fn law_group_code_table(code: i32)
    ensures
        code < 0 ==> code_value_type(code) == XRecordValueType::Handle,
        (code == 5 || code == 105 || (320 <= code && code <= 329) || (390 <= code && code <= 399)
            || code == 480 || code == 481 || code == 1005) ==> code_value_type(code) == XRecordValueType::Handle,
        (330 <= code && code <= 369) ==> code_value_type(code) == XRecordValueType::ObjectId,
        ((0 <= code && code <= 4) || (6 <= code && code <= 9) || (100 <= code && code <= 102)
            || (300 <= code && code <= 309) || (410 <= code && code <= 419) || (430 <= code && code <= 439)
            || (470 <= code && code <= 479) || code == 999 || (1000 <= code && code <= 1003))
            ==> code_value_type(code) == XRecordValueType::String,
        ((10 <= code && code <= 37) || (110 <= code && code <= 139) || (210 <= code && code <= 269)
            || (1010 <= code && code <= 1039) || (1043 <= code && code <= 1069))
            ==> code_value_type(code) == XRecordValueType::Point3D,
        ((38 <= code && code <= 59) || (140 <= code && code <= 149) || (460 <= code && code <= 469)
            || (1040 <= code && code <= 1042)) ==> code_value_type(code) == XRecordValueType::Double,
        (280 <= code && code <= 289) ==> code_value_type(code) == XRecordValueType::Byte,
        ((60 <= code && code <= 79) || (170 <= code && code <= 179) || (270 <= code && code <= 279)
            || (370 <= code && code <= 389) || (400 <= code && code <= 409) || code == 1070)
            ==> code_value_type(code) == XRecordValueType::Int16,
        ((80 <= code && code <= 99) || (420 <= code && code <= 429) || (440 <= code && code <= 459)
            || code == 1071) ==> code_value_type(code) == XRecordValueType::Int32,
        (150 <= code && code <= 169) ==> code_value_type(code) == XRecordValueType::Int64,
        (290 <= code && code <= 299) ==> code_value_type(code) == XRecordValueType::Bool,
        ((310 <= code && code <= 319) || code == 1004) ==> code_value_type(code) == XRecordValueType::Chunk,
        (1072 <= code || (1006 <= code && code <= 1009) || (482 <= code && code <= 998)
            || (190 <= code && code <= 209) || (180 <= code && code <= 189) || (103 <= code && code <= 104)
            || (106 <= code && code <= 109)) ==> code_value_type(code) == XRecordValueType::Unknown,
{
}

/// Handles and object ids, and only they, refer to other objects.
pub proof fn law_handle_types(t: XRecordValueType)
    ensures
        value_type_is_handle(t) <==> (t is Handle || t is ObjectId),
{
}

/// Object ids are the group codes 330 to 369; by decade they are soft
/// pointers (330s), hard pointers (340s), soft ownership (350s) and hard
/// ownership (360s); any other code denotes no reference kind.
pub proof fn law_reference_kind_table(code: i32)
    ensures
        is_object_id_code(code) <==> (330 <= code && code <= 369),
        (330 <= code && code <= 339) ==> default_reference_kind(code) == ProxyReferenceKind::SoftPointer,
        (340 <= code && code <= 349) ==> default_reference_kind(code) == ProxyReferenceKind::HardPointer,
        (350 <= code && code <= 359) ==> default_reference_kind(code) == ProxyReferenceKind::SoftOwnership,
        (360 <= code && code <= 369) ==> default_reference_kind(code) == ProxyReferenceKind::HardOwnership,
        (code < 330 || 369 < code) ==> default_reference_kind(code) == ProxyReferenceKind::Undefined,
{
}

/// The DXF values of the dictionary cloning flags, 0 to 5 in declaration order.
pub proof fn law_cloning_flag_values()
    ensures
        cloning_flag_value(DictionaryCloningFlags::NotApplicable) == 0,
        cloning_flag_value(DictionaryCloningFlags::KeepExisting) == 1,
        cloning_flag_value(DictionaryCloningFlags::UseClone) == 2,
        cloning_flag_value(DictionaryCloningFlags::XrefName) == 3,
        cloning_flag_value(DictionaryCloningFlags::Name) == 4,
        cloning_flag_value(DictionaryCloningFlags::UnmangleName) == 5,
{
}

/// Reading a value as an integer gives the same number for 32-bit, 16-bit
/// and byte values, and nothing for any other value; only handle values give a
/// handle, and only double values a double.
pub proof fn law_value_readings(v: ValueModel)
    ensures
        v matches ValueModel::Int32(x) ==> (model_as_i32(v) matches Some(y) && y as int == x as int),
        v matches ValueModel::Int16(x) ==> (model_as_i32(v) matches Some(y) && y as int == x as int),
        v matches ValueModel::Byte(x) ==> (model_as_i32(v) matches Some(y) && y as int == x as int),
        !(v is Int32 || v is Int16 || v is Byte) ==> model_as_i32(v) is None,
        v matches ValueModel::Handle(h) ==> model_as_handle(v) == Some(h),
        !(v is Handle) ==> model_as_handle(v) is None,
        v matches ValueModel::Double(d) ==> model_as_double(v) == Some(d),
        !(v is Double) ==> model_as_double(v) is None,
{
}

} // verus!
