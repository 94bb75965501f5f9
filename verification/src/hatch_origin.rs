//! The hatch pattern origin, recorded as the top-level point of the entity's
//! "ACAD" extended-data record.

use vstd::prelude::*;
use crate::entities::entity::{EntityCommon, Hatch};
use crate::text::str_eq;
use crate::types::{Vector2, Vector3, bits_finite, is_finite_bits};
use crate::xdata::{ExtendedDataRecord, values_model, RecordModel, XDataModel, XDataValue, record_for, with_record,
    law_record_after_upsert, lemma_record_index_from};

verus! {

/// A control string that opens a nested group.
pub open spec fn opens_group(v: XDataModel) -> bool {
    v matches XDataModel::Control(t) && t == "{"@
}

/// A control string that closes a nested group.
pub open spec fn closes_group(v: XDataModel) -> bool {
    v matches XDataModel::Control(t) && t == "}"@
}

/// Nesting depth in front of position `i`; a closing brace at depth zero is ignored.
pub open spec fn depth_before(vs: Seq<XDataModel>, i: int) -> nat
    decreases i,
{
    if i <= 0 {
        0
    } else {
        let d = depth_before(vs, i - 1);
        if opens_group(vs[i - 1]) {
            d + 1
        } else if closes_group(vs[i - 1]) {
            if d == 0 {
                0
            } else {
                (d - 1) as nat
            }
        } else {
            d
        }
    }
}

/// Position `i` holds a 3D point outside every nested group.
pub open spec fn is_top_point(vs: Seq<XDataModel>, i: int) -> bool {
    vs[i] is Point3D && depth_before(vs, i) == 0
}

/// First top-level point at or after `k`.
pub open spec fn origin_from(vs: Seq<XDataModel>, k: int) -> Option<int>
    decreases vs.len() - k,
{
    if k < 0 || k >= vs.len() {
        None
    } else if is_top_point(vs, k) {
        Some(k)
    } else {
        origin_from(vs, k + 1)
    }
}

/// The pattern origin stored in extended data: the top-level point of the
/// "ACAD" record, when both of its planar coordinates are finite.
pub open spec fn stored_origin(rs: Seq<RecordModel>) -> Option<Vector2> {
    match record_for(rs, "ACAD"@) {
        Some(r) => match origin_from(r.values, 0) {
            Some(i) => match r.values[i] {
                XDataModel::Point3D(p) => if bits_finite(p.x) && bits_finite(p.y) {
                    Some(Vector2 { x: p.x, y: p.y })
                } else {
                    None
                },
                _ => None,
            },
            None => None,
        },
        None => None,
    }
}

/// The "ACAD" record as an origin is recorded in it: the top-level point is
/// replaced, or the point is appended; a missing record starts empty.
pub open spec fn recorded_origin(rs: Seq<RecordModel>, origin: Vector2) -> RecordModel {
    let base = match record_for(rs, "ACAD"@) {
        Some(r) => r,
        None => RecordModel { app_name: "ACAD"@, values: Seq::empty() },
    };
    let point = XDataModel::Point3D(Vector3 { x: origin.x, y: origin.y, z: 0 });
    RecordModel {
        app_name: base.app_name,
        values: match origin_from(base.values, 0) {
            Some(i) => base.values.update(i, point),
            None => base.values.push(point),
        },
    }
}

/// A recorded origin can be read back: the "ACAD" record already has a
/// top-level point, or its groups are all closed at its end.
pub open spec fn origin_slot_reachable(rs: Seq<RecordModel>) -> bool {
    match record_for(rs, "ACAD"@) {
        Some(r) => origin_from(r.values, 0) is Some || depth_before(r.values, r.values.len() as int) == 0,
        None => true,
    }
}

/// What `origin_from` finds: the first top-level point at or after `k`.
pub proof fn lemma_origin_from(vs: Seq<XDataModel>, k: int)
    requires
        0 <= k <= vs.len(),
    ensures
        origin_from(vs, k) matches Some(i) ==> k <= i < vs.len() && is_top_point(vs, i),
        forall|j: int| k <= j < vs.len() && (origin_from(vs, k) matches Some(i) ==> j < i)
            ==> !#[trigger] is_top_point(vs, j),
    decreases vs.len() - k,
{
    if k < vs.len() && !is_top_point(vs, k) {
        lemma_origin_from(vs, k + 1);
    }
}

/// Depth depends only on which earlier positions open or close a group.
pub proof fn lemma_depth_agree(a: Seq<XDataModel>, b: Seq<XDataModel>, n: int)
    requires
        0 <= n <= a.len(),
        n <= b.len(),
        forall|j: int| 0 <= j < n ==> opens_group(#[trigger] a[j]) == opens_group(b[j]) && closes_group(a[j]) == closes_group(b[j]),
    ensures
        depth_before(a, n) == depth_before(b, n),
    decreases n,
{
    if n > 0 {
        lemma_depth_agree(a, b, n - 1);
    }
}

/// A point recorded where `recorded_origin` puts it is the top-level point of the record.
pub proof fn lemma_recorded_origin_found(rs: Seq<RecordModel>, origin: Vector2)
    requires
        origin_slot_reachable(rs),
    ensures
        ({
            let r = recorded_origin(rs, origin);
            origin_from(r.values, 0) matches Some(i)
                && r.values[i] == XDataModel::Point3D(Vector3 { x: origin.x, y: origin.y, z: 0 })
        }),
{
    let base = match record_for(rs, "ACAD"@) {
        Some(r) => r,
        None => RecordModel { app_name: "ACAD"@, values: Seq::empty() },
    };
    let vs = base.values;
    let point = XDataModel::Point3D(Vector3 { x: origin.x, y: origin.y, z: 0 });
    let ws = recorded_origin(rs, origin).values;
    lemma_origin_from(vs, 0);
    match origin_from(vs, 0) {
        Some(i) => {
            assert(ws == vs.update(i, point));
            assert forall|n: int| 0 <= n <= ws.len() implies #[trigger] depth_before(ws, n) == depth_before(vs, n) by {
                assert forall|j: int| 0 <= j < n implies opens_group(#[trigger] ws[j]) == opens_group(vs[j])
                    && closes_group(ws[j]) == closes_group(vs[j]) by {
                    if j == i {
                        assert(vs[i] is Point3D);
                    }
                }
                lemma_depth_agree(ws, vs, n);
            }
            lemma_origin_from(ws, 0);
            assert(is_top_point(ws, i));
            if origin_from(ws, 0) != Some(i) {
                let j = origin_from(ws, 0)->0;
                assert(j < i);
                assert(ws[j] == vs[j]);
                assert(is_top_point(vs, j));
            }
        },
        None => {
            assert(ws == vs.push(point));
            assert forall|n: int| 0 <= n <= vs.len() implies #[trigger] depth_before(ws, n) == depth_before(vs, n) by {
                assert forall|j: int| 0 <= j < n implies opens_group(#[trigger] ws[j]) == opens_group(vs[j])
                    && closes_group(ws[j]) == closes_group(vs[j]) by {
                    assert(ws[j] == vs[j]);
                }
                lemma_depth_agree(ws, vs, n);
            }
            assert(depth_before(vs, vs.len() as int) == 0);
            assert(is_top_point(ws, vs.len() as int));
            lemma_origin_from(ws, 0);
            if origin_from(ws, 0) != Some(vs.len() as int) {
                let j = origin_from(ws, 0)->0;
                assert(j < vs.len());
                assert(ws[j] == vs[j]);
                assert(is_top_point(vs, j));
            }
        },
    }
}

/// Position of the top-level point of a record, outside nested groups.
fn origin_index(record: &ExtendedDataRecord) -> (r: Option<usize>)
    ensures
        match r {
            Some(j) => origin_from(record@.values, 0) == Some(j as int) && j < record.values@.len(),
            None => origin_from(record@.values, 0) is None,
        },
{
    let ghost vs = record@.values;
    proof {
        lemma_origin_from(vs, 0);
    }
    let mut depth: usize = 0;
    let mut i: usize = 0;
    while i < record.values.len()
        invariant
            vs == record@.values,
            vs.len() == record.values@.len(),
            i <= vs.len(),
            depth == depth_before(vs, i as int),
            depth <= i,
            origin_from(vs, 0) == origin_from(vs, i as int),
        decreases vs.len() - i,
    {
        assert(vs[i as int] == record.values@[i as int]@);
        match &record.values[i] {
            XDataValue::ControlString(text) => {
                if str_eq(text.as_str(), "{") {
                    depth = depth + 1;
                } else if str_eq(text.as_str(), "}") {
                    if depth > 0 {
                        depth = depth - 1;
                    }
                }
            },
            XDataValue::Point3D(_) => {
                if depth == 0 {
                    return Some(i);
                }
            },
            _ => {},
        }
        i += 1;
    }
    None
}

impl Hatch {
    /// Pattern origin recorded as the top-level ACAD 1010 point, in hatch coordinates.
    pub fn stored_pattern_origin(&self) -> (r: Option<Vector2>)
        ensures
            r == stored_origin(self.common.extended_data@),
    {
        let record = match self.common.extended_data.get_record("ACAD") {
            Some(record) => record,
            None => return None,
        };
        let index = match origin_index(record) {
            Some(index) => index,
            None => return None,
        };
        assert(record@.values[index as int] == record.values@[index as int]@);
        proof {
            lemma_origin_from(record@.values, 0);
        }
        match &record.values[index] {
            XDataValue::Point3D(point) => {
                if is_finite_bits(point.x) && is_finite_bits(point.y) {
                    Some(Vector2::new(point.x, point.y))
                } else {
                    None
                }
            },
            _ => None,
        }
    }

    /// Absent origin metadata denotes the coordinate origin, not a pattern line base.
    pub fn pattern_origin(&self) -> (r: Vector2)
        ensures
            r == match stored_origin(self.common.extended_data@) {
                Some(o) => o,
                None => Vector2 { x: 0, y: 0 },
            },
    {
        match self.stored_pattern_origin() {
            Some(origin) => origin,
            None => Vector2::new(0, 0),
        }
    }

    /// Record an already-applied origin without changing pattern geometry.
    /// Unrelated application records and nested ACAD payloads remain intact.
    /// The point goes where a top-level point of the "ACAD" record stands, or
    /// at its end; when that record opens a `{` group it never closes and has
    /// no top-level point, its end lies inside the group, so the point is
    /// written there and is not read back as the origin (nothing is closed or
    /// rewritten to make room, which would change the nested payload).
    pub fn record_pattern_origin(&mut self, origin: Vector2) -> (r: bool)
        ensures
            r == (bits_finite(origin.x) && bits_finite(origin.y)),
            !r ==> *final(self) == *old(self),
            r ==> final(self).pattern == old(self).pattern,
            r ==> final(self).common == (EntityCommon { extended_data: final(self).common.extended_data, ..old(self).common }),
            r ==> final(self).common.extended_data@ == with_record(
                old(self).common.extended_data@,
                recorded_origin(old(self).common.extended_data@, origin),
            ),
            r && origin_slot_reachable(old(self).common.extended_data@)
                ==> stored_origin(final(self).common.extended_data@) == Some(origin),
            r ==> forall|app: Seq<char>| app != "ACAD"@ ==>
                #[trigger] record_for(final(self).common.extended_data@, app) == record_for(old(self).common.extended_data@, app),
    {
        if !is_finite_bits(origin.x) || !is_finite_bits(origin.y) {
            return false;
        }
        let ghost rs = self.common.extended_data@;
        let mut record = match self.common.extended_data.get_record("ACAD") {
            Some(record) => record.copy(),
            None => ExtendedDataRecord::new("ACAD"),
        };
        let ghost base = record@;
        proof {
            if record_for(rs, "ACAD"@) is None {
                assert(base.values =~= Seq::<XDataModel>::empty());
            }
        }
        let point = XDataValue::Point3D(Vector3::new(origin.x, origin.y, 0));
        match origin_index(&record) {
            Some(index) => {
                record.values.set(index, point);
                assert(record@.values =~= base.values.update(index as int, point@));
            },
            None => {
                record.values.push(point);
                assert(record@.values =~= base.values.push(point@));
            },
        }
        proof {
            assert(base == match record_for(rs, "ACAD"@) {
                Some(r) => r,
                None => RecordModel { app_name: "ACAD"@, values: Seq::empty() },
            });
            assert(record@.values =~= recorded_origin(rs, origin).values);
            assert(record@ == recorded_origin(rs, origin));
        }
        self.common.extended_data.upsert_record(record);
        proof {
            let rec = recorded_origin(rs, origin);
            lemma_record_index_from(rs, "ACAD"@, 0);
            assert(rec.app_name == "ACAD"@);
            law_record_after_upsert(rs, rec, "ACAD"@);
            if origin_slot_reachable(rs) {
                lemma_recorded_origin_found(rs, origin);
            }
            assert forall|app: Seq<char>| app != "ACAD"@ implies
                #[trigger] record_for(with_record(rs, rec), app) == record_for(rs, app) by {
                law_record_after_upsert(rs, rec, app);
            }
        }
        true
    }
}

} // verus!
