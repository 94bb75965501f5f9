//! Extended entity data: per-application lists of typed values.

use vstd::prelude::*;
use crate::objects::xrecord::copy_bytes;
use crate::text::str_eq;
use crate::types::{Handle, Vector3};

verus! {

/// One extended-data value. Floating-point values are binary64 bit patterns.
#[derive(Debug, Clone, PartialEq)]
pub enum XDataValue {
    String(String),
    /// Group 1002: an opening `{` or closing `}` brace.
    ControlString(String),
    LayerName(String),
    BinaryData(Vec<u8>),
    Handle(Handle),
    Point3D(Vector3),
    WorldPosition(Vector3),
    WorldDisplacement(Vector3),
    WorldDirection(Vector3),
    Real(u64),
    Distance(u64),
    ScaleFactor(u64),
    Integer16(i16),
    Integer32(i32),
}

/// Model of an extended-data value.
pub enum XDataModel {
    Text(Seq<char>),
    Control(Seq<char>),
    LayerName(Seq<char>),
    Binary(Seq<u8>),
    Handle(Handle),
    Point3D(Vector3),
    WorldPosition(Vector3),
    WorldDisplacement(Vector3),
    WorldDirection(Vector3),
    Real(u64),
    Distance(u64),
    ScaleFactor(u64),
    Integer16(i16),
    Integer32(i32),
}

impl View for XDataValue {
    type V = XDataModel;

    open spec fn view(&self) -> XDataModel {
        match self {
            XDataValue::String(s) => XDataModel::Text(s@),
            XDataValue::ControlString(s) => XDataModel::Control(s@),
            XDataValue::LayerName(s) => XDataModel::LayerName(s@),
            XDataValue::BinaryData(b) => XDataModel::Binary(b@),
            XDataValue::Handle(h) => XDataModel::Handle(*h),
            XDataValue::Point3D(p) => XDataModel::Point3D(*p),
            XDataValue::WorldPosition(p) => XDataModel::WorldPosition(*p),
            XDataValue::WorldDisplacement(p) => XDataModel::WorldDisplacement(*p),
            XDataValue::WorldDirection(p) => XDataModel::WorldDirection(*p),
            XDataValue::Real(v) => XDataModel::Real(*v),
            XDataValue::Distance(v) => XDataModel::Distance(*v),
            XDataValue::ScaleFactor(v) => XDataModel::ScaleFactor(*v),
            XDataValue::Integer16(v) => XDataModel::Integer16(*v),
            XDataValue::Integer32(v) => XDataModel::Integer32(*v),
        }
    }
}

impl XDataValue {
    /// A copy with the same model.
    pub fn copy(&self) -> (r: Self)
        ensures
            r@ == self@,
    {
        match self {
            XDataValue::String(s) => XDataValue::String(s.clone()),
            XDataValue::ControlString(s) => XDataValue::ControlString(s.clone()),
            XDataValue::LayerName(s) => XDataValue::LayerName(s.clone()),
            XDataValue::BinaryData(b) => XDataValue::BinaryData(copy_bytes(b)),
            XDataValue::Handle(h) => XDataValue::Handle(*h),
            XDataValue::Point3D(p) => XDataValue::Point3D(*p),
            XDataValue::WorldPosition(p) => XDataValue::WorldPosition(*p),
            XDataValue::WorldDisplacement(p) => XDataValue::WorldDisplacement(*p),
            XDataValue::WorldDirection(p) => XDataValue::WorldDirection(*p),
            XDataValue::Real(v) => XDataValue::Real(*v),
            XDataValue::Distance(v) => XDataValue::Distance(*v),
            XDataValue::ScaleFactor(v) => XDataValue::ScaleFactor(*v),
            XDataValue::Integer16(v) => XDataValue::Integer16(*v),
            XDataValue::Integer32(v) => XDataValue::Integer32(*v),
        }
    }
}

/// Model of a sequence of values.
pub open spec fn values_model(vs: Seq<XDataValue>) -> Seq<XDataModel> {
    vs.map_values(|v: XDataValue| v@)
}

/// The values that one registered application attached to an entity.
#[derive(Debug, Clone, PartialEq)]
pub struct ExtendedDataRecord {
    pub app_name: String,
    pub values: Vec<XDataValue>,
}

/// Model of a record: its application name and its values.
pub struct RecordModel {
    pub app_name: Seq<char>,
    pub values: Seq<XDataModel>,
}

impl View for ExtendedDataRecord {
    type V = RecordModel;

    open spec fn view(&self) -> RecordModel {
        RecordModel { app_name: self.app_name@, values: values_model(self.values@) }
    }
}

/// Copy of a value list.
fn copy_values(vs: &Vec<XDataValue>) -> (r: Vec<XDataValue>)
    ensures
        values_model(r@) == values_model(vs@),
{
    let mut r: Vec<XDataValue> = Vec::new();
    let mut i: usize = 0;
    while i < vs.len()
        invariant
            i <= vs.len(),
            values_model(r@) == values_model(vs@.subrange(0, i as int)),
        decreases vs.len() - i,
    {
        let v = vs[i].copy();
        let ghost before = r@;
        r.push(v);
        proof {
            assert(values_model(r@) =~= values_model(before).push(v@));
            assert(values_model(vs@.subrange(0, i + 1)) =~= values_model(vs@.subrange(0, i as int)).push(vs@[i as int]@));
        }
        i += 1;
    }
    assert(vs@.subrange(0, vs.len() as int) =~= vs@);
    r
}

impl ExtendedDataRecord {
    /// An empty record for an application.
    pub fn new(app_name: &str) -> (r: Self)
        ensures
            r@.app_name == app_name@,
            r@.values.len() == 0,
    {
        let r = ExtendedDataRecord { app_name: app_name.to_owned(), values: Vec::new() };
        assert(r@.values =~= Seq::<XDataModel>::empty());
        r
    }

    /// A copy with the same model.
    pub fn copy(&self) -> (r: Self)
        ensures
            r@ == self@,
    {
        ExtendedDataRecord { app_name: self.app_name.clone(), values: copy_values(&self.values) }
    }
}

/// Extended data of one entity: one record per application.
#[derive(Debug, Clone, PartialEq)]
pub struct ExtendedData {
    pub records: Vec<ExtendedDataRecord>,
}

/// Index of the first record at or after `k` registered under `app` (the length when none).
pub open spec fn record_index_from(rs: Seq<RecordModel>, app: Seq<char>, k: int) -> int
    decreases rs.len() - k,
{
    if k < 0 || k >= rs.len() {
        rs.len() as int
    } else if rs[k].app_name == app {
        k
    } else {
        record_index_from(rs, app, k + 1)
    }
}

/// The first record registered under `app`.
pub open spec fn record_for(rs: Seq<RecordModel>, app: Seq<char>) -> Option<RecordModel> {
    let k = record_index_from(rs, app, 0);
    if k < rs.len() {
        Some(rs[k])
    } else {
        None
    }
}

/// Records after an upsert: the first record of the same application is
/// replaced, or the record is appended.
pub open spec fn with_record(rs: Seq<RecordModel>, r: RecordModel) -> Seq<RecordModel> {
    let k = record_index_from(rs, r.app_name, 0);
    if k < rs.len() {
        rs.update(k, r)
    } else {
        rs.push(r)
    }
}

/// What `record_index_from` finds: the first matching position at or after `k`.
pub proof fn lemma_record_index_from(rs: Seq<RecordModel>, app: Seq<char>, k: int)
    requires
        0 <= k <= rs.len(),
    ensures
        k <= record_index_from(rs, app, k) <= rs.len(),
        record_index_from(rs, app, k) < rs.len() ==> rs[record_index_from(rs, app, k)].app_name == app,
        forall|j: int| k <= j < record_index_from(rs, app, k) ==> #[trigger] rs[j].app_name != app,
    decreases rs.len() - k,
{
    if k < rs.len() && rs[k].app_name != app {
        lemma_record_index_from(rs, app, k + 1);
    }
}

/// After an upsert the application's record is the new one, and the records of
/// every other application are unchanged.
pub proof fn law_record_after_upsert(rs: Seq<RecordModel>, r: RecordModel, other: Seq<char>)
    ensures
        record_for(with_record(rs, r), r.app_name) == Some(r),
        other != r.app_name ==> record_for(with_record(rs, r), other) == record_for(rs, other),
{
    let rs2 = with_record(rs, r);
    let app = r.app_name;
    lemma_record_index_from(rs, app, 0);
    lemma_record_index_from(rs2, app, 0);
    lemma_record_index_from(rs, other, 0);
    lemma_record_index_from(rs2, other, 0);
    let i = record_index_from(rs, app, 0);
    let i2 = record_index_from(rs2, app, 0);
    if i2 < i {
        assert(rs2[i2] == rs[i2]);
    }
    if i < rs.len() {
        assert(rs2[i].app_name == app);
    } else {
        assert(rs2[rs.len() as int].app_name == app);
    }
    if other != app {
        let o = record_index_from(rs, other, 0);
        let o2 = record_index_from(rs2, other, 0);
        if o < rs.len() {
            assert(rs2[o].app_name == rs[o].app_name);
            if o2 < o {
                assert(rs2[o2].app_name == rs[o2].app_name);
            }
            assert(rs2[o] == rs[o]);
        }
        if o2 < rs.len() {
            assert(rs2[o2].app_name == rs[o2].app_name);
            if o < o2 {
                assert(rs2[o].app_name == rs[o].app_name);
            }
        }
    }
}

impl View for ExtendedData {
    type V = Seq<RecordModel>;

    open spec fn view(&self) -> Seq<RecordModel> {
        self.records@.map_values(|r: ExtendedDataRecord| r@)
    }
}

impl ExtendedData {
    /// No extended data.
    pub fn new() -> (d: Self)
        ensures
            d@.len() == 0,
    {
        let d = ExtendedData { records: Vec::new() };
        assert(d@ =~= Seq::<RecordModel>::empty());
        d
    }

    fn find(&self, app_name: &str) -> (i: usize)
        ensures
            i == record_index_from(self@, app_name@, 0),
            i <= self.records@.len(),
    {
        let ghost rs = self@;
        let mut i: usize = 0;
        while i < self.records.len()
            invariant
                rs == self@,
                i <= self.records@.len(),
                record_index_from(rs, app_name@, 0) == record_index_from(rs, app_name@, i as int),
            decreases self.records@.len() - i,
        {
            assert(rs[i as int].app_name == self.records@[i as int].app_name@);
            if str_eq(self.records[i].app_name.as_str(), app_name) {
                return i;
            }
            i += 1;
        }
        i
    }

    /// The first record registered under an application name.
    pub fn get_record(&self, app_name: &str) -> (r: Option<&ExtendedDataRecord>)
        ensures
            match r {
                Some(rec) => record_for(self@, app_name@) == Some(rec@),
                None => record_for(self@, app_name@) is None,
            },
    {
        let i = self.find(app_name);
        if i < self.records.len() {
            Some(&self.records[i])
        } else {
            None
        }
    }

    /// Store a record: it replaces the first record of the same application, or is appended.
    pub fn upsert_record(&mut self, record: ExtendedDataRecord)
        ensures
            final(self)@ == with_record(old(self)@, record@),
    {
        let ghost rs = self@;
        let ghost rec = record@;
        let i = self.find(record.app_name.as_str());
        if i < self.records.len() {
            self.records.set(i, record);
            assert(self@ =~= rs.update(i as int, rec));
        } else {
            self.records.push(record);
            assert(self@ =~= rs.push(rec));
        }
    }
}

} // verus!
