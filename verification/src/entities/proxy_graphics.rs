//! Typed access to entity proxy-graphics metafiles.
//!
//! Unknown records stay opaque so decoding and re-encoding a metafile does not
//! discard primitives or traits that this module does not model yet.

use vstd::prelude::*;
use vstd::bytes::{spec_u32_from_le_bytes, spec_u32_to_le_bytes, spec_u64_from_le_bytes,
    spec_u64_to_le_bytes, u32_from_le_bytes, u32_to_le_bytes, u64_from_le_bytes, u64_to_le_bytes};
use vstd::slice::slice_subrange;
use crate::text::{utf16_decode, utf16_encode, decode_utf16, encode_utf16};
use crate::types::Vector3;
use crate::entities::entity::EntityCommon;

verus! {

/// An entity proxy-graphics metafile.
#[derive(Debug, Clone, PartialEq)]
pub struct ProxyGraphics {
    pub records: Vec<ProxyGraphicRecord>,
}

/// A typed proxy-graphics record.
#[derive(Debug, Clone, PartialEq)]
pub enum ProxyGraphicRecord {
    /// Type 21: an empty record that disables filling for later primitives.
    FillOff,
    /// Type 36: a single-line UTF-16 text primitive.
    UnicodeText(ProxyUnicodeText),
    /// A record whose payload is not interpreted here.
    Unknown { record_type: u32, data: Vec<u8> },
}

/// Type-36 Unicode text data. Floating-point fields are binary64 bit patterns.
#[derive(Debug, Clone, PartialEq)]
pub struct ProxyUnicodeText {
    pub position: Vector3,
    pub normal: Vector3,
    pub direction: Vector3,
    pub height: u64,
    pub width_factor: u64,
    pub oblique_angle: u64,
    pub text: String,
}

/// Model of a text primitive.
pub struct TextModel {
    pub position: Vector3,
    pub normal: Vector3,
    pub direction: Vector3,
    pub height: u64,
    pub width_factor: u64,
    pub oblique_angle: u64,
    pub text: Seq<char>,
}

/// Model of a record.
pub enum RecordModel {
    FillOff,
    UnicodeText(TextModel),
    Unknown(u32, Seq<u8>),
}

impl View for ProxyUnicodeText {
    type V = TextModel;

    open spec fn view(&self) -> TextModel {
        TextModel {
            position: self.position,
            normal: self.normal,
            direction: self.direction,
            height: self.height,
            width_factor: self.width_factor,
            oblique_angle: self.oblique_angle,
            text: self.text@,
        }
    }
}

impl View for ProxyGraphicRecord {
    type V = RecordModel;

    open spec fn view(&self) -> RecordModel {
        match self {
            ProxyGraphicRecord::FillOff => RecordModel::FillOff,
            ProxyGraphicRecord::UnicodeText(t) => RecordModel::UnicodeText(t@),
            ProxyGraphicRecord::Unknown { record_type, data } => RecordModel::Unknown(*record_type, data@),
        }
    }
}

impl View for ProxyGraphics {
    type V = Seq<RecordModel>;

    open spec fn view(&self) -> Seq<RecordModel> {
        self.records@.map_values(|r: ProxyGraphicRecord| r@)
    }
}

/// Little-endian `u32` at `off`, when four bytes are there.
pub open spec fn u32_at(d: Seq<u8>, off: int) -> Option<u32> {
    if 0 <= off && off + 4 <= d.len() {
        Some(spec_u32_from_le_bytes(d.subrange(off, off + 4)))
    } else {
        None
    }
}

/// Little-endian `u64` at `off`.
pub open spec fn u64_at(d: Seq<u8>, off: int) -> u64 {
    spec_u64_from_le_bytes(d.subrange(off, off + 8))
}

/// Three little-endian `u64` values starting at `off`.
pub open spec fn vec3_at(d: Seq<u8>, off: int) -> Vector3 {
    Vector3 { x: u64_at(d, off), y: u64_at(d, off + 8), z: u64_at(d, off + 16) }
}

/// Index of the first two-byte unit at or after unit `k` that is zero.
pub open spec fn terminator_from(tail: Seq<u8>, k: int) -> Option<int>
    decreases tail.len() - 2 * k,
{
    if k < 0 || 2 * k + 2 > tail.len() {
        None
    } else if tail[2 * k] == 0 && tail[2 * k + 1] == 0 {
        Some(k)
    } else {
        terminator_from(tail, k + 1)
    }
}

/// Little-endian bytes of a 16-bit unit.
pub open spec fn u16_le(u: u16) -> Seq<u8> {
    seq![(u % 256) as u8, (u / 256) as u8]
}

/// The 16-bit unit whose little-endian bytes are the first two of `b`.
pub open spec fn u16_of(b: Seq<u8>) -> u16 {
    (b[0] as int + b[1] as int * 256) as u16
}

fn unit_bytes(u: u16) -> (r: Vec<u8>)
    ensures
        r@ == u16_le(u),
{
    let mut r: Vec<u8> = Vec::new();
    r.push((u % 256) as u8);
    r.push((u / 256) as u8);
    assert(r@ =~= u16_le(u));
    r
}

fn unit_of(b0: u8, b1: u8) -> (u: u16)
    ensures
        u == u16_of(seq![b0, b1]),
{
    (b0 as u16) + (b1 as u16) * 256
}

/// The first `n` little-endian two-byte units of `b`.
pub open spec fn le_units(b: Seq<u8>, n: int) -> Seq<u16> {
    Seq::new(n as nat, |i: int| u16_of(b.subrange(2 * i, 2 * i + 2)))
}

/// Decoding of a type-36 payload: three vectors and three doubles (96 bytes),
/// then UTF-16 text up to the first zero unit.
pub open spec fn text_spec(p: Seq<u8>) -> Option<TextModel> {
    if p.len() < 98 {
        None
    } else {
        let tail = p.subrange(96, p.len() as int);
        match terminator_from(tail, 0) {
            None => None,
            Some(t) => match utf16_decode(le_units(tail, t)) {
                None => None,
                Some(text) => Some(
                    TextModel {
                        position: vec3_at(p, 0),
                        normal: vec3_at(p, 24),
                        direction: vec3_at(p, 48),
                        height: u64_at(p, 72),
                        width_factor: u64_at(p, 80),
                        oblique_angle: u64_at(p, 88),
                        text,
                    },
                ),
            },
        }
    }
}

/// Decoding of one record from its type and payload.
pub open spec fn record_spec(t: u32, p: Seq<u8>) -> RecordModel {
    if t == 21 && p.len() == 0 {
        RecordModel::FillOff
    } else if t == 36 {
        match text_spec(p) {
            Some(x) => RecordModel::UnicodeText(x),
            None => RecordModel::Unknown(t, p),
        }
    } else {
        RecordModel::Unknown(t, p)
    }
}

/// Decoding of `remaining` records starting at `offset`; the last must end exactly at `total`.
pub open spec fn records_spec(d: Seq<u8>, total: int, offset: int, remaining: nat) -> Option<Seq<RecordModel>>
    decreases remaining,
{
    if remaining == 0 {
        if offset == total {
            Some(Seq::empty())
        } else {
            None
        }
    } else {
        match (u32_at(d, offset), u32_at(d, offset + 4)) {
            (Some(size), Some(t)) => if size < 8 || offset + size > total {
                None
            } else {
                match records_spec(d, total, offset + size, (remaining - 1) as nat) {
                    Some(rest) => Some(seq![record_spec(t, d.subrange(offset + 8, offset + size))] + rest),
                    None => None,
                }
            },
            _ => None,
        }
    }
}

/// Decoding of a complete metafile: total size and record count, then the records.
pub open spec fn decode_spec(d: Seq<u8>) -> Option<Seq<RecordModel>> {
    match (u32_at(d, 0), u32_at(d, 4)) {
        (Some(total), Some(count)) => if total < 8 || total > d.len() {
            None
        } else {
            records_spec(d, total as int, 8, count as nat)
        },
        _ => None,
    }
}

/// Little-endian bytes of a sequence of units.
pub open spec fn units_bytes(us: Seq<u16>) -> Seq<u8>
    decreases us.len(),
{
    if us.len() == 0 {
        Seq::empty()
    } else {
        units_bytes(us.drop_last()) + u16_le(us.last())
    }
}

/// Little-endian bytes of a vector.
pub open spec fn vec3_bytes(v: Vector3) -> Seq<u8> {
    spec_u64_to_le_bytes(v.x) + spec_u64_to_le_bytes(v.y) + spec_u64_to_le_bytes(v.z)
}

/// Zero bytes that pad a payload of `n` bytes so that header plus payload is a multiple of 4.
pub open spec fn padding(n: int) -> Seq<u8> {
    Seq::new(((4 - (8 + n) % 4) % 4) as nat, |i: int| 0u8)
}

/// Encoding of a text primitive's payload.
pub open spec fn text_payload(t: TextModel) -> Seq<u8> {
    let body = vec3_bytes(t.position) + vec3_bytes(t.normal) + vec3_bytes(t.direction)
        + spec_u64_to_le_bytes(t.height) + spec_u64_to_le_bytes(t.width_factor)
        + spec_u64_to_le_bytes(t.oblique_angle) + units_bytes(utf16_encode(t.text)) + seq![0u8, 0u8];
    body + padding(body.len() as int)
}

/// Type and payload of a record.
pub open spec fn record_parts(r: RecordModel) -> (u32, Seq<u8>) {
    match r {
        RecordModel::FillOff => (21, Seq::empty()),
        RecordModel::UnicodeText(t) => (36, text_payload(t)),
        RecordModel::Unknown(t, p) => (t, p),
    }
}

/// Encoding of one record (size, type, payload), if its size fits in 32 bits.
pub open spec fn record_bytes(r: RecordModel) -> Option<Seq<u8>> {
    let (t, p) = record_parts(r);
    if 8 + p.len() <= u32::MAX {
        Some(spec_u32_to_le_bytes((8 + p.len()) as u32) + spec_u32_to_le_bytes(t) + p)
    } else {
        None
    }
}

/// Encoding of a sequence of records, if every record fits.
pub open spec fn records_bytes(rs: Seq<RecordModel>) -> Option<Seq<u8>>
    decreases rs.len(),
{
    if rs.len() == 0 {
        Some(Seq::empty())
    } else {
        match (records_bytes(rs.drop_last()), record_bytes(rs.last())) {
            (Some(a), Some(b)) => Some(a + b),
            _ => None,
        }
    }
}

/// Encoding of a complete metafile, if the count and all sizes fit in 32 bits.
pub open spec fn encode_spec(rs: Seq<RecordModel>) -> Option<Seq<u8>> {
    if rs.len() > u32::MAX {
        None
    } else {
        match records_bytes(rs) {
            Some(body) => if 8 + body.len() <= u32::MAX {
                Some(
                    spec_u32_to_le_bytes((8 + body.len()) as u32) + spec_u32_to_le_bytes(rs.len() as u32)
                        + body,
                )
            } else {
                None
            },
            None => None,
        }
    }
}


fn read_u32(data: &[u8], offset: usize) -> (r: Option<u32>)
    ensures
        r == u32_at(data@, offset as int),
{
    if offset <= data.len() && data.len() - offset >= 4 {
        Some(u32_from_le_bytes(slice_subrange(data, offset, offset + 4)))
    } else {
        None
    }
}

fn read_f64(data: &[u8], offset: usize) -> (r: Option<u64>)
    ensures
        offset + 8 <= data@.len() ==> r == Some(u64_at(data@, offset as int)),
        offset + 8 > data@.len() ==> r is None,
{
    if offset <= data.len() && data.len() - offset >= 8 {
        Some(u64_from_le_bytes(slice_subrange(data, offset, offset + 8)))
    } else {
        None
    }
}

fn read_vector(data: &[u8], offset: usize) -> (r: Option<Vector3>)
    ensures
        offset + 24 <= data@.len() ==> r == Some(vec3_at(data@, offset as int)),
        offset + 24 > data@.len() ==> r is None,
{
    if offset > data.len() || data.len() - offset < 24 {
        return None;
    }
    let x = read_f64(data, offset)?;
    let y = read_f64(data, offset + 8)?;
    let z = read_f64(data, offset + 16)?;
    Some(Vector3::new(x, y, z))
}

fn write_vector(output: &mut Vec<u8>, value: Vector3)
    ensures
        final(output)@ == old(output)@ + vec3_bytes(value),
{
    let mut x = u64_to_le_bytes(value.x);
    let mut y = u64_to_le_bytes(value.y);
    let mut z = u64_to_le_bytes(value.z);
    output.append(&mut x);
    output.append(&mut y);
    output.append(&mut z);
    assert(output@ =~= old(output)@ + vec3_bytes(value));
}

/// Index of the first zero two-byte unit of `tail`.
fn find_terminator(tail: &[u8]) -> (r: Option<usize>)
    ensures
        r matches Some(k) ==> terminator_from(tail@, 0) == Some(k as int) && 2 * k + 2 <= tail@.len(),
        r is None ==> terminator_from(tail@, 0) is None,
{
    let n = tail.len();
    let mut k: usize = 0;
    while k < n / 2
        invariant
            n == tail@.len(),
            k <= n / 2,
            terminator_from(tail@, 0) == terminator_from(tail@, k as int),
        decreases n / 2 - k,
    {
        if tail[2 * k] == 0 && tail[2 * k + 1] == 0 {
            return Some(k);
        }
        k += 1;
    }
    None
}

fn decode_unicode_text(data: &[u8]) -> (r: Option<ProxyUnicodeText>)
    ensures
        match text_spec(data@) {
            Some(t) => r is Some && r->0@ == t,
            None => r is None,
        },
{
    if data.len() < 98 {
        return None;
    }
    let position = read_vector(data, 0)?;
    let normal = read_vector(data, 24)?;
    let direction = read_vector(data, 48)?;
    let height = read_f64(data, 72)?;
    let width_factor = read_f64(data, 80)?;
    let oblique_angle = read_f64(data, 88)?;
    let tail = slice_subrange(data, 96, data.len());
    let terminator = find_terminator(tail)?;
    let mut units: Vec<u16> = Vec::new();
    let mut i: usize = 0;
    let tail_len = tail.len();
    while i < terminator
        invariant
            tail_len == tail@.len(),
            i <= terminator,
            2 * terminator + 2 <= tail@.len(),
            units@ =~= le_units(tail@, i as int),
        decreases terminator - i,
    {
        let u = unit_of(tail[2 * i], tail[2 * i + 1]);
        assert(tail@.subrange(2 * i, 2 * i + 2) =~= seq![tail@[2 * i], tail@[2 * i + 1]]);
        units.push(u);
        i += 1;
    }
    let text = decode_utf16(&units)?;
    Some(ProxyUnicodeText { position, normal, direction, height, width_factor, oblique_angle, text })
}

fn decode_record(record_type: u32, payload: &[u8]) -> (r: ProxyGraphicRecord)
    ensures
        r@ == record_spec(record_type, payload@),
{
    if record_type == 21 && payload.len() == 0 {
        ProxyGraphicRecord::FillOff
    } else if record_type == 36 {
        match decode_unicode_text(payload) {
            Some(text) => ProxyGraphicRecord::UnicodeText(text),
            None => ProxyGraphicRecord::Unknown {
                record_type,
                data: vstd::slice::slice_to_vec(payload),
            },
        }
    } else {
        ProxyGraphicRecord::Unknown { record_type, data: vstd::slice::slice_to_vec(payload) }
    }
}

fn copy_bytes(b: &Vec<u8>) -> (r: Vec<u8>)
    ensures
        r@ == b@,
{
    vstd::slice::slice_to_vec(b.as_slice())
}

fn encode_text(text: &ProxyUnicodeText) -> (data: Vec<u8>)
    ensures
        data@ == text_payload(text@),
{
    let mut data: Vec<u8> = Vec::new();
    write_vector(&mut data, text.position);
    write_vector(&mut data, text.normal);
    write_vector(&mut data, text.direction);
    let mut h = u64_to_le_bytes(text.height);
    data.append(&mut h);
    let mut w = u64_to_le_bytes(text.width_factor);
    data.append(&mut w);
    let mut o = u64_to_le_bytes(text.oblique_angle);
    data.append(&mut o);
    let ghost fixed = data@;
    let units = encode_utf16(text.text.as_str());
    let mut i: usize = 0;
    while i < units.len()
        invariant
            i <= units@.len(),
            data@ == fixed + units_bytes(units@.take(i as int)),
        decreases units@.len() - i,
    {
        let mut b = unit_bytes(units[i]);
        let ghost before = data@;
        data.append(&mut b);
        assert(units@.take(i + 1).drop_last() =~= units@.take(i as int));
        assert(data@ =~= fixed + units_bytes(units@.take(i + 1)));
        i += 1;
    }
    assert(units@.take(units@.len() as int) =~= units@);
    data.push(0);
    data.push(0);
    let ghost body = data@;
    assert(body =~= vec3_bytes(text.position) + vec3_bytes(text.normal) + vec3_bytes(text.direction)
        + spec_u64_to_le_bytes(text.height) + spec_u64_to_le_bytes(text.width_factor)
        + spec_u64_to_le_bytes(text.oblique_angle) + units_bytes(utf16_encode(text.text@))
        + seq![0u8, 0u8]);
    let mut j: usize = 0;
    while data.len() % 4 != 0
        invariant
            j <= 3,
            data@ == body + Seq::new(j as nat, |k: int| 0u8),
            (body.len() + j) % 4 == 0 ==> j == (4 - (8 + body.len()) % 4) % 4,
            (body.len() + j) % 4 != 0 ==> j < (4 - (8 + body.len()) % 4) % 4,
        decreases 3 - j,
    {
        let ghost before = data@;
        data.push(0);
        assert(data@ =~= body + Seq::new((j + 1) as nat, |k: int| 0u8));
        j += 1;
    }
    assert(data@ =~= body + padding(body.len() as int));
    data
}

fn encode_record(record: &ProxyGraphicRecord) -> (r: Option<(u32, Vec<u8>)>)
    ensures
        match r {
            Some((t, p)) => t == record_parts(record@).0 && p@ == record_parts(record@).1,
            None => false,
        },
{
    match record {
        ProxyGraphicRecord::FillOff => Some((21, Vec::new())),
        ProxyGraphicRecord::UnicodeText(text) => Some((36, encode_text(text))),
        ProxyGraphicRecord::Unknown { record_type, data } => Some((*record_type, copy_bytes(data))),
    }
}

/// A sequence that encodes has prefixes that encode.
proof fn lemma_records_bytes_prefix(rs: Seq<RecordModel>, k: int)
    requires
        0 <= k <= rs.len(),
        records_bytes(rs) is Some,
    ensures
        records_bytes(rs.take(k)) is Some,
    decreases rs.len(),
{
    if k < rs.len() {
        assert(rs.drop_last().take(k) =~= rs.take(k));
        lemma_records_bytes_prefix(rs.drop_last(), k);
    } else {
        assert(rs.take(k) =~= rs);
    }
}

impl ProxyGraphics {
    /// Encode the records as a complete proxy-graphics metafile.
    pub fn encode(&self) -> (r: Option<Vec<u8>>)
        ensures
            match encode_spec(self@) {
                Some(b) => r is Some && r->0@ == b,
                None => r is None,
            },
    {
        let ghost rs = self@;
        if self.records.len() > 4294967295 {
            return None;
        }
        let record_count = self.records.len() as u32;
        let mut body: Vec<u8> = Vec::new();
        let mut i: usize = 0;
        while i < self.records.len()
            invariant
                rs == self@,
                i <= self.records@.len(),
                records_bytes(rs.take(i as int)) == Some(body@),
            decreases self.records@.len() - i,
        {
            assert(rs.take(i + 1).drop_last() =~= rs.take(i as int));
            assert(rs[i as int] == self.records@[i as int]@);
            let (record_type, mut payload) = encode_record(&self.records[i]).unwrap();
            if payload.len() > 4294967287 {
                proof {
                    if records_bytes(rs) is Some {
                        lemma_records_bytes_prefix(rs, i + 1);
                    }
                }
                return None;
            }
            let record_size = (8 + payload.len()) as u32;
            let mut size_bytes = u32_to_le_bytes(record_size);
            let mut type_bytes = u32_to_le_bytes(record_type);
            let ghost before = body@;
            body.append(&mut size_bytes);
            body.append(&mut type_bytes);
            body.append(&mut payload);
            assert(body@ =~= before + record_bytes(rs[i as int])->0);
            i += 1;
        }
        assert(rs.take(i as int) =~= rs);
        if body.len() > 4294967287 {
            return None;
        }
        let total = (8 + body.len()) as u32;
        let mut output = u32_to_le_bytes(total);
        let mut count_bytes = u32_to_le_bytes(record_count);
        let ghost b = body@;
        output.append(&mut count_bytes);
        output.append(&mut body);
        assert(output@ =~= spec_u32_to_le_bytes(total) + spec_u32_to_le_bytes(record_count) + b);
        Some(output)
    }

    /// Decode a complete proxy-graphics metafile.
    pub fn decode(data: &[u8]) -> (r: Option<Self>)
        ensures
            match decode_spec(data@) {
                Some(rs) => r is Some && r->0@ == rs,
                None => r is None,
            },
    {
        let ghost d = data@;
        let data_len = data.len();
        let total = read_u32(data, 0)? as usize;
        let record_count = read_u32(data, 4)? as usize;
        if total < 8 || total > data.len() {
            return None;
        }
        let mut records: Vec<ProxyGraphicRecord> = Vec::new();
        let mut offset: usize = 8;
        let mut i: usize = 0;
        while i < record_count
            invariant
                d == data@,
                data_len == d.len(),
                8 <= total <= d.len(),
                i <= record_count,
                offset <= total,
                decode_spec(d) == (match records_spec(d, total as int, offset as int, (record_count - i) as nat) {
                    Some(rest) => Some(records@.map_values(|r: ProxyGraphicRecord| r@) + rest),
                    None => None::<Seq<RecordModel>>,
                }),
            decreases record_count - i,
        {
            let record_size = read_u32(data, offset)? as usize;
            let type_offset = match offset.checked_add(4) {
                Some(x) => x,
                None => {
                    return None;
                },
            };
            let record_type = read_u32(data, type_offset)?;
            if record_size < 8 {
                return None;
            }
            if record_size > total - offset {
                return None;
            }
            let record_end = offset + record_size;
            let payload = slice_subrange(data, offset + 8, record_end);
            let record = decode_record(record_type, payload);
            let ghost before = records@.map_values(|r: ProxyGraphicRecord| r@);
            let ghost rec = record@;
            records.push(record);
            proof {
                assert(records@.map_values(|r: ProxyGraphicRecord| r@) =~= before.push(rec));
                match records_spec(d, total as int, record_end as int, (record_count - i - 1) as nat) {
                    Some(rest) => {
                        assert(before.push(rec) + rest =~= before + (seq![rec] + rest));
                    },
                    None => {},
                }
            }
            offset = record_end;
            i += 1;
        }
        if offset != total {
            return None;
        }
        proof {
            assert(records@.map_values(|r: ProxyGraphicRecord| r@) + Seq::<RecordModel>::empty()
                =~= records@.map_values(|r: ProxyGraphicRecord| r@));
        }
        Some(ProxyGraphics { records })
    }
}

impl EntityCommon {
    /// Decode this entity's cached proxy graphics.
    pub fn proxy_graphics(&self) -> (r: Option<ProxyGraphics>)
        ensures
            match self.graphic_data {
                Some(d) => match decode_spec(d@) {
                    Some(rs) => r is Some && r->0@ == rs,
                    None => r is None,
                },
                None => r is None,
            },
    {
        match &self.graphic_data {
            Some(d) => ProxyGraphics::decode(d.as_slice()),
            None => None,
        }
    }

    /// Replace this entity's cached proxy graphics.
    pub fn set_proxy_graphics(&mut self, graphics: &ProxyGraphics) -> (r: bool)
        ensures
            r == encode_spec(graphics@) is Some,
            r ==> final(self).graphic_data is Some && final(self).graphic_data->0@ == encode_spec(graphics@)->0,
            r ==> *final(self) == (EntityCommon { graphic_data: final(self).graphic_data, ..*old(self) }),
            !r ==> *final(self) == *old(self),
    {
        match graphics.encode() {
            Some(data) => {
                self.graphic_data = Some(data);
                true
            },
            None => false,
        }
    }
}

} // verus!
