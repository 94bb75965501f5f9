use vstd::prelude::*;
use vstd::bytes::{spec_u32_from_le_bytes, spec_u32_to_le_bytes, spec_u64_from_le_bytes,
    spec_u64_to_le_bytes, lemma_auto_spec_u32_to_from_le_bytes, lemma_auto_spec_u64_to_from_le_bytes};
use crate::entities::proxy_graphics::{TextModel, RecordModel, text_spec, text_payload, vec3_bytes,
    units_bytes, u16_le, u16_of, le_units, terminator_from, u64_at, vec3_at, padding, record_spec,
    record_parts, record_bytes, records_bytes, records_spec, encode_spec, decode_spec, u32_at};
use crate::text::{utf16_decode, utf16_encode, utf16_units};

verus! {

/// No character of `s` is NUL.
pub open spec fn no_nul(s: Seq<char>) -> bool {
    forall|i: int| 0 <= i < s.len() ==> s[i] != '\0'
}

proof fn lemma_char_range(c: char)
    ensures
        0 <= c as int <= 0x10FFFF,
        !(0xD800 <= c as int <= 0xDFFF),
{
}

proof fn lemma_u16_le(u: u16)
    ensures
        u16_of(u16_le(u)) == u,
        (u16_le(u)[0] == 0 && u16_le(u)[1] == 0) <==> u == 0,
{
}

proof fn lemma_utf16_units_decode(c: char, more: Seq<u16>)
    ensures
        utf16_decode(utf16_units(c) + more) == (match utf16_decode(more) {
            Some(r) => Some(seq![c] + r),
            None => None::<Seq<char>>,
        }),
{
    let v = c as int;
    let us = utf16_units(c) + more;
    if v < 0x10000 {
        assert(us[0] as int == v);
        assert(us.drop_first() =~= more);
        assert((v as char) == c);
    } else {
        let w = v - 0x10000;
        let hi = 0xD800 + w / 0x400;
        let lo = 0xDC00 + w % 0x400;
        assert(0 <= w < 0x100000);
        assert(0xD800 <= hi <= 0xDBFF);
        assert(0xDC00 <= lo <= 0xDFFF);
        assert(us[0] as int == hi);
        assert(us[1] as int == lo);
        assert(0x10000 + (hi - 0xD800) * 0x400 + (lo - 0xDC00) == v) by (nonlinear_arith)
            requires
                w == v - 0x10000,
                hi == 0xD800 + w / 0x400,
                lo == 0xDC00 + w % 0x400,
                0 <= w,
        ;
        assert(us.subrange(2, us.len() as int) =~= more);
        assert((v as char) == c);
    }
}

/// Decoding the UTF-16 encoding of a string gives the string back.
proof fn lemma_utf16_roundtrip(s: Seq<char>)
    ensures
        utf16_decode(utf16_encode(s)) == Some(s),
    decreases s.len(),
{
    if s.len() > 0 {
        lemma_utf16_roundtrip(s.drop_first());
        lemma_utf16_units_decode(s[0], utf16_encode(s.drop_first()));
        assert(seq![s[0]] + s.drop_first() =~= s);
    } else {
        assert(utf16_encode(s) =~= Seq::<u16>::empty());
    }
}

/// A string without NUL encodes to nonzero units.
proof fn lemma_utf16_nonzero(s: Seq<char>)
    requires
        no_nul(s),
    ensures
        forall|i: int| 0 <= i < utf16_encode(s).len() ==> utf16_encode(s)[i] != 0,
    decreases s.len(),
{
    if s.len() > 0 {
        lemma_utf16_nonzero(s.drop_first());
        let u = utf16_units(s[0]);
        let rest = utf16_encode(s.drop_first());
        assert(s[0] != '\0');
        let v = s[0] as int;
        lemma_char_range(s[0]);
        assert(('\0' as int) == 0);
        assert(v != 0);
        if v < 0x10000 {
            assert(u == seq![v as u16]);
            assert((v as u16) as int == v);
        } else {
            let w = v - 0x10000;
            assert(u == seq![(0xD800 + w / 0x400) as u16, (0xDC00 + w % 0x400) as u16]);
            assert(0 <= w / 0x400 < 0x400);
            assert(((0xD800 + w / 0x400) as u16) as int >= 0xD800);
            assert(((0xDC00 + w % 0x400) as u16) as int >= 0xDC00);
        }
        assert forall|i: int| 0 <= i < u.len() implies u[i] != 0 by {
        }
        assert forall|i: int| 0 <= i < utf16_encode(s).len() implies utf16_encode(s)[i] != 0 by {
            if i < u.len() {
                assert(utf16_encode(s)[i] == u[i]);
            } else {
                assert(utf16_encode(s)[i] == rest[i - u.len()]);
            }
        }
    }
}

/// Nonzero units decode to a string without NUL.
proof fn lemma_utf16_decode_nonzero(us: Seq<u16>)
    requires
        forall|i: int| 0 <= i < us.len() ==> us[i] != 0,
    ensures
        utf16_decode(us) matches Some(t) ==> no_nul(t),
    decreases us.len(),
{
    if us.len() > 0 {
        let u = us[0] as int;
        if u < 0xD800 || u > 0xDFFF {
            lemma_utf16_decode_nonzero(us.drop_first());
            assert((u as char) != '\0');
        } else if u <= 0xDBFF && us.len() >= 2 && 0xDC00 <= us[1] <= 0xDFFF {
            lemma_utf16_decode_nonzero(us.subrange(2, us.len() as int));
        }
        match utf16_decode(us) {
            Some(t) => {
                assert forall|i: int| 0 <= i < t.len() implies t[i] != '\0' by {
                    if i > 0 {
                        if u < 0xD800 || u > 0xDFFF {
                            assert(t[i] == utf16_decode(us.drop_first())->0[i - 1]);
                        } else {
                            assert(t[i] == utf16_decode(us.subrange(2, us.len() as int))->0[i - 1]);
                        }
                    }
                }
            },
            None => {},
        }
    }
}

/// Layout of the bytes of a unit sequence.
proof fn lemma_units_bytes(us: Seq<u16>)
    ensures
        units_bytes(us).len() == 2 * us.len(),
        forall|i: int| 0 <= i < us.len() ==> units_bytes(us).subrange(2 * i, 2 * i + 2) == u16_le(#[trigger] us[i]),
    decreases us.len(),
{
    if us.len() > 0 {
        lemma_units_bytes(us.drop_last());
        let a = units_bytes(us.drop_last());
        let b = units_bytes(us);
        assert(b == a + u16_le(us.last()));
        assert forall|i: int| 0 <= i < us.len() implies b.subrange(2 * i, 2 * i + 2) == u16_le(#[trigger] us[i]) by {
            if i < us.len() - 1 {
                assert(b.subrange(2 * i, 2 * i + 2) =~= a.subrange(2 * i, 2 * i + 2));
                assert(us[i] == us.drop_last()[i]);
            } else {
                assert(b.subrange(2 * i, 2 * i + 2) =~= u16_le(us.last()));
            }
        }
    }
}


/// In a tail made of nonzero units followed by a zero unit, the terminator is that zero unit.
proof fn lemma_terminator(tail: Seq<u8>, us: Seq<u16>, k: int)
    requires
        0 <= k <= us.len(),
        forall|i: int| 0 <= i < us.len() ==> us[i] != 0,
        tail.len() >= 2 * us.len() + 2,
        forall|i: int| 0 <= i < us.len() ==> tail.subrange(2 * i, 2 * i + 2) == u16_le(#[trigger] us[i]),
        tail[2 * us.len() as int] == 0,
        tail[2 * us.len() as int + 1] == 0,
    ensures
        terminator_from(tail, k) == Some(us.len() as int),
    decreases us.len() - k,
{
    if k < us.len() {
        lemma_u16_le(us[k]);
        let chunk = tail.subrange(2 * k, 2 * k + 2);
        assert(chunk == u16_le(us[k]));
        assert(tail[2 * k] == chunk[0]);
        assert(tail[2 * k + 1] == chunk[1]);
        lemma_terminator(tail, us, k + 1);
    }
}

/// A text primitive without NUL characters decodes from its encoding unchanged.
proof fn lemma_text_roundtrip(t: TextModel)
    requires
        no_nul(t.text),
    ensures
        text_spec(text_payload(t)) == Some(t),
{
    lemma_auto_spec_u64_to_from_le_bytes();
    let us = utf16_encode(t.text);
    lemma_units_bytes(us);
    lemma_utf16_nonzero(t.text);
    lemma_utf16_roundtrip(t.text);
    let b0 = spec_u64_to_le_bytes(t.position.x);
    let b1 = spec_u64_to_le_bytes(t.position.y);
    let b2 = spec_u64_to_le_bytes(t.position.z);
    let b3 = spec_u64_to_le_bytes(t.normal.x);
    let b4 = spec_u64_to_le_bytes(t.normal.y);
    let b5 = spec_u64_to_le_bytes(t.normal.z);
    let b6 = spec_u64_to_le_bytes(t.direction.x);
    let b7 = spec_u64_to_le_bytes(t.direction.y);
    let b8 = spec_u64_to_le_bytes(t.direction.z);
    let b9 = spec_u64_to_le_bytes(t.height);
    let b10 = spec_u64_to_le_bytes(t.width_factor);
    let b11 = spec_u64_to_le_bytes(t.oblique_angle);
    let ub = units_bytes(us);
    let fixed = b0 + b1 + b2 + b3 + b4 + b5 + b6 + b7 + b8 + b9 + b10 + b11;
    let body = fixed + ub + seq![0u8, 0u8];
    let p = text_payload(t);
    assert(body =~= vec3_bytes(t.position) + vec3_bytes(t.normal) + vec3_bytes(t.direction)
        + spec_u64_to_le_bytes(t.height) + spec_u64_to_le_bytes(t.width_factor)
        + spec_u64_to_le_bytes(t.oblique_angle) + units_bytes(utf16_encode(t.text)) + seq![0u8, 0u8]);
    assert(p == body + padding(body.len() as int));
    assert(fixed.len() == 96);
    assert(p.subrange(0, 8) =~= b0);
    assert(p.subrange(8, 16) =~= b1);
    assert(p.subrange(16, 24) =~= b2);
    assert(p.subrange(24, 32) =~= b3);
    assert(p.subrange(32, 40) =~= b4);
    assert(p.subrange(40, 48) =~= b5);
    assert(p.subrange(48, 56) =~= b6);
    assert(p.subrange(56, 64) =~= b7);
    assert(p.subrange(64, 72) =~= b8);
    assert(p.subrange(72, 80) =~= b9);
    assert(p.subrange(80, 88) =~= b10);
    assert(p.subrange(88, 96) =~= b11);
    assert(vec3_at(p, 0) == t.position);
    assert(vec3_at(p, 24) == t.normal);
    assert(vec3_at(p, 48) == t.direction);
    assert(u64_at(p, 72) == t.height);
    assert(u64_at(p, 80) == t.width_factor);
    assert(u64_at(p, 88) == t.oblique_angle);
    let tail = p.subrange(96, p.len() as int);
    assert(tail =~= ub + seq![0u8, 0u8] + padding(body.len() as int));
    assert forall|i: int| 0 <= i < us.len() implies tail.subrange(2 * i, 2 * i + 2) == u16_le(#[trigger] us[i]) by {
        assert(tail.subrange(2 * i, 2 * i + 2) =~= ub.subrange(2 * i, 2 * i + 2));
    }
    assert(tail[2 * us.len() as int] == 0);
    assert(tail[2 * us.len() as int + 1] == 0);
    lemma_terminator(tail, us, 0);
    assert forall|i: int| 0 <= i < us.len() implies le_units(tail, us.len() as int)[i] == us[i] by {
        lemma_u16_le(us[i]);
    }
    assert(le_units(tail, us.len() as int) =~= us);
    assert(p.len() >= 98);
}


/// Records that decoding can produce: a text primitive holds no NUL, and an
/// opaque record is not one that decoding would have interpreted.
pub open spec fn canonical_record(r: RecordModel) -> bool {
    match r {
        RecordModel::FillOff => true,
        RecordModel::UnicodeText(t) => no_nul(t.text),
        RecordModel::Unknown(t, p) => !(t == 21 && p.len() == 0) && !(t == 36 && text_spec(p) is Some),
    }
}

proof fn lemma_record_roundtrip(r: RecordModel)
    requires
        canonical_record(r),
    ensures
        record_spec(record_parts(r).0, record_parts(r).1) == r,
{
    match r {
        RecordModel::UnicodeText(t) => {
            lemma_text_roundtrip(t);
        },
        _ => {},
    }
}

/// The bytes of a prefix of the records are a prefix of the bytes of all records.
proof fn lemma_records_bytes_prefix(rs: Seq<RecordModel>, k: int)
    requires
        0 <= k <= rs.len(),
        records_bytes(rs) is Some,
    ensures
        records_bytes(rs.take(k)) is Some,
        records_bytes(rs.take(k))->0.len() <= records_bytes(rs)->0.len(),
        records_bytes(rs)->0.subrange(0, records_bytes(rs.take(k))->0.len() as int) == records_bytes(
            rs.take(k),
        )->0,
    decreases rs.len(),
{
    if k < rs.len() {
        assert(rs.drop_last().take(k) =~= rs.take(k));
        lemma_records_bytes_prefix(rs.drop_last(), k);
        let a = records_bytes(rs.drop_last())->0;
        let pre = records_bytes(rs.take(k))->0;
        assert(records_bytes(rs)->0.subrange(0, pre.len() as int) =~= a.subrange(0, pre.len() as int));
    } else {
        assert(rs.take(k) =~= rs);
        assert(records_bytes(rs)->0.subrange(0, records_bytes(rs)->0.len() as int) =~= records_bytes(rs)->0);
    }
}

/// Decoding the record stream from the `k`-th record on gives those records back.
proof fn lemma_stream(d: Seq<u8>, total: int, rs: Seq<RecordModel>, k: int)
    requires
        records_bytes(rs) is Some,
        d.subrange(8, total) == records_bytes(rs)->0,
        total == 8 + records_bytes(rs)->0.len(),
        total <= d.len(),
        0 <= k <= rs.len(),
        forall|i: int| 0 <= i < rs.len() ==> canonical_record(#[trigger] rs[i]),
    ensures
        records_bytes(rs.take(k)) is Some,
        records_spec(d, total, 8 + records_bytes(rs.take(k))->0.len() as int, (rs.len() - k) as nat) == Some(
            rs.skip(k),
        ),
    decreases rs.len() - k,
{
    lemma_records_bytes_prefix(rs, k);
    let body = records_bytes(rs)->0;
    let pre = records_bytes(rs.take(k))->0;
    let o: int = 8 + pre.len() as int;
    if k == rs.len() {
        assert(rs.take(k) =~= rs);
        assert(rs.skip(k) =~= Seq::<RecordModel>::empty());
    } else {
        lemma_records_bytes_prefix(rs, k + 1);
        lemma_stream(d, total, rs, k + 1);
        assert(rs.take(k + 1).drop_last() =~= rs.take(k));
        let r = rs[k];
        assert(rs.take(k + 1).last() == r);
        let rb = record_bytes(r)->0;
        let pre1 = records_bytes(rs.take(k + 1))->0;
        assert(pre1 == pre + rb);
        let t = record_parts(r).0;
        let p = record_parts(r).1;
        let size = (8 + p.len()) as u32;
        lemma_auto_spec_u32_to_from_le_bytes();
        assert(rb == spec_u32_to_le_bytes(size) + spec_u32_to_le_bytes(t) + p);
        assert(body.subrange(0, pre1.len() as int) == pre1);
        assert(d.subrange(o, o + 4) =~= pre1.subrange(pre.len() as int, pre.len() as int + 4));
        assert(pre1.subrange(pre.len() as int, pre.len() as int + 4) =~= spec_u32_to_le_bytes(size));
        assert forall|x: int| 0 <= x < pre1.len() implies d[8 + x] == #[trigger] pre1[x] by {
            assert(d.subrange(8, total)[x] == d[8 + x]);
            assert(body.subrange(0, pre1.len() as int)[x] == body[x]);
        }
        let l = pre.len() as int;
        assert forall|x: int| 0 <= x < rb.len() implies d[o + x] == #[trigger] rb[x] by {
            assert(pre1[l + x] == rb[x]);
        }
        let s32 = spec_u32_to_le_bytes(size);
        let t32 = spec_u32_to_le_bytes(t);
        assert forall|x: int| 0 <= x < 4 implies rb[4 + x] == #[trigger] t32[x] by {
        }
        assert forall|x: int| 0 <= x < p.len() implies rb[8 + x] == #[trigger] p[x] by {
        }
        assert(d.subrange(o + 4, o + 8) =~= t32) by {
            assert forall|x: int| 0 <= x < 4 implies d.subrange(o + 4, o + 8)[x] == t32[x] by {
                assert(d[o + 4 + x] == rb[4 + x]);
            }
        }
        assert(u32_at(d, o) == Some(size));
        assert(u32_at(d, o + 4) == Some(t));
        assert(d.subrange(o + 8, o + size) =~= p) by {
            assert forall|x: int| 0 <= x < p.len() implies d.subrange(o + 8, o + size)[x] == p[x] by {
                assert(d[o + 8 + x] == rb[8 + x]);
            }
        }
        lemma_record_roundtrip(r);
        assert(seq![r] + rs.skip(k + 1) =~= rs.skip(k));
    }
}

/// Encoding records that decoding can produce, then decoding the bytes, gives
/// the same records.
pub proof fn law_encode_then_decode(rs: Seq<RecordModel>)
    requires
        forall|i: int| 0 <= i < rs.len() ==> canonical_record(#[trigger] rs[i]),
    ensures
        encode_spec(rs) matches Some(bytes) ==> decode_spec(bytes) == Some(rs),
{
    if encode_spec(rs) is Some {
        let body = records_bytes(rs)->0;
        let total = (8 + body.len()) as u32;
        let count = rs.len() as u32;
        let d = encode_spec(rs)->0;
        lemma_auto_spec_u32_to_from_le_bytes();
        assert(d == spec_u32_to_le_bytes(total) + spec_u32_to_le_bytes(count) + body);
        assert(d.subrange(0, 4) =~= spec_u32_to_le_bytes(total));
        assert(d.subrange(4, 8) =~= spec_u32_to_le_bytes(count));
        assert(d.subrange(8, total as int) =~= body);
        lemma_stream(d, total as int, rs, 0);
        assert(rs.take(0) =~= Seq::<RecordModel>::empty());
        assert(rs.skip(0) =~= rs);
    }
}

/// Units before the terminator are nonzero.
proof fn lemma_terminator_nonzero(tail: Seq<u8>, k: int, m: int)
    requires
        0 <= k,
        terminator_from(tail, k) == Some(m),
    ensures
        k <= m,
        2 * m + 2 <= tail.len(),
        forall|i: int| k <= i < m ==> #[trigger] le_units(tail, m)[i] != 0,
    decreases tail.len() - 2 * k,
{
    if !(tail[2 * k] == 0 && tail[2 * k + 1] == 0) {
        lemma_terminator_nonzero(tail, k + 1, m);
        let b = tail.subrange(2 * k, 2 * k + 2);
        assert(b[0] == tail[2 * k] && b[1] == tail[2 * k + 1]);
        assert(u16_of(b) != 0);
        assert(le_units(tail, m)[k] == u16_of(b));
    }
}

proof fn lemma_record_spec_canonical(t: u32, p: Seq<u8>)
    ensures
        canonical_record(record_spec(t, p)),
{
    if t == 36 {
        match text_spec(p) {
            Some(x) => {
                let tail = p.subrange(96, p.len() as int);
                let m = terminator_from(tail, 0)->0;
                lemma_terminator_nonzero(tail, 0, m);
                lemma_utf16_decode_nonzero(le_units(tail, m));
            },
            None => {},
        }
    }
}

proof fn lemma_records_spec_canonical(d: Seq<u8>, total: int, offset: int, n: nat)
    ensures
        records_spec(d, total, offset, n) matches Some(rs) ==> forall|i: int|
            0 <= i < rs.len() ==> canonical_record(#[trigger] rs[i]),
    decreases n,
{
    if n > 0 {
        match (u32_at(d, offset), u32_at(d, offset + 4)) {
            (Some(size), Some(t)) => {
                if !(size < 8 || offset + size > total) {
                    lemma_records_spec_canonical(d, total, offset + size, (n - 1) as nat);
                    lemma_record_spec_canonical(t, d.subrange(offset + 8, offset + size));
                    match records_spec(d, total, offset, n) {
                        Some(rs) => {
                            let rest = records_spec(d, total, offset + size, (n - 1) as nat)->0;
                            assert forall|i: int| 0 <= i < rs.len() implies canonical_record(#[trigger] rs[i]) by {
                                if i > 0 {
                                    assert(rs[i] == rest[i - 1]);
                                }
                            }
                        },
                        None => {},
                    }
                }
            },
            _ => {},
        }
    }
}

/// Every record that decoding produces is one that encodes back to itself
/// (see `canonical_record`).
pub proof fn law_decoded_records_are_canonical(d: Seq<u8>)
    ensures
        decode_spec(d) matches Some(rs) ==> forall|i: int| 0 <= i < rs.len() ==> canonical_record(#[trigger] rs[i]),
{
    match (u32_at(d, 0), u32_at(d, 4)) {
        (Some(total), Some(count)) => {
            lemma_records_spec_canonical(d, total as int, 8, count as nat);
        },
        _ => {},
    }
}

/// Decoding a metafile, re-encoding the records and decoding again loses no
/// record: the second decoding equals the first.
pub proof fn law_decode_encode_decode(d: Seq<u8>)
    ensures
        decode_spec(d) matches Some(rs) ==> (encode_spec(rs) matches Some(b) ==> decode_spec(b) == Some(rs)),
{
    law_decoded_records_are_canonical(d);
    match decode_spec(d) {
        Some(rs) => {
            law_encode_then_decode(rs);
        },
        None => {},
    }
}

/// Records without a text primitive.
pub open spec fn no_text(rs: Seq<RecordModel>) -> bool {
    forall|i: int| 0 <= i < rs.len() ==> !((#[trigger] rs[i]) is UnicodeText)
}

/// Encoding a record in front of others puts its bytes in front of theirs.
proof fn lemma_records_bytes_cons(r: RecordModel, rest: Seq<RecordModel>)
    ensures
        records_bytes(seq![r] + rest) == match (record_bytes(r), records_bytes(rest)) {
            (Some(a), Some(b)) => Some(a + b),
            _ => None,
        },
    decreases rest.len(),
{
    if rest.len() == 0 {
        assert(seq![r] + rest =~= seq![r]);
        assert(seq![r].drop_last() =~= Seq::<RecordModel>::empty());
        assert(records_bytes(Seq::<RecordModel>::empty()) == Some(Seq::<u8>::empty()));
        assert(records_bytes(rest) == Some(Seq::<u8>::empty()));
        assert(seq![r].last() == r);
        match record_bytes(r) {
            Some(a) => {
                assert(Seq::<u8>::empty() + a =~= a);
                assert(a + Seq::<u8>::empty() =~= a);
            },
            None => {},
        }
    } else {
        lemma_records_bytes_cons(r, rest.drop_last());
        assert((seq![r] + rest).drop_last() =~= seq![r] + rest.drop_last());
        assert((seq![r] + rest).last() == rest.last());
        match (record_bytes(r), records_bytes(rest.drop_last()), record_bytes(rest.last())) {
            (Some(a), Some(b), Some(c)) => {
                assert(a + b + c =~= a + (b + c));
            },
            _ => {},
        }
    }
}

/// Records decoded from `offset` on, none of them text, encode back to the
/// bytes from `offset` up to `total`, and there are as many as were asked for.
proof fn lemma_records_identity(d: Seq<u8>, total: int, offset: int, n: nat)
    requires
        0 <= offset,
        total <= d.len(),
        records_spec(d, total, offset, n) is Some,
        no_text(records_spec(d, total, offset, n)->0),
    ensures
        records_spec(d, total, offset, n)->0.len() == n,
        records_bytes(records_spec(d, total, offset, n)->0) == Some(d.subrange(offset, total)),
    decreases n,
{
    let rs = records_spec(d, total, offset, n)->0;
    if n == 0 {
        assert(offset == total);
        assert(d.subrange(offset, total) =~= Seq::<u8>::empty());
    } else {
        let size = u32_at(d, offset)->0;
        let t = u32_at(d, offset + 4)->0;
        let p = d.subrange(offset + 8, offset + size);
        let rest = records_spec(d, total, offset + size, (n - 1) as nat)->0;
        let r = record_spec(t, p);
        assert(rs == seq![r] + rest);
        assert(rs[0] == r);
        assert forall|i: int| 0 <= i < rest.len() implies !((#[trigger] rest[i]) is UnicodeText) by {
            assert(rs[i + 1] == rest[i]);
        }
        lemma_records_identity(d, total, offset + size, (n - 1) as nat);
        lemma_records_bytes_cons(r, rest);
        assert(!(r is UnicodeText));
        assert(record_parts(r) == (t, p));
        lemma_auto_spec_u32_to_from_le_bytes();
        assert(p.len() == size - 8);
        assert(spec_u32_to_le_bytes(size) == d.subrange(offset, offset + 4));
        assert(spec_u32_to_le_bytes(t) == d.subrange(offset + 4, offset + 8));
        assert(record_bytes(r) == Some(d.subrange(offset, offset + size)));
        assert(d.subrange(offset, offset + size) + d.subrange(offset + size, total) =~= d.subrange(offset, total));
    }
}

/// Proxy graphics without text primitives re-encode byte for byte: encoding
/// the records that a metafile decodes to gives back the metafile up to its
/// declared total size (bytes after it are no part of it).
pub proof fn law_reencode_identical(d: Seq<u8>)
    requires
        decode_spec(d) is Some,
        no_text(decode_spec(d)->0),
    ensures
        encode_spec(decode_spec(d)->0) == Some(d.subrange(0, u32_at(d, 0)->0 as int)),
{
    let total = u32_at(d, 0)->0;
    let count = u32_at(d, 4)->0;
    lemma_records_identity(d, total as int, 8, count as nat);
    let rs = decode_spec(d)->0;
    let body = d.subrange(8, total as int);
    lemma_auto_spec_u32_to_from_le_bytes();
    assert(spec_u32_to_le_bytes(total) == d.subrange(0, 4));
    assert(spec_u32_to_le_bytes(count) == d.subrange(4, 8));
    assert(rs.len() as u32 == count);
    assert((8 + body.len()) as u32 == total);
    assert(d.subrange(0, 4) + d.subrange(4, 8) + body =~= d.subrange(0, total as int));
}

} // verus!
