//! Binary layouts: a file format is described as a sequence of segments, each
//! either a fixed run of fields or a `u32be`-counted list of such runs. The
//! spec functions `dec_*` say what decoding a layout from a byte sequence
//! gives; the exec functions `read_*` decode it and are proved to agree.
use vstd::prelude::*;
use crate::bytes::{be16_at, be32_at, be64_at, is_utf8, utf8_valid, read_u16_at, read_u32_at, read_u64_at, copy_range};
use vstd::slice::slice_subrange;
use crate::error::ReadError;

verus! {

/// The kind of one field of a binary layout.
#[derive(PartialEq, Eq, Structural, Clone, Copy)]
pub enum FieldKind {
    U8,
    U16,
    U32,
    U64,
    /// A `u32be` byte length followed by that many bytes of UTF-8.
    Str,
    /// The given number of raw bytes.
    Fixed(usize),
    /// A `u32be` zero that is present only if the next four bytes are zero.
    OptZero,
}

/// The value of one decoded field.
pub enum Fld {
    U8(u8),
    U16(u16),
    U32(u32),
    U64(u64),
    Bytes(Seq<u8>),
    Opt(bool),
}

/// A decoded field, as held at run time.
pub enum FieldValue {
    U8(u8),
    U16(u16),
    U32(u32),
    U64(u64),
    Bytes(Vec<u8>),
    Opt(bool),
}

impl View for FieldValue {
    type V = Fld;

    open spec fn view(&self) -> Fld {
        match self {
            FieldValue::U8(x) => Fld::U8(*x),
            FieldValue::U16(x) => Fld::U16(*x),
            FieldValue::U32(x) => Fld::U32(*x),
            FieldValue::U64(x) => Fld::U64(*x),
            FieldValue::Bytes(b) => Fld::Bytes(b@),
            FieldValue::Opt(b) => Fld::Opt(*b),
        }
    }
}

pub open spec fn flds_view(v: Seq<FieldValue>) -> Seq<Fld> {
    v.map_values(|f: FieldValue| f@)
}

pub open spec fn items_view(v: Seq<Vec<FieldValue>>) -> Seq<Seq<Fld>> {
    v.map_values(|it: Vec<FieldValue>| flds_view(it@))
}

/// One segment of a layout.
pub enum Seg {
    Run(Seq<FieldKind>),
    List(Seq<FieldKind>),
}

/// The value of one decoded segment.
pub enum SegVal {
    Run(Seq<Fld>),
    List(Seq<Seq<Fld>>),
}

/// A segment, as held at run time.
pub enum Segment {
    Run(Vec<FieldKind>),
    List(Vec<FieldKind>),
}

impl View for Segment {
    type V = Seg;

    open spec fn view(&self) -> Seg {
        match self {
            Segment::Run(k) => Seg::Run(k@),
            Segment::List(k) => Seg::List(k@),
        }
    }
}

/// A decoded segment, as held at run time.
pub enum SegmentValue {
    Run(Vec<FieldValue>),
    List(Vec<Vec<FieldValue>>),
}

impl View for SegmentValue {
    type V = SegVal;

    open spec fn view(&self) -> SegVal {
        match self {
            SegmentValue::Run(v) => SegVal::Run(flds_view(v@)),
            SegmentValue::List(v) => SegVal::List(items_view(v@)),
        }
    }
}

pub open spec fn segs_view(v: Seq<Segment>) -> Seq<Seg> {
    v.map_values(|g: Segment| g@)
}

pub open spec fn segvals_view(v: Seq<SegmentValue>) -> Seq<SegVal> {
    v.map_values(|g: SegmentValue| g@)
}

/// Decoding one field of kind `k` at `s[p..]`: the field and the position after it.
pub open spec fn dec_field(k: FieldKind, s: Seq<u8>, p: int) -> Option<(Fld, int)> {
    if !(0 <= p <= s.len()) {
        None
    } else {
        match k {
            FieldKind::U8 => if p + 1 <= s.len() {
                Some((Fld::U8(s[p]), p + 1))
            } else {
                None
            },
            FieldKind::U16 => if p + 2 <= s.len() {
                Some((Fld::U16(be16_at(s, p) as u16), p + 2))
            } else {
                None
            },
            FieldKind::U32 => if p + 4 <= s.len() {
                Some((Fld::U32(be32_at(s, p) as u32), p + 4))
            } else {
                None
            },
            FieldKind::U64 => if p + 8 <= s.len() {
                Some((Fld::U64(be64_at(s, p) as u64), p + 8))
            } else {
                None
            },
            FieldKind::Str => if p + 4 <= s.len() {
                let n = be32_at(s, p);
                if p + 4 + n <= s.len() && is_utf8(s.subrange(p + 4, p + 4 + n)) {
                    Some((Fld::Bytes(s.subrange(p + 4, p + 4 + n)), p + 4 + n))
                } else {
                    None
                }
            } else {
                None
            },
            FieldKind::Fixed(n) => if p + n <= s.len() {
                Some((Fld::Bytes(s.subrange(p, p + n)), p + n))
            } else {
                None
            },
            FieldKind::OptZero => if p + 4 <= s.len() {
                if be32_at(s, p) == 0 {
                    Some((Fld::Opt(true), p + 4))
                } else {
                    Some((Fld::Opt(false), p))
                }
            } else {
                None
            },
        }
    }
}

/// Decoding the fields of kinds `ks`, one after the other, from `s[p..]`.
pub open spec fn dec_run(ks: Seq<FieldKind>, s: Seq<u8>, p: int) -> Option<(Seq<Fld>, int)>
    decreases ks.len(),
{
    if ks.len() == 0 {
        if 0 <= p <= s.len() {
            Some((Seq::empty(), p))
        } else {
            None
        }
    } else {
        match dec_run(ks.drop_last(), s, p) {
            Some((fs, q)) => match dec_field(ks.last(), s, q) {
                Some((f, q2)) => Some((fs.push(f), q2)),
                None => None,
            },
            None => None,
        }
    }
}

/// Decoding `n` runs of kinds `ks`, one after the other, from `s[p..]`.
pub open spec fn dec_items(ks: Seq<FieldKind>, n: nat, s: Seq<u8>, p: int) -> Option<
    (Seq<Seq<Fld>>, int),
>
    decreases n,
{
    if n == 0 {
        if 0 <= p <= s.len() {
            Some((Seq::empty(), p))
        } else {
            None
        }
    } else {
        match dec_items(ks, (n - 1) as nat, s, p) {
            Some((items, q)) => match dec_run(ks, s, q) {
                Some((fs, q2)) => Some((items.push(fs), q2)),
                None => None,
            },
            None => None,
        }
    }
}

/// Decoding one segment from `s[p..]`.
pub open spec fn dec_seg(g: Seg, s: Seq<u8>, p: int) -> Option<(SegVal, int)> {
    match g {
        Seg::Run(ks) => match dec_run(ks, s, p) {
            Some((fs, q)) => Some((SegVal::Run(fs), q)),
            None => None,
        },
        Seg::List(ks) => if 0 <= p && p + 4 <= s.len() {
            match dec_items(ks, be32_at(s, p) as nat, s, p + 4) {
                Some((items, q)) => Some((SegVal::List(items), q)),
                None => None,
            }
        } else {
            None
        },
    }
}

/// Decoding the segments `gs`, one after the other, from `s[p..]`.
pub open spec fn dec_segs(gs: Seq<Seg>, s: Seq<u8>, p: int) -> Option<(Seq<SegVal>, int)>
    decreases gs.len(),
{
    if gs.len() == 0 {
        if 0 <= p <= s.len() {
            Some((Seq::empty(), p))
        } else {
            None
        }
    } else {
        match dec_segs(gs.drop_last(), s, p) {
            Some((vs, q)) => match dec_seg(gs.last(), s, q) {
                Some((v, q2)) => Some((vs.push(v), q2)),
                None => None,
            },
            None => None,
        }
    }
}

/// Reads one field of kind `k` at `data[p..]`.
pub fn read_field(k: FieldKind, data: &[u8], p: usize) -> (r: Option<(FieldValue, usize)>)
    ensures
        match dec_field(k, data@, p as int) {
            Some((f, q)) => r matches Some((fv, q2)) && fv@ == f && q2 == q,
            None => r is None,
        },
{
    if p > data.len() {
        return None;
    }
    match k {
        FieldKind::U8 => if p < data.len() {
            Some((FieldValue::U8(data[p]), p + 1))
        } else {
            None
        },
        FieldKind::U16 => match read_u16_at(data, p) {
            Some(x) => Some((FieldValue::U16(x), p + 2)),
            None => None,
        },
        FieldKind::U32 => match read_u32_at(data, p) {
            Some(x) => Some((FieldValue::U32(x), p + 4)),
            None => None,
        },
        FieldKind::U64 => match read_u64_at(data, p) {
            Some(x) => Some((FieldValue::U64(x), p + 8)),
            None => None,
        },
        FieldKind::Str => match read_u32_at(data, p) {
            Some(n) => {
                let start = p + 4;
                if n as usize <= data.len() - start {
                    let end = start + n as usize;
                    let bytes = slice_subrange(data, start, end);
                    if utf8_valid(bytes) {
                        Some((FieldValue::Bytes(copy_range(data, start, end)), end))
                    } else {
                        None
                    }
                } else {
                    None
                }
            },
            None => None,
        },
        FieldKind::Fixed(n) => if n <= data.len() - p {
            Some((FieldValue::Bytes(copy_range(data, p, p + n)), p + n))
        } else {
            None
        },
        FieldKind::OptZero => match read_u32_at(data, p) {
            Some(x) => if x == 0 {
                Some((FieldValue::Opt(true), p + 4))
            } else {
                Some((FieldValue::Opt(false), p))
            },
            None => None,
        },
    }
}

/// Reads the fields of kinds `ks`, one after the other, at `data[p..]`.
pub fn read_run(ks: &[FieldKind], data: &[u8], p: usize) -> (r: Option<(Vec<FieldValue>, usize)>)
    ensures
        match dec_run(ks@, data@, p as int) {
            Some((fs, q)) => r matches Some((v, q2)) && flds_view(v@) == fs && q2 == q,
            None => r is None,
        },
{
    if p > data.len() {
        assert(ks@.take(0) =~= Seq::<FieldKind>::empty());
        proof { lemma_dec_run_none_prefix(ks@, 0, data@, p as int); }
        assert(ks@.take(ks@.len() as int) =~= ks@);
        return None;
    }
    let mut out: Vec<FieldValue> = Vec::new();
    let mut q = p;
    let mut i: usize = 0;
    assert(ks@.take(0) =~= Seq::<FieldKind>::empty());
    assert(flds_view(out@) =~= Seq::<Fld>::empty());
    while i < ks.len()
        invariant
            i <= ks@.len(),
            p <= data@.len(),
            dec_run(ks@.take(i as int), data@, p as int) == Some((flds_view(out@), q as int)),
        decreases ks@.len() - i,
    {
        assert(ks@.take(i + 1).drop_last() =~= ks@.take(i as int));
        assert(ks@.take(i + 1).last() == ks@[i as int]);
        match read_field(ks[i], data, q) {
            Some((f, q2)) => {
                let ghost old_out = out@;
                out.push(f);
                assert(flds_view(out@) =~= flds_view(old_out).push(f@));
                q = q2;
                i = i + 1;
            },
            None => {
                proof { lemma_dec_run_none_prefix(ks@, i as int + 1, data@, p as int); }
                assert(ks@.take(ks@.len() as int) =~= ks@);
                return None;
            },
        }
    }
    assert(ks@.take(ks@.len() as int) =~= ks@);
    Some((out, q))
}

/// If the first `k` kinds of a run fail to decode, so does the whole run.
pub proof fn lemma_dec_run_none_prefix(ks: Seq<FieldKind>, k: int, s: Seq<u8>, p: int)
    requires
        0 <= k <= ks.len(),
        dec_run(ks.take(k), s, p) is None,
    ensures
        dec_run(ks, s, p) is None,
    decreases ks.len() - k,
{
    if k < ks.len() {
        assert(ks.take(k + 1).drop_last() =~= ks.take(k));
        lemma_dec_run_none_prefix(ks, k + 1, s, p);
    } else {
        assert(ks.take(k) =~= ks);
    }
}

/// If the first `k` segments fail to decode, so do all of them.
pub proof fn lemma_dec_segs_none_prefix(gs: Seq<Seg>, k: int, s: Seq<u8>, p: int)
    requires
        0 <= k <= gs.len(),
        dec_segs(gs.take(k), s, p) is None,
    ensures
        dec_segs(gs, s, p) is None,
    decreases gs.len() - k,
{
    if k < gs.len() {
        assert(gs.take(k + 1).drop_last() =~= gs.take(k));
        lemma_dec_segs_none_prefix(gs, k + 1, s, p);
    } else {
        assert(gs.take(k) =~= gs);
    }
}

/// If the first `k` items of a list fail to decode, so does the whole list.
pub proof fn lemma_dec_items_none_prefix(ks: Seq<FieldKind>, k: nat, n: nat, s: Seq<u8>, p: int)
    requires
        k <= n,
        dec_items(ks, k, s, p) is None,
    ensures
        dec_items(ks, n, s, p) is None,
    decreases n - k,
{
    if k < n {
        lemma_dec_items_none_prefix(ks, k + 1, n, s, p);
    }
}

/// Reads `n` runs of kinds `ks`, one after the other, at `data[p..]`.
pub fn read_items(ks: &[FieldKind], n: u32, data: &[u8], p: usize) -> (r: Option<
    (Vec<Vec<FieldValue>>, usize),
>)
    ensures
        match dec_items(ks@, n as nat, data@, p as int) {
            Some((items, q)) => r matches Some((v, q2)) && items_view(v@) == items && q2 == q,
            None => r is None,
        },
{
    if p > data.len() {
        proof { lemma_dec_items_none_prefix(ks@, 0, n as nat, data@, p as int); }
        return None;
    }
    let mut out: Vec<Vec<FieldValue>> = Vec::new();
    let mut q = p;
    let mut i: u32 = 0;
    assert(items_view(out@) =~= Seq::<Seq<Fld>>::empty());
    while i < n
        invariant
            i <= n,
            p <= data@.len(),
            dec_items(ks@, i as nat, data@, p as int) == Some((items_view(out@), q as int)),
        decreases n - i,
    {
        match read_run(ks, data, q) {
            Some((fs, q2)) => {
                let ghost old_out = out@;
                let ghost fsv = fs@;
                out.push(fs);
                assert(items_view(out@) =~= items_view(old_out).push(flds_view(fsv)));
                q = q2;
                i = i + 1;
            },
            None => {
                proof { lemma_dec_items_none_prefix(ks@, i as nat + 1, n as nat, data@, p as int); }
                return None;
            },
        }
    }
    Some((out, q))
}

/// Reads one segment at `data[p..]`.
pub fn read_seg(g: &Segment, data: &[u8], p: usize) -> (r: Option<(SegmentValue, usize)>)
    ensures
        match dec_seg(g@, data@, p as int) {
            Some((v, q)) => r matches Some((sv, q2)) && sv@ == v && q2 == q,
            None => r is None,
        },
{
    match g {
        Segment::Run(ks) => match read_run(ks.as_slice(), data, p) {
            Some((fs, q)) => Some((SegmentValue::Run(fs), q)),
            None => None,
        },
        Segment::List(ks) => match read_u32_at(data, p) {
            Some(n) => match read_items(ks.as_slice(), n, data, {
                assert(data@.len() == data.len());
                p + 4
            }) {
                Some((items, q)) => Some((SegmentValue::List(items), q)),
                None => None,
            },
            None => None,
        },
    }
}

/// Reads the segments `gs`, one after the other, at `data[p..]`.
pub fn read_segs(gs: &Vec<Segment>, data: &[u8], p: usize) -> (r: Option<
    (Vec<SegmentValue>, usize),
>)
    ensures
        match dec_segs(segs_view(gs@), data@, p as int) {
            Some((vs, q)) => r matches Some((v, q2)) && segvals_view(v@) == vs && q2 == q,
            None => r is None,
        },
{
    let ghost gsv = segs_view(gs@);
    if p > data.len() {
        assert(gsv.take(0) =~= Seq::<Seg>::empty());
        proof { lemma_dec_segs_none_prefix(gsv, 0, data@, p as int); }
        return None;
    }
    let mut out: Vec<SegmentValue> = Vec::new();
    let mut q = p;
    let mut i: usize = 0;
    assert(gsv.take(0) =~= Seq::<Seg>::empty());
    assert(segvals_view(out@) =~= Seq::<SegVal>::empty());
    while i < gs.len()
        invariant
            i <= gs@.len(),
            gsv == segs_view(gs@),
            p <= data@.len(),
            dec_segs(gsv.take(i as int), data@, p as int) == Some((segvals_view(out@), q as int)),
        decreases gs@.len() - i,
    {
        assert(gsv.take(i + 1).drop_last() =~= gsv.take(i as int));
        assert(gsv.take(i + 1).last() == gs@[i as int]@);
        match read_seg(&gs[i], data, q) {
            Some((v, q2)) => {
                let ghost old_out = out@;
                let ghost vv = v@;
                out.push(v);
                assert(segvals_view(out@) =~= segvals_view(old_out).push(vv));
                q = q2;
                i = i + 1;
            },
            None => {
                proof { lemma_dec_segs_none_prefix(gsv, i as int + 1, data@, p as int); }
                return None;
            },
        }
    }
    assert(gsv.take(gs@.len() as int) =~= gsv);
    Some((out, q))
}


/// Reads the run of fields of kinds `ks` at `data[p..]`; an error where it does not decode.
pub fn read_fields(ks: &Vec<FieldKind>, data: &[u8], p: usize) -> (r: Result<(Vec<FieldValue>, usize), ReadError>)
    ensures
        match dec_run(ks@, data@, p as int) {
            Some((fs, q)) => r matches Ok((v, e)) && flds_view(v@) == fs && e == q && fs.len() == ks@.len()
                && p <= q <= data@.len(),
            None => r is Err,
        },
{
    match read_run(ks.as_slice(), data, p) {
        Some((v, q)) => {
            proof { lemma_dec_run_fits(ks@, data@, p as int); }
            Ok((v, q))
        },
        None => Err(ReadError),
    }
}

/// Decoded lists hold as many items as they say, each of the kinds of the layout.
pub proof fn lemma_dec_items_fits(ks: Seq<FieldKind>, n: nat, s: Seq<u8>, p: int)
    ensures
        dec_items(ks, n, s, p) matches Some((items, q)) ==> items.len() == n && p <= q <= s.len()
            && forall|k: int| 0 <= k < n ==> fits(ks, #[trigger] items[k]),
    decreases n,
{
    if n > 0 {
        lemma_dec_items_fits(ks, (n - 1) as nat, s, p);
        if let Some((items0, q0)) = dec_items(ks, (n - 1) as nat, s, p) {
            lemma_dec_run_fits(ks, s, q0);
            if let Some((items, q)) = dec_items(ks, n, s, p) {
                assert forall|k: int| 0 <= k < n implies fits(ks, #[trigger] items[k]) by {
                    if k < n - 1 {
                        assert(items[k] == items0[k]);
                    }
                }
            }
        }
    }
}

/// Whether the segment value `v` has the shape of the segment `g`.
pub open spec fn seg_fits(g: Seg, v: SegVal) -> bool {
    match g {
        Seg::Run(ks) => v is Run && fits(ks, frun(v)),
        Seg::List(ks) => v is List && forall|k: int| 0 <= k < fitems(v).len() ==> fits(ks, #[trigger] fitems(v)[k]),
    }
}

/// Decoded segments have the shapes of their layout.
pub proof fn lemma_dec_segs_fits(gs: Seq<Seg>, s: Seq<u8>, p: int)
    ensures
        dec_segs(gs, s, p) matches Some((vs, q)) ==> vs.len() == gs.len() && p <= q <= s.len()
            && forall|i: int| 0 <= i < gs.len() ==> seg_fits(#[trigger] gs[i], vs[i]),
    decreases gs.len(),
{
    if gs.len() > 0 {
        lemma_dec_segs_fits(gs.drop_last(), s, p);
        if let Some((vs0, q0)) = dec_segs(gs.drop_last(), s, p) {
            match gs.last() {
                Seg::Run(ks) => lemma_dec_run_fits(ks, s, q0),
                Seg::List(ks) => if 0 <= q0 && q0 + 4 <= s.len() {
                    lemma_dec_items_fits(ks, be32_at(s, q0) as nat, s, q0 + 4);
                },
            }
            if let Some((vs, q)) = dec_segs(gs, s, p) {
                assert forall|i: int| 0 <= i < gs.len() implies seg_fits(#[trigger] gs[i], vs[i]) by {
                    if i < gs.len() - 1 {
                        assert(gs[i] == gs.drop_last()[i]);
                        assert(vs[i] == vs0[i]);
                    }
                }
            }
        }
    }
}

/// The fields of run segment `i` of `v`.
pub fn seg_run(v: &Vec<SegmentValue>, i: usize) -> (r: &Vec<FieldValue>)
    requires
        i < v@.len(),
        segvals_view(v@)[i as int] is Run,
    ensures
        flds_view(r@) == frun(segvals_view(v@)[i as int]),
{
    match &v[i] {
        SegmentValue::Run(fs) => fs,
        SegmentValue::List(_) => vstd::pervasive::unreached(),
    }
}

/// The items of list segment `i` of `v`.
pub fn seg_items(v: &Vec<SegmentValue>, i: usize) -> (r: &Vec<Vec<FieldValue>>)
    requires
        i < v@.len(),
        segvals_view(v@)[i as int] is List,
    ensures
        items_view(r@) == fitems(segvals_view(v@)[i as int]),
{
    match &v[i] {
        SegmentValue::List(items) => items,
        SegmentValue::Run(_) => vstd::pervasive::unreached(),
    }
}

/// The integer held by a `U8` field (`0` for any other field).
pub open spec fn fu8(f: Fld) -> u8 {
    match f {
        Fld::U8(x) => x,
        _ => 0,
    }
}

/// The integer held by a `U16` field (`0` for any other field).
pub open spec fn fu16(f: Fld) -> u16 {
    match f {
        Fld::U16(x) => x,
        _ => 0,
    }
}

/// The integer held by a `U32` field (`0` for any other field).
pub open spec fn fu32(f: Fld) -> u32 {
    match f {
        Fld::U32(x) => x,
        _ => 0,
    }
}

/// The integer held by a `U64` field (`0` for any other field).
pub open spec fn fu64(f: Fld) -> u64 {
    match f {
        Fld::U64(x) => x,
        _ => 0,
    }
}

/// The bytes held by a `Bytes` field (empty for any other field).
pub open spec fn fbytes(f: Fld) -> Seq<u8> {
    match f {
        Fld::Bytes(b) => b,
        _ => Seq::empty(),
    }
}

/// The presence held by an `Opt` field (`false` for any other field).
pub open spec fn fopt(f: Fld) -> bool {
    match f {
        Fld::Opt(b) => b,
        _ => false,
    }
}

/// The fields of a run segment (empty for a list).
pub open spec fn frun(v: SegVal) -> Seq<Fld> {
    match v {
        SegVal::Run(fs) => fs,
        _ => Seq::empty(),
    }
}

/// The items of a list segment (empty for a run).
pub open spec fn fitems(v: SegVal) -> Seq<Seq<Fld>> {
    match v {
        SegVal::List(items) => items,
        _ => Seq::empty(),
    }
}

/// Whether the fields `fs` have the kinds `ks`.
pub open spec fn fits(ks: Seq<FieldKind>, fs: Seq<Fld>) -> bool {
    &&& fs.len() == ks.len()
    &&& forall|i: int|
        0 <= i < ks.len() ==> match #[trigger] ks[i] {
            FieldKind::U8 => fs[i] is U8,
            FieldKind::U16 => fs[i] is U16,
            FieldKind::U32 => fs[i] is U32,
            FieldKind::U64 => fs[i] is U64,
            FieldKind::Str => fs[i] is Bytes,
            FieldKind::Fixed(n) => fs[i] is Bytes && fbytes(fs[i]).len() == n,
            FieldKind::OptZero => fs[i] is Opt,
        }
}

/// Decoded runs have the kinds of their layout.
pub proof fn lemma_dec_run_fits(ks: Seq<FieldKind>, s: Seq<u8>, p: int)
    ensures
        dec_run(ks, s, p) matches Some((fs, q)) ==> fits(ks, fs) && p <= q <= s.len(),
    decreases ks.len(),
{
    if ks.len() > 0 {
        lemma_dec_run_fits(ks.drop_last(), s, p);
        if let Some((fs, q)) = dec_run(ks, s, p) {
            let (fs0, q0) = dec_run(ks.drop_last(), s, p).unwrap();
            assert(fs == fs0.push(fs[fs.len() - 1]));
            assert forall|i: int| 0 <= i < ks.len() implies match #[trigger] ks[i] {
                FieldKind::U8 => fs[i] is U8,
                FieldKind::U16 => fs[i] is U16,
                FieldKind::U32 => fs[i] is U32,
                FieldKind::U64 => fs[i] is U64,
                FieldKind::Str => fs[i] is Bytes,
                FieldKind::Fixed(n) => fs[i] is Bytes && fbytes(fs[i]).len() == n,
                FieldKind::OptZero => fs[i] is Opt,
            } by {
                if i < ks.len() - 1 {
                    assert(ks[i] == ks.drop_last()[i]);
                }
            }
        }
    }
}

/// Field `i` of `v`, a `U32`.
pub fn get_u32(v: &Vec<FieldValue>, i: usize) -> (r: u32)
    requires
        i < v@.len(),
    ensures
        r == fu32(flds_view(v@)[i as int]),
{
    match &v[i] {
        FieldValue::U32(x) => *x,
        _ => 0,
    }
}

/// Field `i` of `v`, a `U64`.
pub fn get_u64(v: &Vec<FieldValue>, i: usize) -> (r: u64)
    requires
        i < v@.len(),
    ensures
        r == fu64(flds_view(v@)[i as int]),
{
    match &v[i] {
        FieldValue::U64(x) => *x,
        _ => 0,
    }
}

/// Field `i` of `v`, a `U16`.
pub fn get_u16(v: &Vec<FieldValue>, i: usize) -> (r: u16)
    requires
        i < v@.len(),
    ensures
        r == fu16(flds_view(v@)[i as int]),
{
    match &v[i] {
        FieldValue::U16(x) => *x,
        _ => 0,
    }
}

/// Field `i` of `v`, a `U8`.
pub fn get_u8(v: &Vec<FieldValue>, i: usize) -> (r: u8)
    requires
        i < v@.len(),
    ensures
        r == fu8(flds_view(v@)[i as int]),
{
    match &v[i] {
        FieldValue::U8(x) => *x,
        _ => 0,
    }
}

/// Field `i` of `v`, an `Opt`.
pub fn get_opt(v: &Vec<FieldValue>, i: usize) -> (r: bool)
    requires
        i < v@.len(),
    ensures
        r == fopt(flds_view(v@)[i as int]),
{
    match &v[i] {
        FieldValue::Opt(x) => *x,
        _ => false,
    }
}

/// A copy of field `i` of `v`, a `Bytes`.
pub fn get_bytes(v: &Vec<FieldValue>, i: usize) -> (r: Vec<u8>)
    requires
        i < v@.len(),
    ensures
        r@ == fbytes(flds_view(v@)[i as int]),
{
    match &v[i] {
        FieldValue::Bytes(b) => {
            let r = b.clone();
            assert(r@ =~= b@);
            r
        },
        _ => Vec::new(),
    }
}

/// A run of `n` fields of kind `k`.
pub open spec fn repeat(k: FieldKind, n: nat) -> Seq<FieldKind> {
    Seq::new(n, |i: int| k)
}

/// Appends `n` fields of kind `k` to the layout `v`.
pub fn push_repeat(v: &mut Vec<FieldKind>, k: FieldKind, n: usize)
    ensures
        final(v)@ == old(v)@ + repeat(k, n as nat),
{
    let mut i: usize = 0;
    while i < n
        invariant
            i <= n,
            v@ == old(v)@ + repeat(k, i as nat),
        decreases n - i,
    {
        v.push(k);
        i = i + 1;
        assert(v@ =~= old(v)@ + repeat(k, i as nat));
    }
}

} // verus!
