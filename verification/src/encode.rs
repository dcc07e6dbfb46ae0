//! Encoding of runs of fields, the inverse of the decoding in `layout`:
//! `enc_run` says what bytes a run of fields is written as, `write_fields`
//! writes them, and `lemma_dec_enc_run` proves that decoding the written bytes
//! gives the fields back.
use vstd::prelude::*;
use crate::bytes::{
    enc_u16, enc_u32, enc_u64, is_utf8, lemma_be16, lemma_be32, lemma_be64,
    lemma_be32_shift, push_u16, push_u32, push_u64, push_bytes,
};
use crate::error::WriteError;
use crate::layout::{FieldKind, FieldValue, Fld, dec_field, dec_run, fits, flds_view, fu8, fu16, fu32, fu64, fbytes, fopt};

verus! {

/// The bytes that the field `f` of kind `k` is written as.
pub open spec fn enc_field(k: FieldKind, f: Fld) -> Seq<u8> {
    match k {
        FieldKind::U8 => seq![fu8(f)],
        FieldKind::U16 => enc_u16(fu16(f)),
        FieldKind::U32 => enc_u32(fu32(f)),
        FieldKind::U64 => enc_u64(fu64(f)),
        FieldKind::Str => enc_u32(fbytes(f).len() as u32) + fbytes(f),
        FieldKind::Fixed(_) => fbytes(f),
        FieldKind::OptZero => if fopt(f) {
            enc_u32(0)
        } else {
            Seq::empty()
        },
    }
}

/// The bytes that the fields `fs` of kinds `ks` are written as, one after the other.
pub open spec fn enc_run(ks: Seq<FieldKind>, fs: Seq<Fld>) -> Seq<u8>
    decreases ks.len(),
{
    if ks.len() == 0 || fs.len() == 0 {
        Seq::empty()
    } else {
        enc_run(ks.drop_last(), fs.drop_last()) + enc_field(ks.last(), fs.last())
    }
}

/// Whether every string among the fields fits a `u32be` length.
pub open spec fn enc_ok(ks: Seq<FieldKind>, fs: Seq<Fld>) -> bool {
    forall|i: int| 0 <= i < ks.len() && #[trigger] ks[i] == FieldKind::Str ==> fbytes(fs[i]).len() <= 0xFFFF_FFFF
}

/// Whether the fields decode back from their bytes on their own: every string
/// is UTF-8, and every optional zero is present.
pub open spec fn dec_ok(ks: Seq<FieldKind>, fs: Seq<Fld>) -> bool {
    forall|i: int| 0 <= i < ks.len() ==> match #[trigger] ks[i] {
        FieldKind::Str => is_utf8(fbytes(fs[i])),
        FieldKind::OptZero => fopt(fs[i]),
        _ => true,
    }
}

/// Decoding one field from its bytes gives it back.
pub proof fn lemma_dec_enc_field(k: FieldKind, f: Fld, s: Seq<u8>, q: int)
    requires
        match k {
            FieldKind::U8 => f is U8,
            FieldKind::U16 => f is U16,
            FieldKind::U32 => f is U32,
            FieldKind::U64 => f is U64,
            FieldKind::Str => f is Bytes && fbytes(f).len() <= 0xFFFF_FFFF && is_utf8(fbytes(f)),
            FieldKind::Fixed(n) => f is Bytes && fbytes(f).len() == n,
            FieldKind::OptZero => f is Opt && fopt(f),
        },
        0 <= q,
        q + enc_field(k, f).len() <= s.len(),
        s.subrange(q, q + enc_field(k, f).len()) == enc_field(k, f),
    ensures
        dec_field(k, s, q) == Some((f, q + enc_field(k, f).len())),
{
    let e = enc_field(k, f);
    match k {
        FieldKind::U8 => {
            assert(s[q] == e[0]);
        },
        FieldKind::U16 => {
            lemma_be16(fu16(f));
            assert(s[q] == s.subrange(q, q + 2)[0]);
            assert(s[q + 1] == s.subrange(q, q + 2)[1]);
        },
        FieldKind::U32 => {
            lemma_be32(fu32(f));
            assert(e.subrange(0, 4) =~= e);
            lemma_be32_shift(s, e, q, 0);
        },
        FieldKind::U64 => {
            lemma_be64(fu64(f));
            assert(e.subrange(0, 4) =~= s.subrange(q, q + 4));
            assert(e.subrange(4, 8) =~= s.subrange(q + 4, q + 8));
            lemma_be32_shift(s, e, q, 0);
            lemma_be32_shift(s, e, q + 4, 4);
        },
        FieldKind::Str => {
            let b = fbytes(f);
            let n = b.len();
            lemma_be32(n as u32);
            assert(e.subrange(0, 4) =~= enc_u32(n as u32));
            assert(s.subrange(q, q + 4) =~= s.subrange(q, q + e.len()).subrange(0, 4));
            assert(s.subrange(q, q + 4) =~= e.subrange(0, 4));
            assert(enc_u32(n as u32).subrange(0, 4) =~= enc_u32(n as u32));
            lemma_be32_shift(s, enc_u32(n as u32), q, 0);
            assert(s.subrange(q + 4, q + 4 + n) =~= s.subrange(q, q + e.len()).subrange(4, 4 + n as int));
            assert(s.subrange(q + 4, q + 4 + n) =~= b);
        },
        FieldKind::Fixed(n) => {
        },
        FieldKind::OptZero => {
            lemma_be32(0);
            assert(e.subrange(0, 4) =~= e);
            lemma_be32_shift(s, e, q, 0);
        },
    }
}

/// Decoding a run of fields from their bytes gives them back.
pub proof fn lemma_dec_enc_run(ks: Seq<FieldKind>, fs: Seq<Fld>, s: Seq<u8>, p: int)
    requires
        fits(ks, fs),
        enc_ok(ks, fs),
        dec_ok(ks, fs),
        0 <= p,
        p + enc_run(ks, fs).len() <= s.len(),
        s.subrange(p, p + enc_run(ks, fs).len()) == enc_run(ks, fs),
    ensures
        dec_run(ks, s, p) == Some((fs, p + enc_run(ks, fs).len())),
    decreases ks.len(),
{
    if ks.len() == 0 {
        assert(fs =~= Seq::<Fld>::empty());
    } else {
        let ks0 = ks.drop_last();
        let fs0 = fs.drop_last();
        let e0 = enc_run(ks0, fs0);
        let e1 = enc_field(ks.last(), fs.last());
        assert(enc_run(ks, fs) == e0 + e1);
        assert forall|i: int| 0 <= i < ks0.len() implies match #[trigger] ks0[i] {
            FieldKind::U8 => fs0[i] is U8,
            FieldKind::U16 => fs0[i] is U16,
            FieldKind::U32 => fs0[i] is U32,
            FieldKind::U64 => fs0[i] is U64,
            FieldKind::Str => fs0[i] is Bytes,
            FieldKind::Fixed(n) => fs0[i] is Bytes && fbytes(fs0[i]).len() == n,
            FieldKind::OptZero => fs0[i] is Opt,
        } by {
            assert(ks0[i] == ks[i]);
            assert(fs0[i] == fs[i]);
        }
        assert forall|i: int| 0 <= i < ks0.len() && #[trigger] ks0[i] == FieldKind::Str implies fbytes(fs0[i]).len() <= 0xFFFF_FFFF by {
            assert(ks0[i] == ks[i]);
            assert(fs0[i] == fs[i]);
        }
        assert forall|i: int| 0 <= i < ks0.len() implies match #[trigger] ks0[i] {
            FieldKind::Str => is_utf8(fbytes(fs0[i])),
            FieldKind::OptZero => fopt(fs0[i]),
            _ => true,
        } by {
            assert(ks0[i] == ks[i]);
            assert(fs0[i] == fs[i]);
        }
        assert(s.subrange(p, p + e0.len()) =~= e0) by {
            assert(s.subrange(p, p + e0.len()) =~= s.subrange(p, p + enc_run(ks, fs).len()).subrange(0, e0.len() as int));
            assert((e0 + e1).subrange(0, e0.len() as int) =~= e0);
        }
        lemma_dec_enc_run(ks0, fs0, s, p);
        let q = p + e0.len();
        let last = ks.len() - 1;
        assert(ks.last() == ks[last]);
        assert(fs.last() == fs[last]);
        assert(s.subrange(q, q + e1.len()) =~= e1) by {
            assert(s.subrange(q, q + e1.len()) =~= s.subrange(p, p + enc_run(ks, fs).len()).subrange(e0.len() as int, (e0.len() + e1.len()) as int));
            assert((e0 + e1).subrange(e0.len() as int, (e0.len() + e1.len()) as int) =~= e1);
        }
        lemma_dec_enc_field(ks.last(), fs.last(), s, q);
        assert(fs0.push(fs.last()) =~= fs);
    }
}

/// Whether the fields `fs` have the kinds `ks`, can be written, and decode back on their own.
pub open spec fn good(ks: Seq<FieldKind>, fs: Seq<Fld>) -> bool {
    &&& fits(ks, fs)
    &&& enc_ok(ks, fs)
    &&& dec_ok(ks, fs)
}

/// Two runs of good fields, one after the other, are good.
pub proof fn lemma_good_append(ka: Seq<FieldKind>, fa: Seq<Fld>, kb: Seq<FieldKind>, fb: Seq<Fld>)
    requires
        good(ka, fa),
        good(kb, fb),
    ensures
        good(ka + kb, fa + fb),
{
    let ks = ka + kb;
    let fs = fa + fb;
    assert forall|i: int| 0 <= i < ks.len() implies match #[trigger] ks[i] {
        FieldKind::U8 => fs[i] is U8,
        FieldKind::U16 => fs[i] is U16,
        FieldKind::U32 => fs[i] is U32,
        FieldKind::U64 => fs[i] is U64,
        FieldKind::Str => fs[i] is Bytes,
        FieldKind::Fixed(n) => fs[i] is Bytes && fbytes(fs[i]).len() == n,
        FieldKind::OptZero => fs[i] is Opt,
    } by {
        if i < ka.len() {
            assert(ks[i] == ka[i] && fs[i] == fa[i]);
        } else {
            assert(ks[i] == kb[i - ka.len()] && fs[i] == fb[i - ka.len()]);
        }
    }
    assert forall|i: int| 0 <= i < ks.len() && #[trigger] ks[i] == FieldKind::Str implies fbytes(fs[i]).len() <= 0xFFFF_FFFF by {
        if i < ka.len() {
            assert(ks[i] == ka[i] && fs[i] == fa[i]);
        } else {
            assert(ks[i] == kb[i - ka.len()] && fs[i] == fb[i - ka.len()]);
        }
    }
    assert forall|i: int| 0 <= i < ks.len() implies match #[trigger] ks[i] {
        FieldKind::Str => is_utf8(fbytes(fs[i])),
        FieldKind::OptZero => fopt(fs[i]),
        _ => true,
    } by {
        if i < ka.len() {
            assert(ks[i] == ka[i] && fs[i] == fa[i]);
        } else {
            assert(ks[i] == kb[i - ka.len()] && fs[i] == fb[i - ka.len()]);
        }
    }
}

/// Two runs of fields, one after the other, can be written exactly when each can.
pub proof fn lemma_enc_ok_append(ka: Seq<FieldKind>, fa: Seq<Fld>, kb: Seq<FieldKind>, fb: Seq<Fld>)
    requires
        ka.len() == fa.len(),
        kb.len() == fb.len(),
    ensures
        enc_ok(ka + kb, fa + fb) <==> enc_ok(ka, fa) && enc_ok(kb, fb),
{
    let ks = ka + kb;
    let fs = fa + fb;
    if enc_ok(ks, fs) {
        assert forall|i: int| 0 <= i < ka.len() && #[trigger] ka[i] == FieldKind::Str implies fbytes(fa[i]).len() <= 0xFFFF_FFFF by {
            assert(ks[i] == ka[i] && fs[i] == fa[i]);
        }
        assert forall|i: int| 0 <= i < kb.len() && #[trigger] kb[i] == FieldKind::Str implies fbytes(fb[i]).len() <= 0xFFFF_FFFF by {
            assert(ks[i + ka.len()] == kb[i] && fs[i + ka.len()] == fb[i]);
        }
    }
    if enc_ok(ka, fa) && enc_ok(kb, fb) {
        assert forall|i: int| 0 <= i < ks.len() && #[trigger] ks[i] == FieldKind::Str implies fbytes(fs[i]).len() <= 0xFFFF_FFFF by {
            if i < ka.len() {
                assert(ks[i] == ka[i] && fs[i] == fa[i]);
            } else {
                assert(ks[i] == kb[i - ka.len()] && fs[i] == fb[i - ka.len()]);
            }
        }
    }
}

/// The bytes of two runs of fields, one after the other, are the bytes of each, one after the other.
pub proof fn lemma_enc_run_append(ka: Seq<FieldKind>, fa: Seq<Fld>, kb: Seq<FieldKind>, fb: Seq<Fld>)
    requires
        ka.len() == fa.len(),
        kb.len() == fb.len(),
    ensures
        enc_run(ka + kb, fa + fb) == enc_run(ka, fa) + enc_run(kb, fb),
    decreases kb.len(),
{
    if kb.len() == 0 {
        assert(ka + kb =~= ka);
        assert(fa + fb =~= fa);
        assert(enc_run(ka, fa) + enc_run(kb, fb) =~= enc_run(ka, fa));
    } else {
        lemma_enc_run_append(ka, fa, kb.drop_last(), fb.drop_last());
        assert((ka + kb).drop_last() =~= ka + kb.drop_last());
        assert((fa + fb).drop_last() =~= fa + fb.drop_last());
        assert((ka + kb).last() == kb.last());
        assert((fa + fb).last() == fb.last());
        assert(enc_run(ka, fa) + enc_run(kb, fb) =~= enc_run(ka, fa) + enc_run(kb.drop_last(), fb.drop_last())
            + enc_field(kb.last(), fb.last()));
    }
}

/// Decoding two layouts one after the other is decoding the first, then the second where the first ends.
pub proof fn lemma_dec_run_append(ka: Seq<FieldKind>, kb: Seq<FieldKind>, s: Seq<u8>, p: int)
    ensures
        dec_run(ka + kb, s, p) == match dec_run(ka, s, p) {
            Some((fa, q)) => match dec_run(kb, s, q) {
                Some((fb, q2)) => Some((fa + fb, q2)),
                None => None,
            },
            None => None,
        },
    decreases kb.len(),
{
    if kb.len() == 0 {
        assert(ka + kb =~= ka);
        if let Some((fa, q)) = dec_run(ka, s, p) {
            crate::layout::lemma_dec_run_fits(ka, s, p);
            assert(fa + Seq::<Fld>::empty() =~= fa);
        }
    } else {
        lemma_dec_run_append(ka, kb.drop_last(), s, p);
        assert((ka + kb).drop_last() =~= ka + kb.drop_last());
        assert((ka + kb).last() == kb.last());
        if let Some((fa, q)) = dec_run(ka, s, p) {
            if let Some((fb0, q1)) = dec_run(kb.drop_last(), s, q) {
                if let Some((f, q2)) = crate::layout::dec_field(kb.last(), s, q1) {
                    assert((fa + fb0).push(f) =~= fa + fb0.push(f));
                }
            }
        }
    }
}

/// Appends the bytes of the field `f` of kind `k`.
pub fn write_field(out: &mut Vec<u8>, k: FieldKind, f: &FieldValue)
    requires
        k == FieldKind::Str ==> fbytes(f@).len() <= 0xFFFF_FFFF,
    ensures
        final(out)@ == old(out)@ + enc_field(k, f@),
{
    let ghost start = old(out)@;
    match k {
        FieldKind::U8 => {
            let x: u8 = match f {
                FieldValue::U8(x) => *x,
                _ => 0,
            };
            out.push(x);
        },
        FieldKind::U16 => {
            let x: u16 = match f {
                FieldValue::U16(x) => *x,
                _ => 0,
            };
            push_u16(out, x);
        },
        FieldKind::U32 => {
            let x: u32 = match f {
                FieldValue::U32(x) => *x,
                _ => 0,
            };
            push_u32(out, x);
        },
        FieldKind::U64 => {
            let x: u64 = match f {
                FieldValue::U64(x) => *x,
                _ => 0,
            };
            push_u64(out, x);
        },
        FieldKind::Str => match f {
            FieldValue::Bytes(b) => {
                push_u32(out, b.len() as u32);
                push_bytes(out, b.as_slice());
            },
            _ => {
                push_u32(out, 0);
            },
        },
        FieldKind::Fixed(_) => match f {
            FieldValue::Bytes(b) => push_bytes(out, b.as_slice()),
            _ => {},
        },
        FieldKind::OptZero => match f {
            FieldValue::Opt(true) => push_u32(out, 0),
            _ => {},
        },
    }
    assert(out@ =~= start + enc_field(k, f@));
}

/// Whether field `i` is a string too long for its `u32be` length.
pub open spec fn too_long(ks: Seq<FieldKind>, fs: Seq<Fld>, i: int) -> bool {
    ks[i] == FieldKind::Str && fbytes(fs[i]).len() > 0xFFFF_FFFF
}

/// Whether field `i` is the first string too long for its `u32be` length.
pub open spec fn first_too_long(ks: Seq<FieldKind>, fs: Seq<Fld>, i: int) -> bool {
    &&& 0 <= i < ks.len()
    &&& too_long(ks, fs, i)
    &&& forall|j: int| 0 <= j < i ==> !#[trigger] too_long(ks, fs, j)
}

/// The bytes written of the fields `fs` of kinds `ks` when the writer stops at
/// the first string too long for its `u32be` length: the fields before it.
pub open spec fn run_before_too_long(ks: Seq<FieldKind>, fs: Seq<Fld>) -> Seq<u8> {
    let i = choose|i: int| first_too_long(ks, fs, i);
    enc_run(ks.take(i), fs.take(i))
}

/// At most one field is the first string too long for its length.
pub proof fn lemma_first_too_long_unique(ks: Seq<FieldKind>, fs: Seq<Fld>, i: int, j: int)
    requires
        first_too_long(ks, fs, i),
        first_too_long(ks, fs, j),
    ensures
        i == j,
{
    if i < j {
        assert(!too_long(ks, fs, i));
    } else if j < i {
        assert(!too_long(ks, fs, j));
    }
}

/// Appends the bytes of the fields `fs` of kinds `ks`. Where a string is too
/// long for its `u32be` length, it stops there with an error, having written
/// the fields before that string.
pub fn write_fields(out: &mut Vec<u8>, ks: &Vec<FieldKind>, fs: &Vec<FieldValue>) -> (r: Result<(), WriteError>)
    requires
        ks@.len() == fs@.len(),
    ensures
        r is Ok <==> enc_ok(ks@, flds_view(fs@)),
        r is Ok ==> final(out)@ == old(out)@ + enc_run(ks@, flds_view(fs@)),
        r is Err ==> final(out)@ == old(out)@ + run_before_too_long(ks@, flds_view(fs@)),
{
    let ghost fv = flds_view(fs@);
    let ghost start = out@;
    let mut i: usize = 0;
    while i < ks.len()
        invariant
            i <= ks@.len(),
            ks@.len() == fs@.len(),
            fv == flds_view(fs@),
            start == old(out)@,
            forall|j: int| 0 <= j < i ==> !#[trigger] too_long(ks@, fv, j),
            out@ == start + enc_run(ks@.take(i as int), fv.take(i as int)),
        decreases ks@.len() - i,
    {
        if ks[i] == FieldKind::Str {
            let long = match &fs[i] {
                FieldValue::Bytes(b) => b.len() > 0xFFFF_FFFF,
                _ => false,
            };
            if long {
                assert(too_long(ks@, fv, i as int));
                assert(first_too_long(ks@, fv, i as int));
                proof {
                    let c = choose|c: int| first_too_long(ks@, fv, c);
                    lemma_first_too_long_unique(ks@, fv, i as int, c);
                    assert(run_before_too_long(ks@, fv) == enc_run(ks@.take(i as int), fv.take(i as int)));
                }
                assert(!enc_ok(ks@, fv));
                return Err(WriteError);
            }
        }
        assert(!too_long(ks@, fv, i as int));
        write_field(out, ks[i], &fs[i]);
        assert(ks@.take(i + 1).drop_last() =~= ks@.take(i as int));
        assert(fv.take(i + 1).drop_last() =~= fv.take(i as int));
        assert(ks@.take(i + 1).last() == ks@[i as int]);
        assert(fv.take(i + 1).last() == fv[i as int]);
        i = i + 1;
        assert(out@ =~= start + enc_run(ks@.take(i as int), fv.take(i as int)));
    }
    assert(ks@.take(ks@.len() as int) =~= ks@);
    assert(fv.take(ks@.len() as int) =~= fv);
    assert(enc_ok(ks@, fv)) by {
        assert forall|i: int| 0 <= i < ks@.len() && #[trigger] ks@[i] == FieldKind::Str implies fbytes(fv[i]).len() <= 0xFFFF_FFFF by {
            assert(!too_long(ks@, fv, i));
        }
    }
    Ok(())
}

} // verus!
