//! Writing of actor files: the actor header, the components that hold no
//! data, the material graphic components and the video player component.
use vstd::prelude::*;
use crate::bytes::{be32_at, enc_u32, enc_u64, is_utf8, push_u32, push_bytes, lemma_be32, lemma_be32_shift};
use crate::encode::{
    run_before_too_long,
    good, enc_run, enc_field, enc_ok, write_fields, lemma_good_append, lemma_enc_ok_append, lemma_enc_run_append,
    lemma_dec_enc_run, lemma_dec_run_append,
};
use crate::error::WriteError;
use crate::layout::{FieldKind, FieldValue, Fld, dec_run, fits, flds_view, fbytes, repeat, push_repeat};
use crate::utils::{Game, SplitPath, UniqueGameId};
use super::components::{
    pleo_kinds, pleo_at, pleo_matches, repeat_split_paths, lemma_repeat_split_paths_len, mgc_head_kinds,
    mgc_tail_kinds, mgc_kinds, mgc_at, mgc_ok, mgc_matches, mgc_tail, mgc_unk15_ok, mgc_short_middle,
};
use super::parser::{
    split_path_kinds, split_path_matches, push_split_path, component_end, component_matches, components_at,
    component_list_at, actor_at, actor_matches, actor_head_kinds, actor_head_at, actor_gap, actor_mid_kinds,
    actor_mid_ok, actor_lua_at, actor_end_ok, actor_new_header,
};
use super::types::{component_id, Actor, Component, MaterialGraphicComponent, PleoComponent};

verus! {

/// The fields a split path is written as: the directory, the file name, the
/// string id, and a zero flag word.
pub open spec fn split_path_fields(sp: SplitPath) -> Seq<Fld> {
    seq![Fld::Bytes(sp.path@), Fld::Bytes(sp.filename@), Fld::U32(sp.id), Fld::U32(0)]
}

/// Whether both strings of `sp` are UTF-8 and fit a `u32be` length.
pub open spec fn split_path_valid(sp: SplitPath) -> bool {
    &&& sp.path@.len() <= 0xFFFF_FFFF
    &&& sp.filename@.len() <= 0xFFFF_FFFF
    &&& is_utf8(sp.path@)
    &&& is_utf8(sp.filename@)
}

/// Whether `a` and `b` are the same split path.
pub open spec fn split_path_same(a: SplitPath, b: SplitPath) -> bool {
    a.path@ == b.path@ && a.filename@ == b.filename@ && a.id == b.id
}

/// The fields of a valid split path are good, and a split path that matches them is the same.
pub proof fn lemma_split_path_fields(sp: SplitPath)
    requires
        split_path_valid(sp),
    ensures
        good(split_path_kinds(), split_path_fields(sp)),
        forall|x: SplitPath| split_path_matches(x, split_path_fields(sp), 0) ==> split_path_same(x, sp),
{
    let ks = split_path_kinds();
    let fs = split_path_fields(sp);
    assert(fits(ks, fs)) by {
        assert forall|i: int| 0 <= i < ks.len() implies match #[trigger] ks[i] {
            FieldKind::U8 => fs[i] is U8,
            FieldKind::U16 => fs[i] is U16,
            FieldKind::U32 => fs[i] is U32,
            FieldKind::U64 => fs[i] is U64,
            FieldKind::Str => fs[i] is Bytes,
            FieldKind::Fixed(n) => fs[i] is Bytes && fbytes(fs[i]).len() == n,
            FieldKind::OptZero => fs[i] is Opt,
        } by {
            assert(i == 0 || i == 1 || i == 2 || i == 3);
        }
    }
    assert forall|i: int| 0 <= i < ks.len() && #[trigger] ks[i] == FieldKind::Str implies fbytes(fs[i]).len() <= 0xFFFF_FFFF by {
        assert(i == 0 || i == 1 || i == 2 || i == 3);
    }
    assert forall|i: int| 0 <= i < ks.len() implies match #[trigger] ks[i] {
        FieldKind::Str => is_utf8(fbytes(fs[i])),
        FieldKind::OptZero => crate::layout::fopt(fs[i]),
        _ => true,
    } by {
        assert(i == 0 || i == 1 || i == 2 || i == 3);
    }
}

/// Appends to `v` the fields that `sp` is written as.
fn push_split_path_fields(v: &mut Vec<FieldValue>, sp: &SplitPath)
    ensures
        flds_view(final(v)@) == flds_view(old(v)@) + split_path_fields(*sp),
{
    let path = sp.path.clone();
    let filename = sp.filename.clone();
    assert(path@ =~= sp.path@);
    assert(filename@ =~= sp.filename@);
    v.push(FieldValue::Bytes(path));
    v.push(FieldValue::Bytes(filename));
    v.push(FieldValue::U32(sp.id));
    v.push(FieldValue::U32(0));
    assert(flds_view(v@) =~= flds_view(old(v)@) + split_path_fields(*sp));
}

// ---------------------------------------------------------------- PleoComponent

/// The fields a video player component is written as.
pub open spec fn pleo_fields(pc: PleoComponent) -> Seq<Fld> {
    split_path_fields(pc.video) + split_path_fields(pc.dash_mpd) + seq![Fld::Bytes(pc.channel_id@)]
}

/// The bytes a video player component is written as.
pub open spec fn pleo_bytes(pc: PleoComponent) -> Seq<u8> {
    enc_run(pleo_kinds(), pleo_fields(pc))
}

/// Whether every string of the component fits a `u32be` length, so that it can be written.
pub open spec fn pleo_writable(pc: PleoComponent) -> bool {
    &&& pc.video.path@.len() <= 0xFFFF_FFFF
    &&& pc.video.filename@.len() <= 0xFFFF_FFFF
    &&& pc.dash_mpd.path@.len() <= 0xFFFF_FFFF
    &&& pc.dash_mpd.filename@.len() <= 0xFFFF_FFFF
    &&& pc.channel_id@.len() <= 0xFFFF_FFFF
}

/// Whether every string of the component is UTF-8 and fits a `u32be` length.
pub open spec fn pleo_valid(pc: PleoComponent) -> bool {
    &&& split_path_valid(pc.video)
    &&& split_path_valid(pc.dash_mpd)
    &&& pc.channel_id@.len() <= 0xFFFF_FFFF
    &&& is_utf8(pc.channel_id@)
}

/// Whether `a` and `b` are the same video player component.
pub open spec fn pleo_same(a: PleoComponent, b: PleoComponent) -> bool {
    &&& split_path_same(a.video, b.video)
    &&& split_path_same(a.dash_mpd, b.dash_mpd)
    &&& a.channel_id@ == b.channel_id@
}

impl PleoComponent {
    /// Writes the component (the part after its type) at the end of `out`.
    /// Where a string is too long for its `u32be` length, it stops there with
    /// an error, having written the fields before that string.
    pub fn serialize_at_with_ctx(&self, out: &mut Vec<u8>) -> (r: Result<(), WriteError>)
        ensures
            r is Ok <==> pleo_writable(*self),
            r is Ok ==> final(out)@ == old(out)@ + pleo_bytes(*self),
            r is Err ==> final(out)@ == old(out)@ + run_before_too_long(pleo_kinds(), pleo_fields(*self)),
    {
        let mut ks: Vec<FieldKind> = Vec::new();
        push_split_path(&mut ks);
        push_split_path(&mut ks);
        ks.push(FieldKind::Str);
        assert(ks@ =~= pleo_kinds());
        let mut fs: Vec<FieldValue> = Vec::new();
        push_split_path_fields(&mut fs, &self.video);
        push_split_path_fields(&mut fs, &self.dash_mpd);
        let channel = self.channel_id.clone();
        assert(channel@ =~= self.channel_id@);
        let ghost before = flds_view(fs@);
        fs.push(FieldValue::Bytes(channel));
        assert(flds_view(fs@) =~= before.push(Fld::Bytes(self.channel_id@)));
        assert(flds_view(fs@) =~= pleo_fields(*self));
        proof {
            let ks = pleo_kinds();
            let fs = pleo_fields(*self);
            assert(enc_ok(ks, fs) <==> pleo_writable(*self)) by {
                if pleo_writable(*self) {
                    assert forall|i: int| 0 <= i < ks.len() && #[trigger] ks[i] == FieldKind::Str implies fbytes(fs[i]).len() <= 0xFFFF_FFFF by {
                        assert(0 <= i < 9);
                        assert(i == 0 || i == 1 || i == 2 || i == 3 || i == 4 || i == 5 || i == 6 || i == 7 || i == 8);
                    }
                } else {
                    assert(ks[0] == FieldKind::Str && ks[1] == FieldKind::Str && ks[4] == FieldKind::Str
                        && ks[5] == FieldKind::Str && ks[8] == FieldKind::Str);
                }
            }
        }
        write_fields(out, &ks, &fs)
    }
}

/// Reading back what `serialize_at_with_ctx` writes for a video player component
/// whose strings are UTF-8 gives the same component, and ends where the bytes end.
pub proof fn lemma_pleo_roundtrip(pc: PleoComponent, s: Seq<u8>, p: int)
    requires
        pleo_valid(pc),
        0 <= p,
        p + pleo_bytes(pc).len() <= s.len(),
        s.subrange(p, p + pleo_bytes(pc).len()) == pleo_bytes(pc),
    ensures
        pleo_at(s, p) == Some((pleo_fields(pc), p + pleo_bytes(pc).len())),
        forall|x: PleoComponent| pleo_matches(x, pleo_fields(pc)) ==> pleo_same(x, pc),
{
    lemma_split_path_fields(pc.video);
    lemma_split_path_fields(pc.dash_mpd);
    let ka = split_path_kinds();
    let last_k = seq![FieldKind::Str];
    let last_f = seq![Fld::Bytes(pc.channel_id@)];
    assert(good(last_k, last_f)) by {
        assert forall|i: int| 0 <= i < last_k.len() && #[trigger] last_k[i] == FieldKind::Str implies fbytes(last_f[i]).len() <= 0xFFFF_FFFF by {
            assert(i == 0);
        }
    }
    lemma_good_append(ka, split_path_fields(pc.video), ka, split_path_fields(pc.dash_mpd));
    lemma_good_append(ka + ka, split_path_fields(pc.video) + split_path_fields(pc.dash_mpd), last_k, last_f);
    lemma_dec_enc_run(pleo_kinds(), pleo_fields(pc), s, p);
    let fs = pleo_fields(pc);
    assert forall|x: PleoComponent| pleo_matches(x, fs) implies pleo_same(x, pc) by {
        assert(fs.subrange(0, 4) =~= split_path_fields(pc.video));
        assert(fs[0] == split_path_fields(pc.video)[0] && fs[1] == split_path_fields(pc.video)[1] && fs[2] == split_path_fields(pc.video)[2]);
        assert(fs[4] == split_path_fields(pc.dash_mpd)[0] && fs[5] == split_path_fields(pc.dash_mpd)[1] && fs[6] == split_path_fields(pc.dash_mpd)[2]);
    }
}

// ---------------------------------------------------------------- split paths, several

/// The fields that the first `n` split paths of `files` are written as, one after the other.
pub open spec fn split_paths_fields(files: Seq<SplitPath>, n: nat) -> Seq<Fld>
    decreases n,
{
    if n == 0 {
        Seq::empty()
    } else {
        split_paths_fields(files, (n - 1) as nat) + split_path_fields(files[n - 1])
    }
}

/// Where the fields of each split path stand among the fields of several.
pub proof fn lemma_split_paths_fields_index(files: Seq<SplitPath>, n: nat)
    requires
        n <= files.len(),
    ensures
        split_paths_fields(files, n).len() == 4 * n,
        forall|k: int, j: int| 0 <= k < n && 0 <= j < 4 ==> split_paths_fields(files, n)[4 * k + j]
            == #[trigger] split_path_fields(files[k])[j],
    decreases n,
{
    if n > 0 {
        lemma_split_paths_fields_index(files, (n - 1) as nat);
        let prev = split_paths_fields(files, (n - 1) as nat);
        let last = split_path_fields(files[n - 1]);
        assert forall|k: int, j: int| 0 <= k < n && 0 <= j < 4 implies split_paths_fields(files, n)[4 * k + j]
            == #[trigger] split_path_fields(files[k])[j] by {
            if k < n - 1 {
                assert(split_paths_fields(files, n)[4 * k + j] == prev[4 * k + j]);
            } else {
                assert(split_paths_fields(files, n)[4 * k + j] == last[j]);
            }
        }
    }
}

/// Several split paths can be written exactly when each can; valid ones are good.
pub proof fn lemma_split_paths_fields_good(files: Seq<SplitPath>, n: nat)
    requires
        n <= files.len(),
    ensures
        enc_ok(repeat_split_paths(n), split_paths_fields(files, n)) <==> forall|k: int| 0 <= k < n ==>
            (#[trigger] files[k]).path@.len() <= 0xFFFF_FFFF && files[k].filename@.len() <= 0xFFFF_FFFF,
        (forall|k: int| 0 <= k < n ==> split_path_valid(#[trigger] files[k])) ==> good(repeat_split_paths(n), split_paths_fields(files, n)),
    decreases n,
{
    if n == 0 {
        assert(good(repeat_split_paths(0), split_paths_fields(files, 0)));
    } else {
        let m = (n - 1) as nat;
        lemma_split_paths_fields_good(files, m);
        lemma_split_paths_fields_index(files, m);
        let ka = repeat_split_paths(m);
        let fa = split_paths_fields(files, m);
        let kb = split_path_kinds();
        let fb = split_path_fields(files[n - 1]);
        lemma_repeat_split_paths_len(m);
        lemma_enc_ok_append(ka, fa, kb, fb);
        assert(enc_ok(kb, fb) <==> files[n - 1].path@.len() <= 0xFFFF_FFFF && files[n - 1].filename@.len() <= 0xFFFF_FFFF) by {
            if files[n - 1].path@.len() <= 0xFFFF_FFFF && files[n - 1].filename@.len() <= 0xFFFF_FFFF {
                assert forall|i: int| 0 <= i < kb.len() && #[trigger] kb[i] == FieldKind::Str implies fbytes(fb[i]).len() <= 0xFFFF_FFFF by {
                    assert(i == 0 || i == 1 || i == 2 || i == 3);
                }
            } else {
                assert(kb[0] == FieldKind::Str && kb[1] == FieldKind::Str);
            }
        }
        if forall|k: int| 0 <= k < n ==> split_path_valid(#[trigger] files[k]) {
            assert(split_path_valid(files[n - 1]));
            lemma_split_path_fields(files[n - 1]);
            lemma_good_append(ka, fa, kb, fb);
        }
    }
}

// ---------------------------------------------------------------- MaterialGraphicComponent

/// The `u64be` that `unk11` and `unk12` are written as together.
pub open spec fn mgc_pair(m: MaterialGraphicComponent) -> u64 {
    (m.unk11 as int * 0x1_0000_0000 + m.unk12 as int) as u64
}

/// The two words the writer puts after `unk4`: all ones for the video texture, zero otherwise.
pub open spec fn mgc_w12(is_pleo: bool) -> u64 {
    if is_pleo { 0xFFFF_FFFF } else { 0 }
}

/// The first fields of a material graphic component as written: nine values,
/// then its eleven paths with a zero word after the ninth.
pub open spec fn mgc_first_fields(m: MaterialGraphicComponent, is_pleo: bool) -> Seq<Fld> {
    seq![
        Fld::U32(0x3F80_0000),
        Fld::U32(0x3F80_0000),
        Fld::U32(0x3F80_0000),
        Fld::U32(m.unk4),
        Fld::U64(mgc_w12(is_pleo)),
        Fld::U64(mgc_w12(is_pleo)),
        Fld::U32(m.unk9),
        Fld::U64(m.anchor as u32 as u64),
        Fld::U64(mgc_pair(m)),
    ]
}

/// The kinds of the nine first values.
pub open spec fn mgc_first_kinds() -> Seq<FieldKind> {
    repeat(FieldKind::U32, 4) + seq![FieldKind::U64, FieldKind::U64, FieldKind::U32, FieldKind::U64, FieldKind::U64]
}

/// The 54 first fields of a material graphic component as written.
pub open spec fn mgc_head_fields(m: MaterialGraphicComponent, is_pleo: bool) -> Seq<Fld> {
    mgc_first_fields(m, is_pleo) + split_paths_fields(m.files@, 9) + seq![Fld::U32(0)]
        + split_path_fields(m.files@[9]) + split_path_fields(m.files@[10])
}

/// The kinds of the middle fields as written (the form of Just Dance 2020 and later).
pub open spec fn mgc_mid_write_kinds() -> Seq<FieldKind> {
    seq![FieldKind::U64, FieldKind::U64, FieldKind::U64, FieldKind::U64, FieldKind::U32, FieldKind::U32]
}

/// The middle fields as written.
pub open spec fn mgc_mid_fields() -> Seq<Fld> {
    seq![Fld::U64(0), Fld::U64(0), Fld::U64(0), Fld::U64(0), Fld::U32(0), Fld::U32(0x3F80_0000)]
}

/// The last fields as written.
pub open spec fn mgc_tail_fields(m: MaterialGraphicComponent, is_pleo: bool) -> Seq<Fld> {
    seq![
        Fld::U64(0xFFFF_FFFF_FFFF_FFFF),
        Fld::U32(0),
        Fld::U32(0),
        Fld::U32(0),
        Fld::U32(0x3F80_0000),
        Fld::U64(0),
        Fld::U32(m.old_anchor as u32),
    ] + if is_pleo { seq![Fld::U32(0)] } else { Seq::empty() }
}

/// The kinds of the fields as written.
pub open spec fn mgc_write_kinds(is_pleo: bool) -> Seq<FieldKind> {
    mgc_head_kinds() + mgc_mid_write_kinds() + mgc_tail_kinds(is_pleo)
}

/// The fields a material graphic component is written as.
pub open spec fn mgc_write_fields(m: MaterialGraphicComponent, is_pleo: bool) -> Seq<Fld> {
    mgc_head_fields(m, is_pleo) + mgc_mid_fields() + mgc_tail_fields(m, is_pleo)
}

/// The bytes a material graphic component is written as (the part after its type).
pub open spec fn mgc_bytes(m: MaterialGraphicComponent, is_pleo: bool) -> Seq<u8> {
    enc_run(mgc_write_kinds(is_pleo), mgc_write_fields(m, is_pleo))
}

/// The two written forms of a material graphic component differ only where
/// the video texture writes its two `u64be` words as `0xFFFF_FFFF` (the plain
/// form writes zeros) and in one more zero word at its end.
pub proof fn lemma_mgc_write_forms(m: MaterialGraphicComponent)
    ensures
        mgc_bytes(m, false).len() >= 32,
        mgc_bytes(m, false).subrange(16, 32) == enc_u64(0) + enc_u64(0),
        mgc_bytes(m, true) == mgc_bytes(m, false).subrange(0, 16) + enc_u64(0xFFFF_FFFF) + enc_u64(0xFFFF_FFFF)
            + mgc_bytes(m, false).subrange(32, mgc_bytes(m, false).len() as int) + enc_u32(0),
{
    let kf = mgc_write_kinds(false);
    let ff = mgc_write_fields(m, false);
    let kt = mgc_write_kinds(true);
    let ft = mgc_write_fields(m, true);
    lemma_split_paths_fields_index(m.files@, 9);
    lemma_repeat_split_paths_len(9);
    assert(kf.len() == ff.len());
    let ka = kf.subrange(0, 4);
    let kb = kf.subrange(4, 6);
    let kc = kf.subrange(6, kf.len() as int);
    let fa = ff.subrange(0, 4);
    let fbf = ff.subrange(4, 6);
    let fc = ff.subrange(6, ff.len() as int);
    let fbt = seq![Fld::U64(0xFFFF_FFFF), Fld::U64(0xFFFF_FFFF)];
    let k1 = seq![FieldKind::U32];
    let f1 = seq![Fld::U32(0)];
    assert(kf =~= ka + kb + kc);
    assert(ff =~= fa + fbf + fc);
    assert(kt =~= ka + kb + kc + k1);
    assert(ft =~= fa + fbt + fc + f1);
    assert(fbf =~= seq![Fld::U64(0), Fld::U64(0)]);
    lemma_enc_run_append(ka, fa, kb, fbf);
    lemma_enc_run_append(ka + kb, fa + fbf, kc, fc);
    lemma_enc_run_append(ka, fa, kb, fbt);
    lemma_enc_run_append(ka + kb, fa + fbt, kc, fc);
    lemma_enc_run_append(ka + kb + kc, fa + fbt + fc, k1, f1);
    assert(enc_run(ka, fa).len() == 16) by {
        reveal_with_fuel(enc_run, 5);
    }
    assert(enc_run(kb, fbf) =~= enc_u64(0) + enc_u64(0)) by {
        reveal_with_fuel(enc_run, 3);
    }
    assert(enc_run(kb, fbt) =~= enc_u64(0xFFFF_FFFF) + enc_u64(0xFFFF_FFFF)) by {
        reveal_with_fuel(enc_run, 3);
    }
    assert(enc_run(k1, f1) =~= enc_u32(0)) by {
        reveal_with_fuel(enc_run, 2);
    }
    let ea = enc_run(ka, fa);
    let ec = enc_run(kc, fc);
    let bf = mgc_bytes(m, false);
    assert(bf =~= ea + (enc_u64(0) + enc_u64(0)) + ec);
    assert(bf.subrange(0, 16) =~= ea);
    assert(bf.subrange(16, 32) =~= enc_u64(0) + enc_u64(0));
    assert(bf.subrange(32, bf.len() as int) =~= ec);
    assert(mgc_bytes(m, true) =~= ea + (enc_u64(0xFFFF_FFFF) + enc_u64(0xFFFF_FFFF)) + ec + enc_u32(0));
}

/// Whether every path of the component fits `u32be` lengths, so that it can be written.
pub open spec fn mgc_writable(m: MaterialGraphicComponent) -> bool {
    forall|k: int| 0 <= k < 11 ==> (#[trigger] m.files@[k]).path@.len() <= 0xFFFF_FFFF
        && m.files@[k].filename@.len() <= 0xFFFF_FFFF
}

fn push_mgc_kinds(ks: &mut Vec<FieldKind>, is_pleo: bool)
    ensures
        final(ks)@ == old(ks)@ + mgc_write_kinds(is_pleo),
{
    let ghost start = ks@;
    push_repeat(ks, FieldKind::U32, 4);
    ks.push(FieldKind::U64);
    ks.push(FieldKind::U64);
    ks.push(FieldKind::U32);
    ks.push(FieldKind::U64);
    ks.push(FieldKind::U64);
    let mut i: usize = 0;
    let ghost v0 = ks@;
    while i < 9
        invariant
            i <= 9,
            ks@ == v0 + repeat_split_paths(i as nat),
        decreases 9 - i,
    {
        push_split_path(ks);
        i = i + 1;
    }
    ks.push(FieldKind::U32);
    push_split_path(ks);
    push_split_path(ks);
    assert(ks@ =~= start + mgc_head_kinds());
    ks.push(FieldKind::U64);
    ks.push(FieldKind::U64);
    ks.push(FieldKind::U64);
    ks.push(FieldKind::U64);
    ks.push(FieldKind::U32);
    ks.push(FieldKind::U32);
    ks.push(FieldKind::U64);
    push_repeat(ks, FieldKind::U32, 4);
    ks.push(FieldKind::U64);
    ks.push(FieldKind::U32);
    if is_pleo {
        ks.push(FieldKind::U32);
    }
    assert(ks@ =~= start + mgc_write_kinds(is_pleo));
}

fn mgc_fields_exec(m: &MaterialGraphicComponent, is_pleo: bool) -> (r: Vec<FieldValue>)
    ensures
        flds_view(r@) == mgc_write_fields(*m, is_pleo),
{
    let mut fs: Vec<FieldValue> = Vec::new();
    let w: u64 = if is_pleo { 0xFFFF_FFFF } else { 0 };
    let pair: u64 = (m.unk11 as u64) * 0x1_0000_0000 + m.unk12 as u64;
    fs.push(FieldValue::U32(0x3F80_0000));
    fs.push(FieldValue::U32(0x3F80_0000));
    fs.push(FieldValue::U32(0x3F80_0000));
    fs.push(FieldValue::U32(m.unk4));
    fs.push(FieldValue::U64(w));
    fs.push(FieldValue::U64(w));
    fs.push(FieldValue::U32(m.unk9));
    fs.push(FieldValue::U64(m.anchor as u32 as u64));
    fs.push(FieldValue::U64(pair));
    assert(flds_view(fs@) =~= mgc_first_fields(*m, is_pleo));
    let mut i: usize = 0;
    while i < 9
        invariant
            i <= 9,
            flds_view(fs@) == mgc_first_fields(*m, is_pleo) + split_paths_fields(m.files@, i as nat),
        decreases 9 - i,
    {
        push_split_path_fields(&mut fs, &m.files[i]);
        i = i + 1;
        assert(flds_view(fs@) =~= mgc_first_fields(*m, is_pleo) + split_paths_fields(m.files@, i as nat));
    }
    fs.push(FieldValue::U32(0));
    push_split_path_fields(&mut fs, &m.files[9]);
    push_split_path_fields(&mut fs, &m.files[10]);
    assert(flds_view(fs@) =~= mgc_head_fields(*m, is_pleo));
    fs.push(FieldValue::U64(0));
    fs.push(FieldValue::U64(0));
    fs.push(FieldValue::U64(0));
    fs.push(FieldValue::U64(0));
    fs.push(FieldValue::U32(0));
    fs.push(FieldValue::U32(0x3F80_0000));
    fs.push(FieldValue::U64(0xFFFF_FFFF_FFFF_FFFF));
    fs.push(FieldValue::U32(0));
    fs.push(FieldValue::U32(0));
    fs.push(FieldValue::U32(0));
    fs.push(FieldValue::U32(0x3F80_0000));
    fs.push(FieldValue::U64(0));
    fs.push(FieldValue::U32(m.old_anchor as u32));
    if is_pleo {
        fs.push(FieldValue::U32(0));
    }
    assert(flds_view(fs@) =~= mgc_write_fields(*m, is_pleo));
    fs
}

/// The written fields can be written exactly when every path fits `u32be` lengths.
pub proof fn lemma_mgc_enc_ok(m: MaterialGraphicComponent, is_pleo: bool)
    ensures
        enc_ok(mgc_write_kinds(is_pleo), mgc_write_fields(m, is_pleo)) <==> mgc_writable(m),
{
    let files = m.files@;
    lemma_split_paths_fields_good(files, 9);
    lemma_split_paths_fields_index(files, 9);
    lemma_repeat_split_paths_len(9);
    let k1 = mgc_first_kinds();
    let f1 = mgc_first_fields(m, is_pleo);
    assert(enc_ok(k1, f1)) by {
        assert forall|i: int| 0 <= i < k1.len() && #[trigger] k1[i] == FieldKind::Str implies fbytes(f1[i]).len() <= 0xFFFF_FFFF by {
            assert(0 <= i < 9);
        }
    }
    let k2 = repeat_split_paths(9);
    let f2 = split_paths_fields(files, 9);
    let k3 = seq![FieldKind::U32];
    let f3 = seq![Fld::U32(0)];
    assert(enc_ok(k3, f3));
    let k4 = split_path_kinds();
    let f4 = split_path_fields(files[9]);
    let f5 = split_path_fields(files[10]);
    assert(enc_ok(k4, f4) <==> files[9].path@.len() <= 0xFFFF_FFFF && files[9].filename@.len() <= 0xFFFF_FFFF) by {
        if !(files[9].path@.len() <= 0xFFFF_FFFF && files[9].filename@.len() <= 0xFFFF_FFFF) {
            assert(k4[0] == FieldKind::Str && k4[1] == FieldKind::Str);
        } else {
            assert forall|i: int| 0 <= i < k4.len() && #[trigger] k4[i] == FieldKind::Str implies fbytes(f4[i]).len() <= 0xFFFF_FFFF by {
                assert(i == 0 || i == 1 || i == 2 || i == 3);
            }
        }
    }
    assert(enc_ok(k4, f5) <==> files[10].path@.len() <= 0xFFFF_FFFF && files[10].filename@.len() <= 0xFFFF_FFFF) by {
        if !(files[10].path@.len() <= 0xFFFF_FFFF && files[10].filename@.len() <= 0xFFFF_FFFF) {
            assert(k4[0] == FieldKind::Str && k4[1] == FieldKind::Str);
        } else {
            assert forall|i: int| 0 <= i < k4.len() && #[trigger] k4[i] == FieldKind::Str implies fbytes(f5[i]).len() <= 0xFFFF_FFFF by {
                assert(i == 0 || i == 1 || i == 2 || i == 3);
            }
        }
    }
    assert(mgc_head_kinds() == k1 + k2 + k3 + k4 + k4);
    lemma_enc_ok_append(k1, f1, k2, f2);
    lemma_enc_ok_append(k1 + k2, f1 + f2, k3, f3);
    lemma_enc_ok_append(k1 + k2 + k3, f1 + f2 + f3, k4, f4);
    lemma_enc_ok_append(k1 + k2 + k3 + k4, f1 + f2 + f3 + f4, k4, f5);
    let kh = mgc_head_kinds();
    let fh = mgc_head_fields(m, is_pleo);
    let km = mgc_mid_write_kinds();
    let fm = mgc_mid_fields();
    let kt = mgc_tail_kinds(is_pleo);
    let ft = mgc_tail_fields(m, is_pleo);
    assert(enc_ok(km, fm)) by {
        assert forall|i: int| 0 <= i < km.len() && #[trigger] km[i] == FieldKind::Str implies fbytes(fm[i]).len() <= 0xFFFF_FFFF by {
            assert(0 <= i < 6);
        }
    }
    assert(enc_ok(kt, ft)) by {
        assert forall|i: int| 0 <= i < kt.len() && #[trigger] kt[i] == FieldKind::Str implies fbytes(ft[i]).len() <= 0xFFFF_FFFF by {
            assert(0 <= i < 8);
        }
    }
    lemma_enc_ok_append(kh, fh, km, fm);
    lemma_enc_ok_append(kh + km, fh + fm, kt, ft);
    if mgc_writable(m) {
        assert forall|k: int| 0 <= k < 9 implies (#[trigger] files[k]).path@.len() <= 0xFFFF_FFFF && files[k].filename@.len() <= 0xFFFF_FFFF by {
            assert(files[k] == m.files@[k]);
        }
        assert(files[9] == m.files@[9] && files[10] == m.files@[10]);
    }
    if enc_ok(mgc_write_kinds(is_pleo), mgc_write_fields(m, is_pleo)) {
        assert forall|k: int| 0 <= k < 11 implies (#[trigger] m.files@[k]).path@.len() <= 0xFFFF_FFFF
            && m.files@[k].filename@.len() <= 0xFFFF_FFFF by {
            if k < 9 {
                assert(files[k] == m.files@[k]);
            }
        }
    }
}

/// Whether `a` and `b` are one of the pairs of values that `unk11` and `unk12` take.
pub open spec fn mgc_pair_ok(a: u32, b: u32) -> bool {
    ||| (a == 0 && (b == 0 || b == 0x3E2E_147B || b == 0xC080_0000))
    ||| (a == 0x3E99_999A && b == 0xBDCC_CCCD)
    ||| (a == 0xBDE1_47AE && b == 0x3E61_47AE)
}

/// Whether the component holds values that the reader accepts: UTF-8 paths,
/// `unk4` 1.0 or 0, `unk9` all ones or 1, anchors from 0 to 9, and a known
/// pair of `unk11` and `unk12`.
pub open spec fn mgc_valid(m: MaterialGraphicComponent) -> bool {
    &&& forall|k: int| 0 <= k < 11 ==> split_path_valid(#[trigger] m.files@[k])
    &&& (m.unk4 == 0x3F80_0000 || m.unk4 == 0)
    &&& (m.unk9 == 0xFFFF_FFFF || m.unk9 == 1)
    &&& 0 <= m.anchor <= 9
    &&& mgc_pair_ok(m.unk11, m.unk12)
    &&& 0 <= m.old_anchor <= 9
}

/// Whether `a` and `b` are the same material graphic component.
pub open spec fn mgc_same(a: MaterialGraphicComponent, b: MaterialGraphicComponent) -> bool {
    &&& forall|k: int| 0 <= k < 11 ==> split_path_same(#[trigger] a.files@[k], b.files@[k])
    &&& a.unk4 == b.unk4
    &&& a.unk9 == b.unk9
    &&& a.anchor == b.anchor
    &&& a.unk11 == b.unk11
    &&& a.unk12 == b.unk12
    &&& a.old_anchor == b.old_anchor
}

/// The fields a reader decodes from what the writer wrote: for Just Dance 2020
/// an absent optional zero stands between the middle and the last fields.
pub open spec fn mgc_read_fields(m: MaterialGraphicComponent, is_pleo: bool, ugi: UniqueGameId) -> Seq<Fld> {
    mgc_head_fields(m, is_pleo) + mgc_mid_fields() + (if ugi.game == Game::JustDance2020 {
        seq![Fld::Opt(false)]
    } else {
        Seq::empty()
    }) + mgc_tail_fields(m, is_pleo)
}

/// The fields of a valid component are good, and where each part stands.
pub proof fn lemma_mgc_good(m: MaterialGraphicComponent, is_pleo: bool)
    requires
        mgc_valid(m),
    ensures
        good(mgc_head_kinds(), mgc_head_fields(m, is_pleo)),
        good(mgc_mid_write_kinds(), mgc_mid_fields()),
        good(mgc_tail_kinds(is_pleo), mgc_tail_fields(m, is_pleo)),
        mgc_head_fields(m, is_pleo).len() == 54,
        mgc_head_kinds().len() == 54,
        forall|k: int, j: int| 0 <= k < 9 && 0 <= j < 4 ==> mgc_head_fields(m, is_pleo)[9 + 4 * k + j]
            == #[trigger] split_path_fields(m.files@[k])[j],
        forall|j: int| 0 <= j < 4 ==> mgc_head_fields(m, is_pleo)[46 + j] == #[trigger] split_path_fields(m.files@[9])[j],
        forall|j: int| 0 <= j < 4 ==> mgc_head_fields(m, is_pleo)[50 + j] == #[trigger] split_path_fields(m.files@[10])[j],
        forall|i: int| 0 <= i < 9 ==> mgc_head_fields(m, is_pleo)[i] == #[trigger] mgc_first_fields(m, is_pleo)[i],
{
    let files = m.files@;
    assert forall|k: int| 0 <= k < 9 implies split_path_valid(#[trigger] files[k]) by {
        assert(files[k] == m.files@[k]);
    }
    lemma_split_paths_fields_good(files, 9);
    lemma_split_paths_fields_index(files, 9);
    lemma_repeat_split_paths_len(9);
    assert(split_path_valid(files[9]) && split_path_valid(files[10]));
    lemma_split_path_fields(files[9]);
    lemma_split_path_fields(files[10]);
    let k1 = mgc_first_kinds();
    let f1 = mgc_first_fields(m, is_pleo);
    assert(good(k1, f1)) by {
        assert forall|i: int| 0 <= i < k1.len() implies match #[trigger] k1[i] {
            FieldKind::U8 => f1[i] is U8,
            FieldKind::U16 => f1[i] is U16,
            FieldKind::U32 => f1[i] is U32,
            FieldKind::U64 => f1[i] is U64,
            FieldKind::Str => f1[i] is Bytes,
            FieldKind::Fixed(n) => f1[i] is Bytes && fbytes(f1[i]).len() == n,
            FieldKind::OptZero => f1[i] is Opt,
        } by {
            assert(i == 0 || i == 1 || i == 2 || i == 3 || i == 4 || i == 5 || i == 6 || i == 7 || i == 8);
        }
        assert forall|i: int| 0 <= i < k1.len() && #[trigger] k1[i] == FieldKind::Str implies fbytes(f1[i]).len() <= 0xFFFF_FFFF by {
            assert(0 <= i < 9);
        }
        assert forall|i: int| 0 <= i < k1.len() implies match #[trigger] k1[i] {
            FieldKind::Str => is_utf8(fbytes(f1[i])),
            FieldKind::OptZero => crate::layout::fopt(f1[i]),
            _ => true,
        } by {
            assert(i == 0 || i == 1 || i == 2 || i == 3 || i == 4 || i == 5 || i == 6 || i == 7 || i == 8);
        }
    }
    let k2 = repeat_split_paths(9);
    let f2 = split_paths_fields(files, 9);
    let k3 = seq![FieldKind::U32];
    let f3 = seq![Fld::U32(0)];
    assert(good(k3, f3)) by {
        assert forall|i: int| 0 <= i < k3.len() implies match #[trigger] k3[i] {
            FieldKind::U8 => f3[i] is U8,
            FieldKind::U16 => f3[i] is U16,
            FieldKind::U32 => f3[i] is U32,
            FieldKind::U64 => f3[i] is U64,
            FieldKind::Str => f3[i] is Bytes,
            FieldKind::Fixed(n) => f3[i] is Bytes && fbytes(f3[i]).len() == n,
            FieldKind::OptZero => f3[i] is Opt,
        } by {
            assert(i == 0);
        }
    }
    let k4 = split_path_kinds();
    let f4 = split_path_fields(files[9]);
    let f5 = split_path_fields(files[10]);
    lemma_good_append(k1, f1, k2, f2);
    lemma_good_append(k1 + k2, f1 + f2, k3, f3);
    lemma_good_append(k1 + k2 + k3, f1 + f2 + f3, k4, f4);
    lemma_good_append(k1 + k2 + k3 + k4, f1 + f2 + f3 + f4, k4, f5);
    assert(mgc_head_kinds() =~= k1 + k2 + k3 + k4 + k4);
    let fh = mgc_head_fields(m, is_pleo);
    assert(fh == f1 + f2 + f3 + f4 + f5);
    assert forall|k: int, j: int| 0 <= k < 9 && 0 <= j < 4 implies fh[9 + 4 * k + j] == #[trigger] split_path_fields(m.files@[k])[j] by {
        assert(fh[9 + 4 * k + j] == f2[4 * k + j]);
        assert(split_path_fields(files[k])[j] == f2[4 * k + j]);
    }
    let km = mgc_mid_write_kinds();
    let fm = mgc_mid_fields();
    assert(good(km, fm)) by {
        assert forall|i: int| 0 <= i < km.len() implies match #[trigger] km[i] {
            FieldKind::U8 => fm[i] is U8,
            FieldKind::U16 => fm[i] is U16,
            FieldKind::U32 => fm[i] is U32,
            FieldKind::U64 => fm[i] is U64,
            FieldKind::Str => fm[i] is Bytes,
            FieldKind::Fixed(n) => fm[i] is Bytes && fbytes(fm[i]).len() == n,
            FieldKind::OptZero => fm[i] is Opt,
        } by {
            assert(i == 0 || i == 1 || i == 2 || i == 3 || i == 4 || i == 5);
        }
        assert forall|i: int| 0 <= i < km.len() && #[trigger] km[i] == FieldKind::Str implies fbytes(fm[i]).len() <= 0xFFFF_FFFF by {
            assert(0 <= i < 6);
        }
        assert forall|i: int| 0 <= i < km.len() implies match #[trigger] km[i] {
            FieldKind::Str => is_utf8(fbytes(fm[i])),
            FieldKind::OptZero => crate::layout::fopt(fm[i]),
            _ => true,
        } by {
            assert(i == 0 || i == 1 || i == 2 || i == 3 || i == 4 || i == 5);
        }
    }
    let kt = mgc_tail_kinds(is_pleo);
    let ft = mgc_tail_fields(m, is_pleo);
    assert(good(kt, ft)) by {
        assert forall|i: int| 0 <= i < kt.len() implies match #[trigger] kt[i] {
            FieldKind::U8 => ft[i] is U8,
            FieldKind::U16 => ft[i] is U16,
            FieldKind::U32 => ft[i] is U32,
            FieldKind::U64 => ft[i] is U64,
            FieldKind::Str => ft[i] is Bytes,
            FieldKind::Fixed(n) => ft[i] is Bytes && fbytes(ft[i]).len() == n,
            FieldKind::OptZero => ft[i] is Opt,
        } by {
            assert(i == 0 || i == 1 || i == 2 || i == 3 || i == 4 || i == 5 || i == 6 || i == 7);
        }
        assert forall|i: int| 0 <= i < kt.len() && #[trigger] kt[i] == FieldKind::Str implies fbytes(ft[i]).len() <= 0xFFFF_FFFF by {
            assert(0 <= i < 8);
        }
        assert forall|i: int| 0 <= i < kt.len() implies match #[trigger] kt[i] {
            FieldKind::Str => is_utf8(fbytes(ft[i])),
            FieldKind::OptZero => crate::layout::fopt(ft[i]),
            _ => true,
        } by {
            assert(i == 0 || i == 1 || i == 2 || i == 3 || i == 4 || i == 5 || i == 6 || i == 7);
        }
    }
}

/// The pair of `unk11` and `unk12` splits back into the two words.
pub proof fn lemma_mgc_pair(a: u32, b: u32)
    ensures
        ((a as int * 0x1_0000_0000 + b as int) as u64 >> 32) as u32 == a,
        ((a as int * 0x1_0000_0000 + b as int) as u64) as u32 == b,
{
    let v: u64 = (a as int * 0x1_0000_0000 + b as int) as u64;
    assert(v == (a as u64) * 0x1_0000_0000 + (b as u64)) by (nonlinear_arith)
        requires
            v == (a as int * 0x1_0000_0000 + b as int) as u64,
            a <= 0xFFFF_FFFF,
            b <= 0xFFFF_FFFF,
    ;
    assert((v >> 32) as u32 == a && v as u32 == b) by (bit_vector)
        requires
            v == (a as u64) * 0x1_0000_0000 + (b as u64),
    ;
}

/// An optional zero is absent before fields that start with a `u64be` of all ones.
pub proof fn lemma_opt_zero_absent(kt: Seq<FieldKind>, ft: Seq<Fld>, s: Seq<u8>, q: int)
    requires
        kt.len() == ft.len(),
        kt.len() > 0,
        kt[0] == FieldKind::U64,
        ft[0] == Fld::U64(0xFFFF_FFFF_FFFF_FFFF),
        0 <= q,
        q + enc_run(kt, ft).len() <= s.len(),
        s.subrange(q, q + enc_run(kt, ft).len()) == enc_run(kt, ft),
    ensures
        dec_run(seq![FieldKind::OptZero], s, q) == Some((seq![Fld::Opt(false)], q)),
{
    let k0 = seq![FieldKind::U64];
    let f0 = seq![Fld::U64(0xFFFF_FFFF_FFFF_FFFF)];
    let kr = kt.subrange(1, kt.len() as int);
    let fr = ft.subrange(1, ft.len() as int);
    assert(kt =~= k0 + kr);
    assert(ft =~= f0 + fr);
    lemma_enc_run_append(k0, f0, kr, fr);
    assert(enc_run(k0, f0) =~= crate::bytes::enc_u64(0xFFFF_FFFF_FFFF_FFFF)) by {
        assert(k0.drop_last() =~= Seq::<FieldKind>::empty());
        assert(f0.drop_last() =~= Seq::<Fld>::empty());
        reveal_with_fuel(enc_run, 2);
    }
    let et = enc_run(kt, ft);
    assert(et.len() >= 8);
    assert(s[q] == et[0]);
    assert(et[0] == 255u8);
    assert(crate::bytes::be32_at(s, q) != 0);
    assert(dec_run(seq![FieldKind::OptZero], s, q) == Some((seq![Fld::Opt(false)], q))) by {
        reveal_with_fuel(dec_run, 2);
        assert(seq![FieldKind::OptZero].drop_last() =~= Seq::<FieldKind>::empty());
        assert(Seq::<Fld>::empty().push(Fld::Opt(false)) =~= seq![Fld::Opt(false)]);
    }
}

/// Decoding a run, an absent optional zero, and a run that starts with a
/// `u64be` of all ones, from the bytes of the two runs.
pub proof fn lemma_dec_with_absent_zero(ka: Seq<FieldKind>, fa: Seq<Fld>, kt: Seq<FieldKind>, ft: Seq<Fld>, s: Seq<u8>, p: int)
    requires
        good(ka, fa),
        good(kt, ft),
        kt.len() > 0,
        kt[0] == FieldKind::U64,
        ft[0] == Fld::U64(0xFFFF_FFFF_FFFF_FFFF),
        0 <= p,
        p + enc_run(ka, fa).len() + enc_run(kt, ft).len() <= s.len(),
        s.subrange(p, p + enc_run(ka, fa).len() + enc_run(kt, ft).len()) == enc_run(ka, fa) + enc_run(kt, ft),
    ensures
        dec_run(ka + seq![FieldKind::OptZero] + kt, s, p) == Some((fa + seq![Fld::Opt(false)] + ft,
            p + enc_run(ka, fa).len() + enc_run(kt, ft).len())),
{
    let ea = enc_run(ka, fa);
    let et = enc_run(kt, ft);
    let n = ea.len() + et.len();
    assert(s.subrange(p, p + ea.len()) =~= ea) by {
        assert(s.subrange(p, p + ea.len()) =~= s.subrange(p, p + n).subrange(0, ea.len() as int));
    }
    lemma_dec_enc_run(ka, fa, s, p);
    let q = p + ea.len();
    assert(s.subrange(q, q + et.len()) =~= et) by {
        assert(s.subrange(q, q + et.len()) =~= s.subrange(p, p + n).subrange(ea.len() as int, n as int));
    }
    lemma_dec_enc_run(kt, ft, s, q);
    lemma_opt_zero_absent(kt, ft, s, q);
    let ko = seq![FieldKind::OptZero];
    lemma_dec_run_append(ka, ko, s, p);
    lemma_dec_run_append(ka + ko, kt, s, p);
}

/// Decoding what the writer wrote gives the fields the reader sees, for every
/// game that stores the long middle part.
pub proof fn lemma_mgc_decode(m: MaterialGraphicComponent, is_pleo: bool, ugi: UniqueGameId, s: Seq<u8>, p: int)
    requires
        mgc_valid(m),
        !mgc_short_middle(ugi),
        0 <= p,
        p + mgc_bytes(m, is_pleo).len() <= s.len(),
        s.subrange(p, p + mgc_bytes(m, is_pleo).len()) == mgc_bytes(m, is_pleo),
    ensures
        dec_run(mgc_kinds(ugi, is_pleo), s, p) == Some((mgc_read_fields(m, is_pleo, ugi), p + mgc_bytes(m, is_pleo).len())),
{
    lemma_mgc_good(m, is_pleo);
    let kh = mgc_head_kinds();
    let fh = mgc_head_fields(m, is_pleo);
    let km = mgc_mid_write_kinds();
    let fm = mgc_mid_fields();
    let kt = mgc_tail_kinds(is_pleo);
    let ft = mgc_tail_fields(m, is_pleo);
    lemma_good_append(kh, fh, km, fm);
    lemma_good_append(kh + km, fh + fm, kt, ft);
    if ugi.game != Game::JustDance2020 {
        assert(mgc_kinds(ugi, is_pleo) =~= mgc_write_kinds(is_pleo));
        assert(mgc_read_fields(m, is_pleo, ugi) =~= mgc_write_fields(m, is_pleo));
        lemma_dec_enc_run(mgc_write_kinds(is_pleo), mgc_write_fields(m, is_pleo), s, p);
    } else {
        assert(mgc_kinds(ugi, is_pleo) =~= (kh + km) + seq![FieldKind::OptZero] + kt);
        assert(mgc_read_fields(m, is_pleo, ugi) =~= (fh + fm) + seq![Fld::Opt(false)] + ft);
        lemma_enc_run_append(kh + km, fh + fm, kt, ft);
        lemma_dec_with_absent_zero(kh + km, fh + fm, kt, ft, s, p);
    }
}

/// The fields the reader sees hold what the format requires, and any component that matches them is `m`.
pub proof fn lemma_mgc_read_ok(m: MaterialGraphicComponent, is_pleo: bool, ugi: UniqueGameId)
    requires
        mgc_valid(m),
        !mgc_short_middle(ugi),
    ensures
        mgc_ok(mgc_read_fields(m, is_pleo, ugi), ugi, is_pleo),
        forall|x: MaterialGraphicComponent| mgc_matches(x, mgc_read_fields(m, is_pleo, ugi), ugi) ==> mgc_same(x, m),
{
    lemma_mgc_good(m, is_pleo);
    let fs = mgc_read_fields(m, is_pleo, ugi);
    let fh = mgc_head_fields(m, is_pleo);
    let f1 = mgc_first_fields(m, is_pleo);
    let ft = mgc_tail_fields(m, is_pleo);
    let o: int = if ugi.game == Game::JustDance2020 { 1 } else { 0 };
    let t = mgc_tail(ugi);
    assert(t == 60 + o);
    assert(forall|i: int| 0 <= i < 54 ==> fs[i] == fh[i]);
    assert(forall|i: int| 0 <= i < ft.len() ==> fs[t + i] == ft[i]);
    assert(fs[0] == f1[0] && fs[1] == f1[1] && fs[2] == f1[2] && fs[3] == f1[3] && fs[6] == f1[6]);
    assert(fs[7] == f1[7] && fs[8] == f1[8]);
    assert(fs[t] == ft[0] && fs[t + 6] == ft[6]);
    if is_pleo {
        assert(fs[t + 7] == ft[7]);
    }
    lemma_mgc_pair(m.unk11, m.unk12);
    assert(mgc_unk15_ok(mgc_pair(m))) by {
        if m.unk11 == 0x3E99_999A {
            assert(mgc_pair(m) == 0x3E99_999A_BDCC_CCCD);
        } else if m.unk11 == 0xBDE1_47AE {
            assert(mgc_pair(m) == 0xBDE1_47AE_3E61_47AE);
        }
    }
    assert forall|x: MaterialGraphicComponent| mgc_matches(x, fs, ugi) implies mgc_same(x, m) by {
        assert forall|k: int| 0 <= k < 11 implies split_path_same(#[trigger] x.files@[k], m.files@[k]) by {
            if k < 9 {
                assert(fs[9 + 4 * k] == split_path_fields(m.files@[k])[0]);
                assert(fs[9 + 4 * k + 1] == split_path_fields(m.files@[k])[1]);
                assert(fs[9 + 4 * k + 2] == split_path_fields(m.files@[k])[2]);
                assert(split_path_matches(x.files[k], fs, 9 + 4 * k));
            } else if k == 9 {
                assert(fs[46] == split_path_fields(m.files@[9])[0]);
                assert(fs[47] == split_path_fields(m.files@[9])[1]);
                assert(fs[48] == split_path_fields(m.files@[9])[2]);
            } else {
                assert(fs[50] == split_path_fields(m.files@[10])[0]);
                assert(fs[51] == split_path_fields(m.files@[10])[1]);
                assert(fs[52] == split_path_fields(m.files@[10])[2]);
            }
        }
    }
}

/// Reading back what `serialize_at_with_ctx` writes for a valid material
/// graphic component gives the same component and ends where the bytes end,
/// for every game that stores the long middle part (all but Just Dance 2016 to 2019).
pub proof fn lemma_mgc_roundtrip(m: MaterialGraphicComponent, is_pleo: bool, ugi: UniqueGameId, s: Seq<u8>, p: int)
    requires
        mgc_valid(m),
        !mgc_short_middle(ugi),
        0 <= p,
        p + mgc_bytes(m, is_pleo).len() <= s.len(),
        s.subrange(p, p + mgc_bytes(m, is_pleo).len()) == mgc_bytes(m, is_pleo),
    ensures
        mgc_at(s, p, ugi, is_pleo) == Some((mgc_read_fields(m, is_pleo, ugi), p + mgc_bytes(m, is_pleo).len())),
        forall|x: MaterialGraphicComponent| mgc_matches(x, mgc_read_fields(m, is_pleo, ugi), ugi) ==> mgc_same(x, m),
{
    lemma_mgc_decode(m, is_pleo, ugi, s, p);
    lemma_mgc_read_ok(m, is_pleo, ugi);
}

impl MaterialGraphicComponent {
    /// Writes the component (the part after its type) at the end of `out`, in
    /// the form of Just Dance 2020 and later; `is_pleo` for the video texture.
    /// Where a path is too long for its `u32be` lengths, it stops there with an
    /// error, having written the fields before that string.
    pub fn serialize_at_with_ctx(&self, out: &mut Vec<u8>, is_pleo: bool) -> (r: Result<(), WriteError>)
        ensures
            r is Ok <==> mgc_writable(*self),
            r is Ok ==> final(out)@ == old(out)@ + mgc_bytes(*self, is_pleo),
            r is Err ==> final(out)@ == old(out)@ + run_before_too_long(mgc_write_kinds(is_pleo), mgc_write_fields(*self, is_pleo)),
    {
        let mut ks: Vec<FieldKind> = Vec::new();
        push_mgc_kinds(&mut ks, is_pleo);
        assert(ks@ =~= mgc_write_kinds(is_pleo));
        let fs = mgc_fields_exec(self, is_pleo);
        proof {
            lemma_mgc_enc_ok(*self, is_pleo);
            lemma_repeat_split_paths_len(9);
            lemma_split_paths_fields_index(self.files@, 9);
            assert(flds_view(fs@).len() == fs@.len());
        }
        write_fields(out, &ks, &fs)
    }
}

// ---------------------------------------------------------------- Actor

/// The bytes a component is written as: its type, then its data.
pub open spec fn component_bytes(c: Component) -> Seq<u8> {
    enc_u32(component_id(c)) + match c {
        Component::MaterialGraphicComponent(m) => mgc_bytes(m, false),
        Component::PleoComponent(pc) => pleo_bytes(pc),
        Component::PleoTextureGraphicComponent(m) => mgc_bytes(m, true),
        _ => Seq::empty(),
    }
}

/// The bytes of the components `cs`, one after the other.
pub open spec fn components_bytes(cs: Seq<Component>) -> Seq<u8>
    decreases cs.len(),
{
    if cs.len() == 0 {
        Seq::empty()
    } else {
        components_bytes(cs.drop_last()) + component_bytes(cs.last())
    }
}

/// Whether the writer can write the component: a component that holds no data
/// (other than the block flow and gold move components), a material graphic
/// component, a video player component or a video texture, with strings that
/// fit their `u32be` lengths.
pub open spec fn component_writable(c: Component) -> bool {
    match c {
        Component::AutodanceComponent | Component::MasterTape | Component::PictoComponent
        | Component::SongDatabaseComponent | Component::SongDescComponent | Component::TapeCaseComponent
        | Component::AvatarDescComponent | Component::SkinDescComponent => true,
        Component::MaterialGraphicComponent(m) => mgc_writable(m),
        Component::PleoComponent(pc) => pleo_writable(pc),
        Component::PleoTextureGraphicComponent(m) => mgc_writable(m),
        _ => false,
    }
}

/// The first fields of an actor as written (the newer header).
pub open spec fn actor_head_fields(a: Actor) -> Seq<Fld> {
    seq![Fld::U32(1), Fld::U32(a.unk1), Fld::U32(a.unk2), Fld::U32(a.unk2_5), Fld::U64(0), Fld::U32(0), Fld::U64(0x1_0000_0000)]
}

/// The kinds of the first fields as written.
pub open spec fn actor_head_write_kinds() -> Seq<FieldKind> {
    seq![FieldKind::U32, FieldKind::U32, FieldKind::U32, FieldKind::U32, FieldKind::U64, FieldKind::U32, FieldKind::U64]
}

/// The next fields of an actor as written: zeros, a marker of all ones, a zero,
/// the path of the template and a zero.
pub open spec fn actor_mid_fields(a: Actor) -> Seq<Fld> {
    seq![Fld::U32(0), Fld::U64(0), Fld::U32(0), Fld::U32(0xFFFF_FFFF), Fld::U32(0)] + split_path_fields(a.lua)
        + seq![Fld::U32(0)]
}

/// The kinds of the next fields as written.
pub open spec fn actor_mid_write_kinds() -> Seq<FieldKind> {
    seq![FieldKind::U32, FieldKind::U64, FieldKind::U32, FieldKind::U32, FieldKind::U32] + split_path_kinds()
        + seq![FieldKind::U32]
}

/// The bytes an actor is written as.
pub open spec fn actor_bytes(a: Actor) -> Seq<u8> {
    enc_run(actor_head_write_kinds(), actor_head_fields(a)) + enc_run(actor_mid_write_kinds(), actor_mid_fields(a))
        + enc_u32(a.components@.len() as u32) + components_bytes(a.components@)
}

/// Whether the writer can write the actor: the strings of its template path fit
/// their `u32be` lengths, its number of components fits a `u32be`, and every
/// component can be written.
pub open spec fn actor_writable(a: Actor) -> bool {
    &&& a.lua.path@.len() <= 0xFFFF_FFFF
    &&& a.lua.filename@.len() <= 0xFFFF_FFFF
    &&& a.components@.len() <= 0xFFFF_FFFF
    &&& forall|k: int| 0 <= k < a.components@.len() ==> component_writable(#[trigger] a.components@[k])
}

/// The bytes written of the component `c` when it cannot be written: its
/// type, then, for a component with data, its fields before the first string
/// too long for its length.
pub open spec fn component_error_bytes(c: Component) -> Seq<u8> {
    enc_u32(component_id(c)) + match c {
        Component::MaterialGraphicComponent(m) => run_before_too_long(mgc_write_kinds(false), mgc_write_fields(m, false)),
        Component::PleoComponent(pc) => run_before_too_long(pleo_kinds(), pleo_fields(pc)),
        Component::PleoTextureGraphicComponent(m) => run_before_too_long(mgc_write_kinds(true), mgc_write_fields(m, true)),
        _ => Seq::empty(),
    }
}

/// Writes the component `c`: its type, then its data. Where it cannot be
/// written, an error, after what `component_error_bytes` says.
fn write_component(out: &mut Vec<u8>, c: &Component) -> (r: Result<(), WriteError>)
    ensures
        r is Ok <==> component_writable(*c),
        r is Ok ==> final(out)@ == old(out)@ + component_bytes(*c),
        r is Err ==> final(out)@ == old(out)@ + component_error_bytes(*c),
{
    push_u32(out, c.to_id());
    let ghost mid = out@;
    let r = match c {
        Component::AutodanceComponent | Component::MasterTape | Component::PictoComponent
        | Component::SongDatabaseComponent | Component::SongDescComponent | Component::TapeCaseComponent
        | Component::AvatarDescComponent | Component::SkinDescComponent => Ok(()),
        Component::MaterialGraphicComponent(m) => m.serialize_at_with_ctx(out, false),
        Component::PleoComponent(pc) => pc.serialize_at_with_ctx(out),
        Component::PleoTextureGraphicComponent(m) => m.serialize_at_with_ctx(out, true),
        _ => Err(WriteError),
    };
    assert(r is Ok ==> out@ =~= old(out)@ + component_bytes(*c));
    assert(r is Err ==> out@ =~= old(out)@ + component_error_bytes(*c));
    r
}

/// Whether component `k` of `cs` is the first that cannot be written.
pub open spec fn first_unwritable(cs: Seq<Component>, k: int) -> bool {
    &&& 0 <= k < cs.len()
    &&& !component_writable(cs[k])
    &&& forall|j: int| 0 <= j < k ==> component_writable(#[trigger] cs[j])
}

/// At most one component is the first that cannot be written.
pub proof fn lemma_first_unwritable_unique(cs: Seq<Component>, i: int, j: int)
    requires
        first_unwritable(cs, i),
        first_unwritable(cs, j),
    ensures
        i == j,
{
    if i < j {
        assert(component_writable(cs[i]));
    } else if j < i {
        assert(component_writable(cs[j]));
    }
}

/// The bytes the writer leaves after an actor that cannot be written: the first
/// fields; then, where the template path is too long for its lengths, the next
/// fields before it; else the next fields, and where the number of components
/// fits a `u32be`, that number, the components before the first that cannot be
/// written, and what is written of that one.
#[verifier::opaque]
pub open spec fn actor_error_bytes(a: Actor) -> Seq<u8> {
    let head = enc_run(actor_head_write_kinds(), actor_head_fields(a));
    let mid_ks = actor_mid_write_kinds();
    let mid_fs = actor_mid_fields(a);
    if !(a.lua.path@.len() <= 0xFFFF_FFFF && a.lua.filename@.len() <= 0xFFFF_FFFF) {
        head + run_before_too_long(mid_ks, mid_fs)
    } else if a.components@.len() > 0xFFFF_FFFF {
        head + enc_run(mid_ks, mid_fs)
    } else {
        let cs = a.components@;
        let k = choose|k: int| first_unwritable(cs, k);
        head + enc_run(mid_ks, mid_fs) + enc_u32(cs.len() as u32) + components_bytes(cs.take(k))
            + component_error_bytes(cs[k])
    }
}

proof fn lemma_actor_error_lua(a: Actor)
    requires
        !(a.lua.path@.len() <= 0xFFFF_FFFF && a.lua.filename@.len() <= 0xFFFF_FFFF),
    ensures
        actor_error_bytes(a) == enc_run(actor_head_write_kinds(), actor_head_fields(a))
            + run_before_too_long(actor_mid_write_kinds(), actor_mid_fields(a)),
{
    reveal(actor_error_bytes);
}

proof fn lemma_actor_error_count(a: Actor)
    requires
        a.lua.path@.len() <= 0xFFFF_FFFF && a.lua.filename@.len() <= 0xFFFF_FFFF,
        a.components@.len() > 0xFFFF_FFFF,
    ensures
        actor_error_bytes(a) == enc_run(actor_head_write_kinds(), actor_head_fields(a))
            + enc_run(actor_mid_write_kinds(), actor_mid_fields(a)),
{
    reveal(actor_error_bytes);
}

proof fn lemma_actor_error_component(a: Actor, k: int)
    requires
        a.lua.path@.len() <= 0xFFFF_FFFF && a.lua.filename@.len() <= 0xFFFF_FFFF,
        a.components@.len() <= 0xFFFF_FFFF,
        first_unwritable(a.components@, k),
    ensures
        actor_error_bytes(a) == enc_run(actor_head_write_kinds(), actor_head_fields(a))
            + enc_run(actor_mid_write_kinds(), actor_mid_fields(a)) + enc_u32(a.components@.len() as u32)
            + components_bytes(a.components@.take(k)) + component_error_bytes(a.components@[k]),
{
    reveal(actor_error_bytes);
    let c = choose|j: int| first_unwritable(a.components@, j);
    lemma_first_unwritable_unique(a.components@, k, c);
}

/// The first bytes the writer gives for an actor: the version 1, `unk1`, `unk2`
/// and `unk2_5`, then zeros (where `unk3_5` stands), a zero word and the pair of
/// words 1 and 0.
pub open spec fn actor_header_bytes(a: Actor) -> Seq<u8> {
    enc_u32(1) + enc_u32(a.unk1) + enc_u32(a.unk2) + enc_u32(a.unk2_5) + enc_u64(0) + enc_u32(0)
        + enc_u64(0x1_0000_0000)
}

proof fn lemma_actor_head_run(a: Actor)
    ensures
        enc_run(actor_head_write_kinds(), actor_head_fields(a)) == actor_header_bytes(a),
{
    let ks = actor_head_write_kinds();
    let fs = actor_head_fields(a);
    assert forall|i: int| 1 <= i <= 7 implies #[trigger] enc_run(ks.take(i), fs.take(i))
        == enc_run(ks.take(i - 1), fs.take(i - 1)) + enc_field(ks[i - 1], fs[i - 1]) by {
        assert(ks.take(i).drop_last() =~= ks.take(i - 1));
        assert(fs.take(i).drop_last() =~= fs.take(i - 1));
    }
    assert(enc_run(ks.take(0), fs.take(0)) == Seq::<u8>::empty());
    let e1 = enc_run(ks.take(1), fs.take(1));
    let e2 = enc_run(ks.take(2), fs.take(2));
    let e3 = enc_run(ks.take(3), fs.take(3));
    let e4 = enc_run(ks.take(4), fs.take(4));
    let e5 = enc_run(ks.take(5), fs.take(5));
    let e6 = enc_run(ks.take(6), fs.take(6));
    let e7 = enc_run(ks.take(7), fs.take(7));
    assert(e1 =~= enc_u32(1));
    assert(e2 == e1 + enc_u32(a.unk1));
    assert(e3 == e2 + enc_u32(a.unk2));
    assert(e4 == e3 + enc_u32(a.unk2_5));
    assert(e5 == e4 + enc_u64(0));
    assert(e6 == e5 + enc_u32(0));
    assert(e7 == e6 + enc_u64(0x1_0000_0000));
    assert(ks.take(7) =~= ks);
    assert(fs.take(7) =~= fs);
}

/// Whether the actor can be written or not, what the writer leaves starts with
/// the header of the actor: in full on success, and kept on an error.
pub proof fn lemma_actor_header_written(a: Actor)
    ensures
        actor_bytes(a).len() >= 36,
        actor_bytes(a).take(36) == actor_header_bytes(a),
        actor_error_bytes(a).len() >= 36,
        actor_error_bytes(a).take(36) == actor_header_bytes(a),
{
    lemma_actor_head_run(a);
    let h = enc_run(actor_head_write_kinds(), actor_head_fields(a));
    assert(h.len() == 36);
    let rest = enc_run(actor_mid_write_kinds(), actor_mid_fields(a)) + enc_u32(a.components@.len() as u32)
        + components_bytes(a.components@);
    assert(actor_bytes(a) =~= h + rest);
    assert((h + rest).take(36) =~= h);
    let mid_ks = actor_mid_write_kinds();
    let mid_fs = actor_mid_fields(a);
    if !(a.lua.path@.len() <= 0xFFFF_FFFF && a.lua.filename@.len() <= 0xFFFF_FFFF) {
        lemma_actor_error_lua(a);
        let t = run_before_too_long(mid_ks, mid_fs);
        assert((h + t).take(36) =~= h);
    } else if a.components@.len() > 0xFFFF_FFFF {
        lemma_actor_error_count(a);
        let t = enc_run(mid_ks, mid_fs);
        assert((h + t).take(36) =~= h);
    } else {
        reveal(actor_error_bytes);
        let cs = a.components@;
        let k = choose|k: int| first_unwritable(cs, k);
        let t = enc_run(mid_ks, mid_fs) + enc_u32(cs.len() as u32) + components_bytes(cs.take(k))
            + component_error_bytes(cs[k]);
        assert(actor_error_bytes(a) =~= h + t);
        assert((h + t).take(36) =~= h);
    }
}

impl Actor {
    /// Writes the actor at the end of `out`, with the newer header (the
    /// builds from the first Just Dance 2019 build for the Switch on). Where
    /// the actor cannot be written, an error, after the bytes that
    /// `actor_error_bytes` gives: everything up to the point of failure stays.
    #[verifier::spinoff_prover]
    pub fn serialize_at_with_ctx(&self, out: &mut Vec<u8>) -> (r: Result<(), WriteError>)
        ensures
            r is Ok <==> actor_writable(*self),
            r is Ok ==> final(out)@ == old(out)@ + actor_bytes(*self),
            r is Err ==> final(out)@ == old(out)@ + actor_error_bytes(*self),
    {
        let ghost start0 = old(out)@;
        let head_kinds: Vec<FieldKind> = vec![
            FieldKind::U32,
            FieldKind::U32,
            FieldKind::U32,
            FieldKind::U32,
            FieldKind::U64,
            FieldKind::U32,
            FieldKind::U64,
        ];
        let head: Vec<FieldValue> = vec![
            FieldValue::U32(1),
            FieldValue::U32(self.unk1),
            FieldValue::U32(self.unk2),
            FieldValue::U32(self.unk2_5),
            FieldValue::U64(0),
            FieldValue::U32(0),
            FieldValue::U64(0x1_0000_0000),
        ];
        assert(head_kinds@ =~= actor_head_write_kinds());
        assert(flds_view(head@) =~= actor_head_fields(*self));
        assert(enc_ok(actor_head_write_kinds(), actor_head_fields(*self))) by {
            let ks = actor_head_write_kinds();
            assert forall|i: int| 0 <= i < ks.len() && #[trigger] ks[i] == FieldKind::Str implies fbytes(actor_head_fields(*self)[i]).len() <= 0xFFFF_FFFF by {
                assert(0 <= i < 7);
            }
        }
        match write_fields(out, &head_kinds, &head) {
            Ok(()) => {},
            Err(e) => return Err(e),
        }
        let ghost after_head = out@;
        let mut mid_kinds: Vec<FieldKind> = vec![FieldKind::U32, FieldKind::U64, FieldKind::U32, FieldKind::U32, FieldKind::U32];
        push_split_path(&mut mid_kinds);
        mid_kinds.push(FieldKind::U32);
        assert(mid_kinds@ =~= actor_mid_write_kinds());
        let mut mid: Vec<FieldValue> = vec![
            FieldValue::U32(0),
            FieldValue::U64(0),
            FieldValue::U32(0),
            FieldValue::U32(0xFFFF_FFFF),
            FieldValue::U32(0),
        ];
        assert(flds_view(mid@) =~= seq![Fld::U32(0), Fld::U64(0), Fld::U32(0), Fld::U32(0xFFFF_FFFF), Fld::U32(0)]);
        push_split_path_fields(&mut mid, &self.lua);
        let ghost before = flds_view(mid@);
        mid.push(FieldValue::U32(0));
        assert(flds_view(mid@) =~= before.push(Fld::U32(0)));
        assert(flds_view(mid@) =~= actor_mid_fields(*self));
        proof {
            let ks = actor_mid_write_kinds();
            let fs = actor_mid_fields(*self);
            assert(enc_ok(ks, fs) <==> self.lua.path@.len() <= 0xFFFF_FFFF && self.lua.filename@.len() <= 0xFFFF_FFFF) by {
                if self.lua.path@.len() <= 0xFFFF_FFFF && self.lua.filename@.len() <= 0xFFFF_FFFF {
                    assert forall|i: int| 0 <= i < ks.len() && #[trigger] ks[i] == FieldKind::Str implies fbytes(fs[i]).len() <= 0xFFFF_FFFF by {
                        assert(0 <= i < 10);
                        assert(i == 0 || i == 1 || i == 2 || i == 3 || i == 4 || i == 5 || i == 6 || i == 7 || i == 8 || i == 9);
                    }
                } else {
                    assert(ks[5] == FieldKind::Str && ks[6] == FieldKind::Str);
                }
            }
        }
        match write_fields(out, &mid_kinds, &mid) {
            Ok(()) => {},
            Err(e) => {
                proof { lemma_actor_error_lua(*self); }
                assert(out@ =~= start0 + actor_error_bytes(*self));
                return Err(e);
            },
        }
        let n = self.components.len();
        if n > 0xFFFF_FFFF {
            proof { lemma_actor_error_count(*self); }
            assert(out@ =~= start0 + actor_error_bytes(*self));
            return Err(WriteError);
        }
        push_u32(out, n as u32);
        let ghost start = out@;
        let mut i: usize = 0;
        while i < n
            invariant
                i <= n,
                n == self.components@.len(),
                n <= 0xFFFF_FFFF,
                out@ == start + components_bytes(self.components@.take(i as int)),
                start == start0 + enc_run(actor_head_write_kinds(), actor_head_fields(*self))
                    + enc_run(actor_mid_write_kinds(), actor_mid_fields(*self)) + enc_u32(n as u32),
                start0 == old(out)@,
                self.lua.path@.len() <= 0xFFFF_FFFF && self.lua.filename@.len() <= 0xFFFF_FFFF,
                forall|k: int| 0 <= k < i ==> component_writable(#[trigger] self.components@[k]),
            decreases n - i,
        {
            match write_component(out, &self.components[i]) {
                Ok(()) => {},
                Err(e) => {
                    proof {
                        assert(first_unwritable(self.components@, i as int));
                        lemma_actor_error_component(*self, i as int);
                    }
                    assert(out@ =~= start0 + actor_error_bytes(*self));
                    return Err(e);
                },
            }
            assert(self.components@.take(i + 1).drop_last() =~= self.components@.take(i as int));
            assert(self.components@.take(i + 1).last() == self.components@[i as int]);
            i = i + 1;
            assert(out@ =~= start + components_bytes(self.components@.take(i as int)));
        }
        assert(self.components@.take(n as int) =~= self.components@);
        assert(out@ =~= start0 + actor_bytes(*self));
        Ok(())
    }
}

/// Writes the actor into a new vector.
pub fn create_vec(actor: &Actor) -> (r: Result<Vec<u8>, WriteError>)
    ensures
        r is Ok <==> actor_writable(*actor),
        r matches Ok(v) ==> v@ == actor_bytes(*actor),
{
    let mut v: Vec<u8> = Vec::new();
    match actor.serialize_at_with_ctx(&mut v) {
        Ok(()) => {
            assert(v@ =~= actor_bytes(*actor));
            Ok(v)
        },
        Err(e) => Err(e),
    }
}

// ---------------------------------------------------------------- reading back an actor

/// Whether the component can be written and holds values that the reader accepts.
pub open spec fn component_valid(c: Component) -> bool {
    match c {
        Component::AutodanceComponent | Component::MasterTape | Component::PictoComponent
        | Component::SongDatabaseComponent | Component::SongDescComponent | Component::TapeCaseComponent
        | Component::AvatarDescComponent | Component::SkinDescComponent => true,
        Component::MaterialGraphicComponent(m) => mgc_valid(m),
        Component::PleoComponent(pc) => pleo_valid(pc),
        Component::PleoTextureGraphicComponent(m) => mgc_valid(m),
        _ => false,
    }
}

/// Whether `x` is the same component as `c`.
pub open spec fn component_same(x: Component, c: Component) -> bool {
    match c {
        Component::MaterialGraphicComponent(m) => x matches Component::MaterialGraphicComponent(y) && mgc_same(y, m),
        Component::PleoComponent(pc) => x matches Component::PleoComponent(y) && pleo_same(y, pc),
        Component::PleoTextureGraphicComponent(m) => x matches Component::PleoTextureGraphicComponent(y) && mgc_same(y, m),
        _ => x == c,
    }
}

/// The type of a written component is read back from its first four bytes.
pub proof fn lemma_component_type(c: Component, s: Seq<u8>, p: int)
    requires
        0 <= p,
        p + component_bytes(c).len() <= s.len(),
        s.subrange(p, p + component_bytes(c).len()) == component_bytes(c),
    ensures
        component_bytes(c).len() >= 4,
        be32_at(s, p) == component_id(c),
{
    let e = component_bytes(c);
    let id = enc_u32(component_id(c));
    lemma_be32(component_id(c));
    assert(e.subrange(0, 4) =~= id);
    assert(s.subrange(p, p + 4) =~= s.subrange(p, p + e.len()).subrange(0, 4));
    assert(id.subrange(0, 4) =~= id);
    lemma_be32_shift(s, id, p, 0);
}

/// Whether the build reads the component `c` in the form the writer writes:
/// every build reads the components without a material, and the builds
/// outside Just Dance 2016 to 2019 read the material graphic components too.
pub open spec fn reads_written_form(c: Component, ugi: UniqueGameId) -> bool {
    !mgc_short_middle(ugi) || !(c is MaterialGraphicComponent || c is PleoTextureGraphicComponent)
}

/// Reading back a written component gives the same component and ends where its bytes end.
#[verifier::spinoff_prover]
#[verifier::rlimit(100)]
pub proof fn lemma_component_roundtrip(c: Component, ugi: UniqueGameId, s: Seq<u8>, p: int)
    requires
        component_valid(c),
        reads_written_form(c, ugi),
        0 <= p,
        p + component_bytes(c).len() <= s.len(),
        s.subrange(p, p + component_bytes(c).len()) == component_bytes(c),
    ensures
        component_end(s, p, ugi) == Some(p + component_bytes(c).len()),
        forall|x: Component| component_matches(x, s, p, ugi) ==> component_same(x, c),
{
    lemma_component_type(c, s, p);
    let e = component_bytes(c);
    let body = e.subrange(4, e.len() as int);
    assert(e =~= enc_u32(component_id(c)) + body);
    assert(s.subrange(p + 4, p + e.len()) =~= body) by {
        assert(s.subrange(p + 4, p + e.len()) =~= s.subrange(p, p + e.len()).subrange(4, e.len() as int));
    }
    reveal(component_end);
    reveal(component_matches);
    match c {
        Component::MaterialGraphicComponent(m) => {
            assert(body == mgc_bytes(m, false));
            lemma_mgc_roundtrip(m, false, ugi, s, p + 4);
        },
        Component::PleoComponent(pc) => {
            assert(body == pleo_bytes(pc));
            lemma_pleo_roundtrip(pc, s, p + 4);
        },
        Component::PleoTextureGraphicComponent(m) => {
            assert(body == mgc_bytes(m, true));
            lemma_mgc_roundtrip(m, true, ugi, s, p + 4);
        },
        _ => {},
    }
}

/// Reading back written components gives the same components, where each starts and where the last ends.
pub proof fn lemma_components_roundtrip(cs: Seq<Component>, ugi: UniqueGameId, s: Seq<u8>, p: int)
    requires
        forall|k: int| 0 <= k < cs.len() ==> component_valid(#[trigger] cs[k]) && reads_written_form(cs[k], ugi),
        0 <= p,
        p + components_bytes(cs).len() <= s.len(),
        s.subrange(p, p + components_bytes(cs).len()) == components_bytes(cs),
    ensures
        components_at(s, p, cs.len(), ugi) matches Some((starts, e)) && e == p + components_bytes(cs).len()
            && starts.len() == cs.len() && forall|k: int, x: Component| 0 <= k < cs.len() && #[trigger] component_matches(x, s, starts[k], ugi)
                ==> component_same(x, cs[k]),
    decreases cs.len(),
{
    if cs.len() > 0 {
        let c0 = cs.drop_last();
        let last = cs.last();
        let e0 = components_bytes(c0);
        let e1 = component_bytes(last);
        assert(components_bytes(cs) == e0 + e1);
        assert forall|k: int| 0 <= k < c0.len() implies component_valid(#[trigger] c0[k]) && reads_written_form(c0[k], ugi) by {
            assert(c0[k] == cs[k]);
        }
        assert(s.subrange(p, p + e0.len()) =~= e0) by {
            assert(s.subrange(p, p + e0.len()) =~= s.subrange(p, p + (e0 + e1).len()).subrange(0, e0.len() as int));
        }
        lemma_components_roundtrip(c0, ugi, s, p);
        let q = p + e0.len();
        assert(s.subrange(q, q + e1.len()) =~= e1) by {
            assert(s.subrange(q, q + e1.len()) =~= s.subrange(p, p + (e0 + e1).len()).subrange(e0.len() as int, (e0.len() + e1.len()) as int));
        }
        assert(component_valid(cs[cs.len() - 1]) && reads_written_form(cs[cs.len() - 1], ugi));
        lemma_component_roundtrip(last, ugi, s, q);
        let (starts0, _) = components_at(s, p, c0.len(), ugi).unwrap();
        let starts = starts0.push(q);
        assert(components_at(s, p, cs.len(), ugi) == Some((starts, q + e1.len())));
        assert forall|k: int, x: Component| 0 <= k < cs.len() && #[trigger] component_matches(x, s, starts[k], ugi)
            implies component_same(x, cs[k]) by {
            if k < cs.len() - 1 {
                assert(starts[k] == starts0[k]);
                assert(cs[k] == c0[k]);
            } else {
                assert(starts[k] == q);
            }
        }
    }
}

/// Whether the actor can be written, is read back whole: UTF-8 strings, a
/// template path that is not empty, and components that can be written and
/// hold values the reader accepts.
pub open spec fn actor_valid(a: Actor) -> bool {
    &&& split_path_valid(a.lua)
    &&& (a.lua.path@.len() > 0 || a.lua.filename@.len() > 0)
    &&& a.components@.len() <= 0xFFFF_FFFF
    &&& forall|k: int| 0 <= k < a.components@.len() ==> component_valid(#[trigger] a.components@[k])
}

/// Whether `x` is the actor `a` as written and read back: the same, but for
/// `unk3_5`, which the writer writes as zero.
pub open spec fn actor_same(x: Actor, a: Actor) -> bool {
    &&& split_path_same(x.lua, a.lua)
    &&& x.unk1 == a.unk1
    &&& x.unk2 == a.unk2
    &&& x.unk2_5 == a.unk2_5
    &&& x.unk3_5 == 0
    &&& x.components@.len() == a.components@.len()
    &&& forall|k: int| 0 <= k < a.components@.len() ==> component_same(#[trigger] x.components@[k], a.components@[k])
}

/// Whether `x` is what the reader gives for the bytes that the writer writes for `a`.
pub open spec fn actor_read_back(x: Actor, a: Actor, ugi: UniqueGameId) -> bool {
    match actor_at(actor_bytes(a), 0, ugi) {
        Some((head, mid, starts)) => actor_matches(x, actor_bytes(a), head, mid, starts, ugi),
        None => false,
    }
}

/// Reading back what `create_vec` writes for a valid actor succeeds and gives
/// the same actor (with `unk3_5` zero), on every build from the first Just
/// Dance 2019 build for the Switch on; on the Just Dance 2019 builds, where the
/// actor has no material graphic component.
#[verifier::spinoff_prover]
#[verifier::rlimit(60)]
pub proof fn lemma_actor_roundtrip(a: Actor, ugi: UniqueGameId)
    requires
        actor_valid(a),
        actor_new_header(ugi),
        forall|k: int| 0 <= k < a.components@.len() ==> reads_written_form(#[trigger] a.components@[k], ugi),
    ensures
        actor_at(actor_bytes(a), 0, ugi) is Some,
        forall|x: Actor| actor_read_back(x, a, ugi) ==> actor_same(x, a),
{
    let s = actor_bytes(a);
    let kh = actor_head_write_kinds();
    let fh = actor_head_fields(a);
    let km = actor_mid_write_kinds();
    let fm = actor_mid_fields(a);
    let eh = enc_run(kh, fh);
    let em = enc_run(km, fm);
    let n = a.components@.len();
    let ec = enc_u32(n as u32);
    let ecs = components_bytes(a.components@);
    assert(s == eh + em + ec + ecs);
    assert(actor_head_kinds(ugi) =~= kh);
    assert(good(kh, fh)) by {
        assert forall|i: int| 0 <= i < kh.len() implies match #[trigger] kh[i] {
            FieldKind::U8 => fh[i] is U8,
            FieldKind::U16 => fh[i] is U16,
            FieldKind::U32 => fh[i] is U32,
            FieldKind::U64 => fh[i] is U64,
            FieldKind::Str => fh[i] is Bytes,
            FieldKind::Fixed(n) => fh[i] is Bytes && fbytes(fh[i]).len() == n,
            FieldKind::OptZero => fh[i] is Opt,
        } by {
            assert(i == 0 || i == 1 || i == 2 || i == 3 || i == 4 || i == 5 || i == 6);
        }
        assert forall|i: int| 0 <= i < kh.len() && #[trigger] kh[i] == FieldKind::Str implies fbytes(fh[i]).len() <= 0xFFFF_FFFF by {
            assert(0 <= i < 7);
        }
        assert forall|i: int| 0 <= i < kh.len() implies match #[trigger] kh[i] {
            FieldKind::Str => is_utf8(fbytes(fh[i])),
            FieldKind::OptZero => crate::layout::fopt(fh[i]),
            _ => true,
        } by {
            assert(i == 0 || i == 1 || i == 2 || i == 3 || i == 4 || i == 5 || i == 6);
        }
    }
    assert(s.subrange(0, eh.len() as int) =~= eh);
    lemma_dec_enc_run(kh, fh, s, 0);
    assert(actor_head_at(s, 0, ugi) == Some((fh, eh.len() as int)));
    assert(!actor_gap(fh, ugi));
    // The next fields.
    let k5 = seq![FieldKind::U32, FieldKind::U64, FieldKind::U32, FieldKind::U32, FieldKind::U32];
    let f5 = seq![Fld::U32(0), Fld::U64(0), Fld::U32(0), Fld::U32(0xFFFF_FFFF), Fld::U32(0)];
    assert(good(k5, f5)) by {
        assert forall|i: int| 0 <= i < k5.len() implies match #[trigger] k5[i] {
            FieldKind::U8 => f5[i] is U8,
            FieldKind::U16 => f5[i] is U16,
            FieldKind::U32 => f5[i] is U32,
            FieldKind::U64 => f5[i] is U64,
            FieldKind::Str => f5[i] is Bytes,
            FieldKind::Fixed(n) => f5[i] is Bytes && fbytes(f5[i]).len() == n,
            FieldKind::OptZero => f5[i] is Opt,
        } by {
            assert(i == 0 || i == 1 || i == 2 || i == 3 || i == 4);
        }
        assert forall|i: int| 0 <= i < k5.len() && #[trigger] k5[i] == FieldKind::Str implies fbytes(f5[i]).len() <= 0xFFFF_FFFF by {
            assert(0 <= i < 5);
        }
        assert forall|i: int| 0 <= i < k5.len() implies match #[trigger] k5[i] {
            FieldKind::Str => is_utf8(fbytes(f5[i])),
            FieldKind::OptZero => crate::layout::fopt(f5[i]),
            _ => true,
        } by {
            assert(i == 0 || i == 1 || i == 2 || i == 3 || i == 4);
        }
    }
    let k1 = seq![FieldKind::U32];
    let f1 = seq![Fld::U32(0)];
    assert(good(k1, f1)) by {
        assert forall|i: int| 0 <= i < k1.len() implies match #[trigger] k1[i] {
            FieldKind::U8 => f1[i] is U8,
            FieldKind::U16 => f1[i] is U16,
            FieldKind::U32 => f1[i] is U32,
            FieldKind::U64 => f1[i] is U64,
            FieldKind::Str => f1[i] is Bytes,
            FieldKind::Fixed(n) => f1[i] is Bytes && fbytes(f1[i]).len() == n,
            FieldKind::OptZero => f1[i] is Opt,
        } by {
            assert(i == 0);
        }
    }
    lemma_split_path_fields(a.lua);
    lemma_good_append(k5, f5, split_path_kinds(), split_path_fields(a.lua));
    lemma_good_append(k5 + split_path_kinds(), f5 + split_path_fields(a.lua), k1, f1);
    assert(actor_mid_kinds(ugi, false) =~= km);
    let q1 = eh.len() as int;
    assert(s.subrange(q1, q1 + em.len()) =~= em);
    lemma_dec_enc_run(km, fm, s, q1);
    assert(fm[5] == split_path_fields(a.lua)[0] && fm[6] == split_path_fields(a.lua)[1] && fm[7] == split_path_fields(a.lua)[2]);
    assert(actor_mid_ok(fm, ugi, false));
    // The components.
    let q2 = q1 + em.len();
    lemma_be32(n as u32);
    assert(s.subrange(q2, q2 + 4) =~= ec);
    assert(ec.subrange(0, 4) =~= ec);
    lemma_be32_shift(s, ec, q2, 0);
    let q3 = q2 + 4;
    assert(s.subrange(q3, q3 + ecs.len()) =~= ecs);
    lemma_components_roundtrip(a.components@, ugi, s, q3);
    assert(component_list_at(s, q2, ugi) == components_at(s, q3, n, ugi));
    assert(actor_end_ok(s, q3 + ecs.len()));
    let (starts, _) = components_at(s, q3, n, ugi).unwrap();
    assert(actor_at(s, 0, ugi) == Some((fh, fm, starts)));
    assert forall|x: Actor| actor_read_back(x, a, ugi) implies actor_same(x, a) by {
        assert(actor_lua_at(ugi, false) == 5);
        assert forall|k: int| 0 <= k < a.components@.len() implies component_same(#[trigger] x.components@[k], a.components@[k]) by {
            assert(component_matches(x.components@[k], s, starts[k], ugi));
        }
    }
}

} // verus!
