//! Cooked textures (`.png.ckd`, `.tga.ckd`): a 44-byte header, then the
//! texture in the format of the platform (XTX on the Switch, GFD on the Wii U).
use vstd::prelude::*;
use crate::bytes::{push_u16, push_u32, push_u64, push_bytes, enc_u16, enc_u32, enc_u64, be16_at, be32_at, be64_at, lemma_be32_bound};
use crate::error::{ReadError, WriteError};
use crate::gtx::parser::{gtx_at, gtx_matches};
use crate::gtx::types::Gtx;
use crate::encode::{enc_run, enc_ok, dec_ok, lemma_dec_enc_run, lemma_dec_run_append};
use crate::layout::{FieldKind, Fld, fits, read_fields, fu16, fu32, fu64, get_u16, get_u32, get_u64, dec_run, dec_field, lemma_dec_run_none_prefix, lemma_dec_run_fits};
use crate::act::components::record_at;
use crate::bytes::copy_range;
use crate::utils::{Platform, UniqueGameId};

verus! {

/// The texture of a cooked texture file.
pub enum Texture {
    /// A GFD texture (Wii U).
    Gtx(Gtx),
    /// The bytes of an XTX texture (Switch), which this library keeps as they are.
    Xtx(Vec<u8>),
}

/// A cooked texture: its header values and its texture.
pub struct Png {
    pub width: u16,
    pub height: u16,
    pub unk2: u32,
    pub unk5: u16,
    pub unk8: u32,
    pub unk9: u32,
    pub unk10: u16,
    pub texture: Texture,
}

impl Default for Png {
    /// The header values of a pictogram and an empty XTX texture.
    fn default() -> (r: Png)
        ensures
            r.width == 0 && r.height == 0 && r.unk2 == 0 && r.unk5 == 0x2000 && r.unk8 == 0 && r.unk9 == 0
                && r.unk10 == 0,
            r.texture matches Texture::Xtx(b) && b@.len() == 0,
    {
        Png { width: 0, height: 0, unk2: 0, unk5: 0x2000, unk8: 0, unk9: 0, unk10: 0, texture: Texture::Xtx(Vec::new()) }
    }
}

/// The fields of the header: the magic, the header size, `unk2`, the width and
/// height, a one, `unk5`, `unk2` again, a zero, `unk8`, `unk9`, `unk10` and a last word.
pub open spec fn png_kinds() -> Seq<FieldKind> {
    seq![
        FieldKind::U64, FieldKind::U32, FieldKind::U32, FieldKind::U16, FieldKind::U16, FieldKind::U16,
        FieldKind::U16, FieldKind::U32, FieldKind::U32, FieldKind::U32, FieldKind::U32, FieldKind::U16,
        FieldKind::U16,
    ]
}

/// Whether the header holds what the format requires.
pub open spec fn png_ok(fs: Seq<Fld>) -> bool {
    &&& fu64(fs[0]) == 0x9_5445_5800
    &&& fu32(fs[1]) == 0x2C
    &&& fu16(fs[5]) == 1
    &&& (fu16(fs[6]) == 0x1800 || fu16(fs[6]) == 0x1801 || fu16(fs[6]) == 0x2000 || fu16(fs[6]) == 0x2002)
    &&& fu32(fs[7]) == fu32(fs[2])
    &&& fu32(fs[8]) == 0
    &&& (fu16(fs[11]) == 0x0202 || fu16(fs[11]) == 0)
}

/// The header at `s[p..]`, where it holds what the format requires, and the position after it.
pub open spec fn png_header_at(s: Seq<u8>, p: int) -> Option<(Seq<Fld>, int)> {
    record_at(png_kinds(), |fs: Seq<Fld>| png_ok(fs), s, p)
}

/// Whether the header values of `x` are those of the fields `fs`.
pub open spec fn png_header_matches(x: Png, fs: Seq<Fld>) -> bool {
    &&& x.unk2 == fu32(fs[2])
    &&& x.width == fu16(fs[3])
    &&& x.height == fu16(fs[4])
    &&& x.unk5 == fu16(fs[6])
    &&& x.unk8 == fu32(fs[9])
    &&& x.unk9 == fu32(fs[10])
    &&& x.unk10 == fu16(fs[11])
}

impl Png {
    /// Parses the cooked texture at `data[position..]`: the header, then on the
    /// Switch the rest of `data` as the XTX texture, on the Wii U a GFD texture.
    /// The Wii has no texture format here: a texture of the Wii whose header
    /// reads is left out.
    pub fn deserialize_at_with_ctx(data: &[u8], position: usize, ugi: UniqueGameId) -> (r: Result<Png, ReadError>)
        requires
            !(ugi.platform is Wii && png_header_at(data@, position as int) is Some),
        ensures
            match png_header_at(data@, position as int) {
                Some((fs, q)) => if ugi.platform is Nx {
                    r matches Ok(x) && png_header_matches(x, fs)
                        && (x.texture matches Texture::Xtx(b) && b@ == data@.subrange(q, data@.len() as int))
                } else {
                    match gtx_at(data@, q) {
                        Some((h, bs, pairs, _)) => r matches Ok(x) && png_header_matches(x, fs)
                            && (x.texture matches Texture::Gtx(g) && gtx_matches(g, h, bs, pairs)),
                        None => r is Err,
                    }
                },
                None => r is Err,
            },
            r matches Ok(x) ==> x.width == be16_at(data@, position + 16) && x.height == be16_at(data@, position + 18),
    {
        proof {
            assert forall|x: Png|
                #![trigger x.width]
                (match png_header_at(data@, position as int) {
                    Some((fs, _)) => png_header_matches(x, fs),
                    None => false,
                }) implies x.width == be16_at(data@, position + 16) && x.height == be16_at(data@, position + 18) by {
                lemma_png_header_read_positions(data@, position as int, x);
            }
        }
        let layout: Vec<FieldKind> = vec![
            FieldKind::U64, FieldKind::U32, FieldKind::U32, FieldKind::U16, FieldKind::U16, FieldKind::U16,
            FieldKind::U16, FieldKind::U32, FieldKind::U32, FieldKind::U32, FieldKind::U32, FieldKind::U16,
            FieldKind::U16,
        ];
        assert(layout@ =~= png_kinds());
        let (fs, q) = match read_fields(&layout, data, position) {
            Ok(x) => x,
            Err(e) => return Err(e),
        };
        let unk2 = get_u32(&fs, 2);
        let unk5 = get_u16(&fs, 6);
        let unk10 = get_u16(&fs, 11);
        if !(get_u64(&fs, 0) == 0x9_5445_5800 && get_u32(&fs, 1) == 0x2C && get_u16(&fs, 5) == 1
            && (unk5 == 0x1800 || unk5 == 0x1801 || unk5 == 0x2000 || unk5 == 0x2002)
            && get_u32(&fs, 7) == unk2 && get_u32(&fs, 8) == 0 && (unk10 == 0x0202 || unk10 == 0)) {
            return Err(ReadError);
        }
        let texture = match ugi.platform {
            Platform::Nx => Texture::Xtx(copy_range(data, q, data.len())),
            Platform::WiiU => match Gtx::deserialize_at(data, q) {
                Ok((g, _)) => Texture::Gtx(g),
                Err(e) => return Err(e),
            },
            Platform::Wii => return Err(ReadError),
        };
        Ok(Png {
            width: get_u16(&fs, 3),
            height: get_u16(&fs, 4),
            unk2,
            unk5,
            unk8: get_u32(&fs, 9),
            unk9: get_u32(&fs, 10),
            unk10,
            texture,
        })
    }
}

/// The 44 bytes of the header of `x`.
pub open spec fn png_header_bytes(x: Png) -> Seq<u8> {
    enc_u64(0x9_5445_5800) + enc_u32(0x2C) + enc_u32(x.unk2) + enc_u16(x.width) + enc_u16(x.height) + enc_u16(1)
        + enc_u16(x.unk5) + enc_u32(x.unk2) + enc_u32(0) + enc_u32(x.unk8) + enc_u32(x.unk9) + enc_u16(x.unk10)
        + enc_u16(0)
}

/// The byte offset of the header field `i` of a cooked texture.
spec fn png_offset(i: int) -> int {
    if i <= 0 { 0 } else if i == 1 { 8 } else if i == 2 { 12 } else if i <= 7 { 16 + 2 * (i - 3) }
    else if i <= 11 { 24 + 4 * (i - 7) } else { 40 + 2 * (i - 11) }
}

/// Decoding `ks.take(i + 1)` is decoding `ks.take(i)`, then the field `ks[i]`.
proof fn lemma_dec_run_take_step(ks: Seq<FieldKind>, s: Seq<u8>, p: int, i: int)
    requires
        0 <= i < ks.len(),
    ensures
        dec_run(ks.take(i + 1), s, p) == match dec_run(ks.take(i), s, p) {
            Some((fs, q)) => match dec_field(ks[i], s, q) {
                Some((f, q2)) => Some((fs.push(f), q2)),
                None => None,
            },
            None => None,
        },
{
    assert(ks.take(i + 1).drop_last() =~= ks.take(i));
}

/// Where the header reads at `s[p..]`, the first `k` of its fields read, and end at their offset.
proof fn lemma_png_prefix(s: Seq<u8>, p: int, k: int)
    requires
        0 <= k <= 13,
        png_header_at(s, p) is Some,
    ensures
        dec_run(png_kinds().take(k), s, p) matches Some((fs, q)) && q == p + png_offset(k) && fs.len() == k,
    decreases k,
{
    let ks = png_kinds();
    if dec_run(ks.take(k), s, p) is None {
        lemma_dec_run_none_prefix(ks, k, s, p);
    }
    if k == 0 {
        assert(ks.take(0) =~= Seq::<FieldKind>::empty());
    } else {
        lemma_png_prefix(s, p, k - 1);
        lemma_dec_run_take_step(ks, s, p, k - 1);
    }
}

/// Where the header reads at `s[p..]`, its field `i` is the field of its kind at its offset.
#[verifier::spinoff_prover]
proof fn lemma_png_field(s: Seq<u8>, p: int, i: int)
    requires
        0 <= i < 13,
        png_header_at(s, p) is Some,
    ensures
        dec_field(png_kinds()[i], s, p + png_offset(i)) is Some,
        dec_run(png_kinds(), s, p).unwrap().0[i] == dec_field(png_kinds()[i], s, p + png_offset(i)).unwrap().0,
{
    let ks = png_kinds();
    lemma_png_prefix(s, p, i);
    lemma_png_prefix(s, p, i + 1);
    lemma_dec_run_take_step(ks, s, p, i);
    lemma_dec_run_append(ks.take(i + 1), ks.skip(i + 1), s, p);
    assert(ks.take(i + 1) + ks.skip(i + 1) =~= ks);
}

/// Where the header of a cooked texture reads at `s[p..]`, it is 44 bytes, and
/// each value of a texture that holds it sits at its place: `unk2` the
/// big-endian `u32` at byte 12, the width the `u16` at byte 16, the height the
/// `u16` at byte 18, `unk5` the `u16` at 22, `unk8` and `unk9` the `u32` at 32
/// and 36, and `unk10` the `u16` at 40.
pub proof fn lemma_png_header_read_positions(s: Seq<u8>, p: int, x: Png)
    ensures
        png_header_at(s, p) matches Some((fs, q)) ==> q == p + 44,
        png_header_at(s, p) matches Some((fs, q)) ==> png_header_matches(x, fs) ==> x.unk2 == be32_at(s, p + 12)
            && x.width == be16_at(s, p + 16) && x.height == be16_at(s, p + 18) && x.unk5 == be16_at(s, p + 22)
            && x.unk8 == be32_at(s, p + 32) && x.unk9 == be32_at(s, p + 36) && x.unk10 == be16_at(s, p + 40),
{
    if png_header_at(s, p) is Some {
        let ks = png_kinds();
        lemma_png_prefix(s, p, 13);
        assert(ks.take(13) =~= ks);
        lemma_png_field(s, p, 2);
        lemma_png_field(s, p, 3);
        lemma_png_field(s, p, 4);
        lemma_png_field(s, p, 6);
        lemma_png_field(s, p, 9);
        lemma_png_field(s, p, 10);
        lemma_png_field(s, p, 11);
        lemma_be32_bound(s, p + 12);
        lemma_be32_bound(s, p + 32);
        lemma_be32_bound(s, p + 36);
    }
}


/// The header that the writer gives for `x` is 44 bytes, each value at its
/// place, big-endian: the magic number, the header size `0x2C`, `unk2` at byte
/// 12, the width at byte 16, the height at byte 18, a one, `unk5` at 22, `unk2`
/// again at 24, a zero word, `unk8` at 32, `unk9` at 36, `unk10` at 40 and a zero.
pub proof fn lemma_png_header_write_positions(x: Png)
    ensures
        png_header_bytes(x).len() == 44,
        png_header_bytes(x).subrange(0, 8) == enc_u64(0x9_5445_5800),
        png_header_bytes(x).subrange(8, 12) == enc_u32(0x2C),
        png_header_bytes(x).subrange(12, 16) == enc_u32(x.unk2),
        png_header_bytes(x).subrange(16, 18) == enc_u16(x.width),
        png_header_bytes(x).subrange(18, 20) == enc_u16(x.height),
        png_header_bytes(x).subrange(20, 22) == enc_u16(1),
        png_header_bytes(x).subrange(22, 24) == enc_u16(x.unk5),
        png_header_bytes(x).subrange(24, 28) == enc_u32(x.unk2),
        png_header_bytes(x).subrange(28, 32) == enc_u32(0),
        png_header_bytes(x).subrange(32, 36) == enc_u32(x.unk8),
        png_header_bytes(x).subrange(36, 40) == enc_u32(x.unk9),
        png_header_bytes(x).subrange(40, 42) == enc_u16(x.unk10),
        png_header_bytes(x).subrange(42, 44) == enc_u16(0),
{
    let h = png_header_bytes(x);
    assert(h.subrange(0, 8) =~= enc_u64(0x9_5445_5800));
    assert(h.subrange(8, 12) =~= enc_u32(0x2C));
    assert(h.subrange(12, 16) =~= enc_u32(x.unk2));
    assert(h.subrange(16, 18) =~= enc_u16(x.width));
    assert(h.subrange(18, 20) =~= enc_u16(x.height));
    assert(h.subrange(20, 22) =~= enc_u16(1));
    assert(h.subrange(22, 24) =~= enc_u16(x.unk5));
    assert(h.subrange(24, 28) =~= enc_u32(x.unk2));
    assert(h.subrange(28, 32) =~= enc_u32(0));
    assert(h.subrange(32, 36) =~= enc_u32(x.unk8));
    assert(h.subrange(36, 40) =~= enc_u32(x.unk9));
    assert(h.subrange(40, 42) =~= enc_u16(x.unk10));
    assert(h.subrange(42, 44) =~= enc_u16(0));
}

/// Writes the cooked texture into a new vector: the header, then the XTX
/// texture. A GFD texture cannot be written, which is an error.
pub fn create_vec(png: &Png) -> (r: Result<Vec<u8>, WriteError>)
    ensures
        match png.texture {
            Texture::Xtx(b) => r matches Ok(v) && v@ == png_header_bytes(*png) + b@,
            Texture::Gtx(_) => r is Err,
        },
{
    let xtx = match &png.texture {
        Texture::Xtx(b) => b,
        Texture::Gtx(_) => return Err(WriteError),
    };
    let mut v: Vec<u8> = Vec::new();
    push_u64(&mut v, 0x9_5445_5800);
    push_u32(&mut v, 0x2C);
    push_u32(&mut v, png.unk2);
    push_u16(&mut v, png.width);
    push_u16(&mut v, png.height);
    push_u16(&mut v, 1);
    push_u16(&mut v, png.unk5);
    push_u32(&mut v, png.unk2);
    push_u32(&mut v, 0);
    push_u32(&mut v, png.unk8);
    push_u32(&mut v, png.unk9);
    push_u16(&mut v, png.unk10);
    push_u16(&mut v, 0);
    push_bytes(&mut v, xtx.as_slice());
    assert(v@ =~= png_header_bytes(*png) + xtx@);
    Ok(v)
}

/// The fields that the header of `x` is written as.
pub open spec fn png_fields(x: Png) -> Seq<Fld> {
    seq![
        Fld::U64(0x9_5445_5800), Fld::U32(0x2C), Fld::U32(x.unk2), Fld::U16(x.width), Fld::U16(x.height),
        Fld::U16(1), Fld::U16(x.unk5), Fld::U32(x.unk2), Fld::U32(0), Fld::U32(x.unk8), Fld::U32(x.unk9),
        Fld::U16(x.unk10), Fld::U16(0),
    ]
}

/// Whether the header values of `x` are ones that the format allows.
pub open spec fn png_header_valid(x: Png) -> bool {
    &&& (x.unk5 == 0x1800 || x.unk5 == 0x1801 || x.unk5 == 0x2000 || x.unk5 == 0x2002)
    &&& (x.unk10 == 0x0202 || x.unk10 == 0)
}

/// Whether `x` and `y` have the same header values.
pub open spec fn png_same_header(x: Png, y: Png) -> bool {
    &&& x.width == y.width && x.height == y.height && x.unk2 == y.unk2 && x.unk5 == y.unk5
    &&& x.unk8 == y.unk8 && x.unk9 == y.unk9 && x.unk10 == y.unk10
}

/// Reading back a written texture of the Switch gives what was written: the
/// header decodes to the values of `x` and the XTX texture `b` follows it.
pub proof fn lemma_png_roundtrip(x: Png, b: Seq<u8>)
    requires
        png_header_valid(x),
    ensures
        png_header_at(png_header_bytes(x) + b, 0) == Some((png_fields(x), 44int)),
        (png_header_bytes(x) + b).subrange(44, (png_header_bytes(x) + b).len() as int) == b,
        forall|y: Png| png_header_matches(y, png_fields(x)) ==> png_same_header(y, x),
{
    let ks = png_kinds();
    let fs = png_fields(x);
    let s = png_header_bytes(x) + b;
    assert(enc_run(ks, fs) =~= png_header_bytes(x)) by {
        reveal_with_fuel(enc_run, 14);
    }
    assert(fits(ks, fs));
    assert(enc_ok(ks, fs));
    assert(dec_ok(ks, fs));
    assert(s.subrange(0, 44) =~= png_header_bytes(x));
    lemma_dec_enc_run(ks, fs, s, 0);
    assert(s.subrange(44, s.len() as int) =~= b);
}

} // verus!
