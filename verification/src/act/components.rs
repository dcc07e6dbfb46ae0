//! Parsing of the components whose layout is a single run of fields.
use vstd::prelude::*;
use crate::error::ReadError;
use crate::bytes::be32_at;
use crate::layout::lemma_dec_run_fits;
use crate::layout::{FieldKind, FieldValue, Fld, Seg, SegVal, Segment, dec_run, dec_segs, read_segs, segs_view, segvals_view, items_view, frun, fitems, fits, seg_fits, seg_run, seg_items, lemma_dec_segs_fits, read_fields, flds_view, fu32, fu64, fbytes, get_u32, get_u64, get_bytes, repeat, push_repeat};
use crate::utils::{Color, Game, InternedString, Platform, UniqueGameId};
use super::parser::{split_path_kinds, split_path_matches, split_path_from, push_split_path, interned_at, triple_matches, pair_matches};
use super::types::{
    AaBb, BoxInterpolatorComponent, CameraGraphicComponent, ClearColorComponent, ConvertedTmlTapeComponent,
    FixedCameraComponent, FXControllerComponent, GFXMaterialSerializable, GFXMaterialSerializableParam,
    GFXMaterialTexturePathSet, GFXPrimitiveParam, PleoComponent, RegistrationComponent,
    SingleInstanceMesh3DComponent, TextureGraphicComponent, MaterialGraphicComponent, UITextBox, CreditsComponent, CarouselAnimItemsDesc, Unknown77F7D66C, ViewportUIComponent, PictoTimeline,
};

verus! {

/// The fields of the run `ks` at `s[p..]`, where they decode and meet `ok`, and the position after them.
pub open spec fn record_at(ks: Seq<FieldKind>, ok: spec_fn(Seq<Fld>) -> bool, s: Seq<u8>, p: int) -> Option<(Seq<Fld>, int)> {
    match dec_run(ks, s, p) {
        Some((fs, q)) => if ok(fs) {
            Some((fs, q))
        } else {
            None
        },
        None => None,
    }
}

/// Whether the bits `b` are those of an `f32` equal to zero (`0.0` or `-0.0`).
pub open spec fn is_zero_f32(b: u32) -> bool {
    b == 0 || b == 0x8000_0000
}

/// Whether the bits `b` are those of an `f32` equal to zero (`0.0` or `-0.0`).
pub fn zero_f32(b: u32) -> (r: bool)
    ensures
        r == is_zero_f32(b),
{
    b == 0 || b == 0x8000_0000
}

/// Whether `c` is the color whose four channels start at `fs[o]`.
pub open spec fn color_matches(c: Color, fs: Seq<Fld>, o: int) -> bool {
    c.color == (fu32(fs[o]), fu32(fs[o + 1]), fu32(fs[o + 2]), fu32(fs[o + 3]))
}

/// The color whose four channels start at `fs[o]`.
pub fn color_from(fs: &Vec<FieldValue>, o: usize) -> (r: Color)
    requires
        o + 4 <= fs@.len(),
    ensures
        color_matches(r, flds_view(fs@), o as int),
{
    assert(fs@.len() == fs.len());
    Color { color: (get_u32(fs, o), get_u32(fs, o + 1), get_u32(fs, o + 2), get_u32(fs, o + 3)) }
}

// ---------------------------------------------------------------- primitive parameters

/// The primitive parameters as the format requires them: a white color factor
/// (each channel exactly `1.0`) and no occlusion info.
pub open spec fn prim_ok(fs: Seq<Fld>, o: int) -> bool {
    &&& fu32(fs[o]) == 0x3F80_0000
    &&& fu32(fs[o + 1]) == 0x3F80_0000
    &&& fu32(fs[o + 2]) == 0x3F80_0000
    &&& fu32(fs[o + 3]) == 0x3F80_0000
    &&& fu32(fs[o + 4]) == 0
}

/// Whether `pp` holds the primitive parameters whose five fields start at `fs[o]`.
pub open spec fn prim_matches(pp: GFXPrimitiveParam, fs: Seq<Fld>, o: int) -> bool {
    &&& color_matches(pp.color_factor, fs, o)
    &&& pp.gfx_occlude_info == fu32(fs[o + 4])
}

fn prim_check(fs: &Vec<FieldValue>, o: usize) -> (r: Result<GFXPrimitiveParam, ReadError>)
    requires
        o + 5 <= fs@.len(),
    ensures
        match r {
            Ok(pp) => prim_ok(flds_view(fs@), o as int) && prim_matches(pp, flds_view(fs@), o as int),
            Err(_) => !prim_ok(flds_view(fs@), o as int),
        },
{
    assert(fs@.len() == fs.len());
    let c = color_from(fs, o);
    let occlude = get_u32(fs, o + 4);
    if c.color.0 == 0x3F80_0000 && c.color.1 == 0x3F80_0000 && c.color.2 == 0x3F80_0000
        && c.color.3 == 0x3F80_0000 && occlude == 0 {
        Ok(GFXPrimitiveParam { color_factor: c, gfx_occlude_info: occlude })
    } else {
        Err(ReadError)
    }
}

// ---------------------------------------------------------------- materials

/// The fields of a texture set: nine split paths.
pub open spec fn texture_set_kinds() -> Seq<FieldKind> {
    split_path_kinds() + split_path_kinds() + split_path_kinds() + split_path_kinds() + split_path_kinds()
        + split_path_kinds() + split_path_kinds() + split_path_kinds() + split_path_kinds()
}

/// Whether `t` holds the texture set whose fields start at `fs[o]`.
pub open spec fn texture_set_matches(t: GFXMaterialTexturePathSet, fs: Seq<Fld>, o: int) -> bool {
    &&& split_path_matches(t.diffuse, fs, o)
    &&& split_path_matches(t.back_light, fs, o + 4)
    &&& split_path_matches(t.normal, fs, o + 8)
    &&& split_path_matches(t.separate_alpha, fs, o + 12)
    &&& split_path_matches(t.diffuse_2, fs, o + 16)
    &&& split_path_matches(t.back_light_2, fs, o + 20)
    &&& split_path_matches(t.anim_impostor, fs, o + 24)
    &&& split_path_matches(t.diffuse_3, fs, o + 28)
    &&& split_path_matches(t.diffuse_4, fs, o + 32)
}

/// The fields of a material: its texture set, the ATL channel, the ATL and
/// shader paths, the reflector factor, the stencil test and the alpha test and reference.
pub open spec fn material_kinds() -> Seq<FieldKind> {
    texture_set_kinds() + seq![FieldKind::U32] + split_path_kinds() + split_path_kinds()
        + repeat(FieldKind::U32, 4)
}

/// The material as the format requires it: ATL channel 0, a reflector factor
/// of zero, no stencil test, and both alpha values `u32::MAX`.
pub open spec fn material_ok(fs: Seq<Fld>, o: int) -> bool {
    &&& fu32(fs[o + 36]) == 0
    &&& is_zero_f32(fu32(fs[o + 45]))
    &&& fu32(fs[o + 46]) == 0
    &&& fu32(fs[o + 47]) == 0xFFFF_FFFF
    &&& fu32(fs[o + 48]) == 0xFFFF_FFFF
}

/// Whether `m` holds the material whose 49 fields start at `fs[o]`.
pub open spec fn material_matches(m: GFXMaterialSerializable, fs: Seq<Fld>, o: int) -> bool {
    &&& texture_set_matches(m.texture_set, fs, o)
    &&& m.atl_channel == fu32(fs[o + 36])
    &&& split_path_matches(m.atl_path, fs, o + 37)
    &&& split_path_matches(m.shader_path, fs, o + 41)
    &&& m.material_params.reflector_factor == fu32(fs[o + 45])
    &&& m.stencil_test == fu32(fs[o + 46])
    &&& m.alpha_test == fu32(fs[o + 47])
    &&& m.alpha_ref == fu32(fs[o + 48])
}

fn push_material(v: &mut Vec<FieldKind>)
    ensures
        final(v)@ == old(v)@ + material_kinds(),
{
    let mut i: usize = 0;
    while i < 9
        invariant
            i <= 9,
            v@ == old(v)@ + repeat_split_paths(i as nat),
        decreases 9 - i,
    {
        push_split_path(v);
        i = i + 1;
    }
    v.push(FieldKind::U32);
    push_split_path(v);
    push_split_path(v);
    push_repeat(v, FieldKind::U32, 4);
    assert(repeat_split_paths(9) =~= texture_set_kinds()) by {
        reveal_with_fuel(repeat_split_paths, 10);
    }
    assert(v@ =~= old(v)@ + material_kinds());
}

/// `n` split paths, one after the other.
pub open spec fn repeat_split_paths(n: nat) -> Seq<FieldKind>
    decreases n,
{
    if n == 0 {
        Seq::empty()
    } else {
        repeat_split_paths((n - 1) as nat) + split_path_kinds()
    }
}

/// `n` split paths have `4 * n` fields.
pub proof fn lemma_repeat_split_paths_len(n: nat)
    ensures
        repeat_split_paths(n).len() == 4 * n,
    decreases n,
{
    if n > 0 {
        lemma_repeat_split_paths_len((n - 1) as nat);
    }
}

fn texture_set_from(fs: &Vec<FieldValue>, o: usize) -> (r: GFXMaterialTexturePathSet)
    requires
        o + 36 <= fs@.len(),
    ensures
        texture_set_matches(r, flds_view(fs@), o as int),
{
    assert(fs@.len() == fs.len());
    GFXMaterialTexturePathSet {
        diffuse: split_path_from(fs, o),
        back_light: split_path_from(fs, o + 4),
        normal: split_path_from(fs, o + 8),
        separate_alpha: split_path_from(fs, o + 12),
        diffuse_2: split_path_from(fs, o + 16),
        back_light_2: split_path_from(fs, o + 20),
        anim_impostor: split_path_from(fs, o + 24),
        diffuse_3: split_path_from(fs, o + 28),
        diffuse_4: split_path_from(fs, o + 32),
    }
}

fn material_check(fs: &Vec<FieldValue>, o: usize) -> (r: Result<GFXMaterialSerializable, ReadError>)
    requires
        o + 49 <= fs@.len(),
    ensures
        match r {
            Ok(m) => material_ok(flds_view(fs@), o as int) && material_matches(m, flds_view(fs@), o as int),
            Err(_) => !material_ok(flds_view(fs@), o as int),
        },
{
    assert(fs@.len() == fs.len());
    let m = GFXMaterialSerializable {
        atl_channel: get_u32(fs, o + 36),
        atl_path: split_path_from(fs, o + 37),
        shader_path: split_path_from(fs, o + 41),
        stencil_test: get_u32(fs, o + 46),
        alpha_test: get_u32(fs, o + 47),
        alpha_ref: get_u32(fs, o + 48),
        texture_set: texture_set_from(fs, o),
        material_params: GFXMaterialSerializableParam { reflector_factor: get_u32(fs, o + 45) },
    };
    if m.atl_channel == 0 && zero_f32(m.material_params.reflector_factor) && m.stencil_test == 0
        && m.alpha_test == 0xFFFF_FFFF && m.alpha_ref == 0xFFFF_FFFF {
        Ok(m)
    } else {
        Err(ReadError)
    }
}

// ---------------------------------------------------------------- BoxInterpolatorComponent

/// The fields of a box interpolator component.
pub open spec fn box_interpolator_kinds() -> Seq<FieldKind> {
    repeat(FieldKind::U32, 9)
}

/// Whether the fields of a box interpolator component hold what the format requires.
pub open spec fn box_interpolator_ok(fs: Seq<Fld>) -> bool {
    &&& fu32(fs[0]) == 0xF513_60DA
}

/// Whether `x` holds the values of the fields `fs` of a box interpolator component.
pub open spec fn box_interpolator_matches(x: BoxInterpolatorComponent, fs: Seq<Fld>) -> bool {
    &&& x.inner_box.min@ == seq![fu32(fs[1]), fu32(fs[2])]
    &&& x.inner_box.max@ == seq![fu32(fs[3]), fu32(fs[4])]
    &&& x.outer_box.min@ == seq![fu32(fs[5]), fu32(fs[6])]
    &&& x.outer_box.max@ == seq![fu32(fs[7]), fu32(fs[8])]
}

fn box_interpolator_layout() -> (r: Vec<FieldKind>)
    ensures
        r@ == box_interpolator_kinds(),
{
    let mut v: Vec<FieldKind> = Vec::new();
    push_repeat(&mut v, FieldKind::U32, 9);
    assert(v@ =~= box_interpolator_kinds());
    v
}

/// The fields of a box interpolator component at `s[p..]`, where they decode and hold what the format requires, and the position after them.
pub open spec fn box_interpolator_at(s: Seq<u8>, p: int) -> Option<(Seq<Fld>, int)> {
    record_at(box_interpolator_kinds(), |fs: Seq<Fld>| box_interpolator_ok(fs), s, p)
}

impl BoxInterpolatorComponent {
    /// Parses a box interpolator component at `data[position..]`; returns it and the position after it.
    pub fn deserialize_at_with(data: &[u8], position: usize, _ugi: UniqueGameId) -> (r: Result<(BoxInterpolatorComponent, usize), ReadError>)
        ensures
            match box_interpolator_at(data@, position as int) {
                Some((fs, q)) => r matches Ok((x, e)) && e == q && box_interpolator_matches(x, fs),
                None => r is Err,
            },
    {
        let layout = box_interpolator_layout();
        let (fs, q) = match read_fields(&layout, data, position) {
            Ok(x) => x,
            Err(e) => return Err(e),
        };
        assert(fs@.len() == fs.len());
        if !(get_u32(&fs, 0) == 0xF513_60DA) {
            return Err(ReadError);
        }
        let x = BoxInterpolatorComponent {
            inner_box: AaBb { min: [get_u32(&fs, 1), get_u32(&fs, 2)], max: [get_u32(&fs, 3), get_u32(&fs, 4)] },
            outer_box: AaBb { min: [get_u32(&fs, 5), get_u32(&fs, 6)], max: [get_u32(&fs, 7), get_u32(&fs, 8)] },
        };
        Ok((x, q))
    }
}

// ---------------------------------------------------------------- CameraGraphicComponent

/// The fields of a camera graphic component.
pub open spec fn camera_graphic_kinds() -> Seq<FieldKind> {
    repeat(FieldKind::U32, 14) + material_kinds() + repeat(FieldKind::U32, 7)
}

/// Whether the fields of a camera graphic component hold what the format requires.
pub open spec fn camera_graphic_ok(fs: Seq<Fld>) -> bool {
    &&& fu32(fs[0]) == 0xC760_4FA1
    &&& prim_ok(fs, 1)
    &&& fu32(fs[6]) == 0
    &&& fu32(fs[7]) == 0
    &&& fu32(fs[8]) == 0
    &&& fu32(fs[9]) == 0xFFFF_FFFF
    &&& fu32(fs[10]) == 0
    &&& fu32(fs[11]) == 1
    &&& fu32(fs[12]) == 0
    &&& fu32(fs[13]) == 0
    &&& material_ok(fs, 14)
    &&& fu32(fs[63]) == 0
    &&& fu32(fs[64]) == 0
    &&& fu32(fs[65]) == 0
    &&& fu32(fs[66]) == 0x3F80_0000
    &&& fu32(fs[67]) == 0
    &&& fu32(fs[68]) == 0
    &&& fu32(fs[69]) == 1
}

/// Whether `x` holds the values of the fields `fs` of a camera graphic component.
pub open spec fn camera_graphic_matches(x: CameraGraphicComponent, fs: Seq<Fld>) -> bool {
    &&& prim_matches(x.primitive_parameters, fs, 1)
    &&& x.color_computer_tag_id == 0
    &&& x.render_in_target == 0
    &&& x.disable_light == 0
    &&& x.disable_shadow == fu32(fs[9])
    &&& x.atlas_index == 0
    &&& x.custom_anchor@ == seq![0u32, 0u32]
    &&& x.sinus_amplitude@ == seq![0u32, 0u32, 0u32]
    &&& x.sinus_speed == fu32(fs[66])
    &&& x.angle_x == 0
    &&& x.angle_y == 0
    &&& x.anchor == fu32(fs[11])
    &&& x.old_anchor == fu32(fs[69])
    &&& material_matches(x.material, fs, 14)
}

fn camera_graphic_layout() -> (r: Vec<FieldKind>)
    ensures
        r@ == camera_graphic_kinds(),
{
    let mut v: Vec<FieldKind> = Vec::new();
    push_repeat(&mut v, FieldKind::U32, 14);
    push_material(&mut v);
    push_repeat(&mut v, FieldKind::U32, 7);
    assert(v@ =~= camera_graphic_kinds());
    v
}

/// The fields of a camera graphic component at `s[p..]`, where they decode and hold what the format requires, and the position after them.
pub open spec fn camera_graphic_at(s: Seq<u8>, p: int) -> Option<(Seq<Fld>, int)> {
    record_at(camera_graphic_kinds(), |fs: Seq<Fld>| camera_graphic_ok(fs), s, p)
}

impl CameraGraphicComponent {
    /// Parses a camera graphic component at `data[position..]`; returns it and the position after it.
    pub fn deserialize_at_with(data: &[u8], position: usize, _ugi: UniqueGameId) -> (r: Result<(CameraGraphicComponent, usize), ReadError>)
        ensures
            match camera_graphic_at(data@, position as int) {
                Some((fs, q)) => r matches Ok((x, e)) && e == q && camera_graphic_matches(x, fs),
                None => r is Err,
            },
    {
        let layout = camera_graphic_layout();
        let (fs, q) = match read_fields(&layout, data, position) {
            Ok(x) => x,
            Err(e) => return Err(e),
        };
        assert(fs@.len() == fs.len());
        let prim_1 = match prim_check(&fs, 1) { Ok(x) => x, Err(e) => return Err(e) };
        let mat_14 = match material_check(&fs, 14) { Ok(x) => x, Err(e) => return Err(e) };
        if !(get_u32(&fs, 0) == 0xC760_4FA1
            && get_u32(&fs, 6) == 0
            && get_u32(&fs, 7) == 0
            && get_u32(&fs, 8) == 0
            && get_u32(&fs, 9) == 0xFFFF_FFFF
            && get_u32(&fs, 10) == 0
            && get_u32(&fs, 11) == 1
            && get_u32(&fs, 12) == 0
            && get_u32(&fs, 13) == 0
            && get_u32(&fs, 63) == 0
            && get_u32(&fs, 64) == 0
            && get_u32(&fs, 65) == 0
            && get_u32(&fs, 66) == 0x3F80_0000
            && get_u32(&fs, 67) == 0
            && get_u32(&fs, 68) == 0
            && get_u32(&fs, 69) == 1) {
            return Err(ReadError);
        }
        let x = CameraGraphicComponent {
            primitive_parameters: prim_1,
            color_computer_tag_id: 0,
            render_in_target: 0,
            disable_light: 0,
            disable_shadow: get_u32(&fs, 9),
            atlas_index: 0,
            custom_anchor: [0, 0],
            sinus_amplitude: [0, 0, 0],
            sinus_speed: get_u32(&fs, 66),
            angle_x: 0,
            angle_y: 0,
            anchor: get_u32(&fs, 11),
            old_anchor: get_u32(&fs, 69),
            material: mat_14,
        };
        Ok((x, q))
    }
}

// ---------------------------------------------------------------- ClearColorComponent

/// The fields of a clear color component.
pub open spec fn clear_color_kinds() -> Seq<FieldKind> {
    repeat(FieldKind::U32, 13)
}

/// Whether the fields of a clear color component hold what the format requires.
pub open spec fn clear_color_ok(fs: Seq<Fld>) -> bool {
    &&& fu32(fs[0]) == 0xAEBB_218B
}

/// Whether `x` holds the values of the fields `fs` of a clear color component.
pub open spec fn clear_color_matches(x: ClearColorComponent, fs: Seq<Fld>) -> bool {
    &&& color_matches(x.clear_color, fs, 1)
    &&& color_matches(x.clear_front_light_color, fs, 5)
    &&& color_matches(x.clear_back_light_color, fs, 9)
}

fn clear_color_layout() -> (r: Vec<FieldKind>)
    ensures
        r@ == clear_color_kinds(),
{
    let mut v: Vec<FieldKind> = Vec::new();
    push_repeat(&mut v, FieldKind::U32, 13);
    assert(v@ =~= clear_color_kinds());
    v
}

/// The fields of a clear color component at `s[p..]`, where they decode and hold what the format requires, and the position after them.
pub open spec fn clear_color_at(s: Seq<u8>, p: int) -> Option<(Seq<Fld>, int)> {
    record_at(clear_color_kinds(), |fs: Seq<Fld>| clear_color_ok(fs), s, p)
}

impl ClearColorComponent {
    /// Parses a clear color component at `data[position..]`; returns it and the position after it.
    pub fn deserialize_at_with(data: &[u8], position: usize, _ugi: UniqueGameId) -> (r: Result<(ClearColorComponent, usize), ReadError>)
        ensures
            match clear_color_at(data@, position as int) {
                Some((fs, q)) => r matches Ok((x, e)) && e == q && clear_color_matches(x, fs),
                None => r is Err,
            },
    {
        let layout = clear_color_layout();
        let (fs, q) = match read_fields(&layout, data, position) {
            Ok(x) => x,
            Err(e) => return Err(e),
        };
        assert(fs@.len() == fs.len());
        if !(get_u32(&fs, 0) == 0xAEBB_218B) {
            return Err(ReadError);
        }
        let x = ClearColorComponent {
            clear_color: color_from(&fs, 1),
            clear_front_light_color: color_from(&fs, 5),
            clear_back_light_color: color_from(&fs, 9),
        };
        Ok((x, q))
    }
}

// ---------------------------------------------------------------- ConvertedTmlTapeComponent

/// The fields of a converted tape component.
pub open spec fn converted_tml_tape_kinds() -> Seq<FieldKind> {
    repeat(FieldKind::U32, 1) + seq![FieldKind::Str]
}

/// Whether the fields of a converted tape component hold what the format requires.
pub open spec fn converted_tml_tape_ok(fs: Seq<Fld>) -> bool {
    &&& fu32(fs[0]) == 0xCD07_BB76
}

/// Whether `x` holds the values of the fields `fs` of a converted tape component.
pub open spec fn converted_tml_tape_matches(x: ConvertedTmlTapeComponent, fs: Seq<Fld>) -> bool {
    &&& x.map_name@ == fbytes(fs[1])
}

fn converted_tml_tape_layout() -> (r: Vec<FieldKind>)
    ensures
        r@ == converted_tml_tape_kinds(),
{
    let mut v: Vec<FieldKind> = Vec::new();
    push_repeat(&mut v, FieldKind::U32, 1);
    v.push(FieldKind::Str);
    assert(v@ =~= converted_tml_tape_kinds());
    v
}

/// The fields of a converted tape component at `s[p..]`, where they decode and hold what the format requires, and the position after them.
pub open spec fn converted_tml_tape_at(s: Seq<u8>, p: int) -> Option<(Seq<Fld>, int)> {
    record_at(converted_tml_tape_kinds(), |fs: Seq<Fld>| converted_tml_tape_ok(fs), s, p)
}

impl ConvertedTmlTapeComponent {
    /// Parses a converted tape component at `data[position..]`; returns it and the position after it.
    pub fn deserialize_at_with(data: &[u8], position: usize, _ugi: UniqueGameId) -> (r: Result<(ConvertedTmlTapeComponent, usize), ReadError>)
        ensures
            match converted_tml_tape_at(data@, position as int) {
                Some((fs, q)) => r matches Ok((x, e)) && e == q && converted_tml_tape_matches(x, fs),
                None => r is Err,
            },
    {
        let layout = converted_tml_tape_layout();
        let (fs, q) = match read_fields(&layout, data, position) {
            Ok(x) => x,
            Err(e) => return Err(e),
        };
        assert(fs@.len() == fs.len());
        if !(get_u32(&fs, 0) == 0xCD07_BB76) {
            return Err(ReadError);
        }
        let x = ConvertedTmlTapeComponent {
            map_name: get_bytes(&fs, 1),
        };
        Ok((x, q))
    }
}

// ---------------------------------------------------------------- FixedCameraComponent

/// The fields of a fixed camera component.
pub open spec fn fixed_camera_kinds() -> Seq<FieldKind> {
    repeat(FieldKind::U32, 6)
}

/// Whether the fields of a fixed camera component hold what the format requires.
pub open spec fn fixed_camera_ok(fs: Seq<Fld>) -> bool {
    &&& fu32(fs[0]) == 0x3D5D_EBA2
}

/// Whether `x` holds the values of the fields `fs` of a fixed camera component.
pub open spec fn fixed_camera_matches(x: FixedCameraComponent, fs: Seq<Fld>) -> bool {
    &&& x.remote == fu32(fs[1])
    &&& triple_matches(x.offset, fs, 2)
    &&& x.start_as_main_cam == fu32(fs[5])
}

fn fixed_camera_layout() -> (r: Vec<FieldKind>)
    ensures
        r@ == fixed_camera_kinds(),
{
    let mut v: Vec<FieldKind> = Vec::new();
    push_repeat(&mut v, FieldKind::U32, 6);
    assert(v@ =~= fixed_camera_kinds());
    v
}

/// The fields of a fixed camera component at `s[p..]`, where they decode and hold what the format requires, and the position after them.
pub open spec fn fixed_camera_at(s: Seq<u8>, p: int) -> Option<(Seq<Fld>, int)> {
    record_at(fixed_camera_kinds(), |fs: Seq<Fld>| fixed_camera_ok(fs), s, p)
}

impl FixedCameraComponent {
    /// Parses a fixed camera component at `data[position..]`; returns it and the position after it.
    pub fn deserialize_at_with(data: &[u8], position: usize, _ugi: UniqueGameId) -> (r: Result<(FixedCameraComponent, usize), ReadError>)
        ensures
            match fixed_camera_at(data@, position as int) {
                Some((fs, q)) => r matches Ok((x, e)) && e == q && fixed_camera_matches(x, fs),
                None => r is Err,
            },
    {
        let layout = fixed_camera_layout();
        let (fs, q) = match read_fields(&layout, data, position) {
            Ok(x) => x,
            Err(e) => return Err(e),
        };
        assert(fs@.len() == fs.len());
        if !(get_u32(&fs, 0) == 0x3D5D_EBA2) {
            return Err(ReadError);
        }
        let x = FixedCameraComponent {
            remote: get_u32(&fs, 1),
            offset: [get_u32(&fs, 2), get_u32(&fs, 3), get_u32(&fs, 4)],
            start_as_main_cam: get_u32(&fs, 5),
        };
        Ok((x, q))
    }
}

// ---------------------------------------------------------------- FXControllerComponent

/// The fields of an FX controller component.
pub open spec fn fx_controller_kinds() -> Seq<FieldKind> {
    repeat(FieldKind::U32, 3)
}

/// Whether the fields of an FX controller component hold what the format requires.
pub open spec fn fx_controller_ok(fs: Seq<Fld>) -> bool {
    &&& fu32(fs[0]) == 0x8D4F_FFB6
}

/// Whether `x` holds the values of the fields `fs` of an FX controller component.
pub open spec fn fx_controller_matches(x: FXControllerComponent, fs: Seq<Fld>) -> bool {
    &&& x.allow_bus_mix_events == fu32(fs[1])
    &&& x.allow_music_events == fu32(fs[2])
}

fn fx_controller_layout() -> (r: Vec<FieldKind>)
    ensures
        r@ == fx_controller_kinds(),
{
    let mut v: Vec<FieldKind> = Vec::new();
    push_repeat(&mut v, FieldKind::U32, 3);
    assert(v@ =~= fx_controller_kinds());
    v
}

/// The fields of an FX controller component at `s[p..]`, where they decode and hold what the format requires, and the position after them.
pub open spec fn fx_controller_at(s: Seq<u8>, p: int) -> Option<(Seq<Fld>, int)> {
    record_at(fx_controller_kinds(), |fs: Seq<Fld>| fx_controller_ok(fs), s, p)
}

impl FXControllerComponent {
    /// Parses an FX controller component at `data[position..]`; returns it and the position after it.
    pub fn deserialize_at_with(data: &[u8], position: usize, _ugi: UniqueGameId) -> (r: Result<(FXControllerComponent, usize), ReadError>)
        ensures
            match fx_controller_at(data@, position as int) {
                Some((fs, q)) => r matches Ok((x, e)) && e == q && fx_controller_matches(x, fs),
                None => r is Err,
            },
    {
        let layout = fx_controller_layout();
        let (fs, q) = match read_fields(&layout, data, position) {
            Ok(x) => x,
            Err(e) => return Err(e),
        };
        assert(fs@.len() == fs.len());
        if !(get_u32(&fs, 0) == 0x8D4F_FFB6) {
            return Err(ReadError);
        }
        let x = FXControllerComponent {
            allow_bus_mix_events: get_u32(&fs, 1),
            allow_music_events: get_u32(&fs, 2),
        };
        Ok((x, q))
    }
}

// ---------------------------------------------------------------- PleoComponent

/// The fields of a video player component.
pub open spec fn pleo_kinds() -> Seq<FieldKind> {
    split_path_kinds() + split_path_kinds() + seq![FieldKind::Str]
}

/// Whether the fields of a video player component hold what the format requires.
pub open spec fn pleo_ok(fs: Seq<Fld>) -> bool {
    true
}

/// Whether `x` holds the values of the fields `fs` of a video player component.
pub open spec fn pleo_matches(x: PleoComponent, fs: Seq<Fld>) -> bool {
    &&& split_path_matches(x.video, fs, 0)
    &&& split_path_matches(x.dash_mpd, fs, 4)
    &&& x.channel_id@ == fbytes(fs[8])
}

fn pleo_layout() -> (r: Vec<FieldKind>)
    ensures
        r@ == pleo_kinds(),
{
    let mut v: Vec<FieldKind> = Vec::new();
    push_split_path(&mut v);
    push_split_path(&mut v);
    v.push(FieldKind::Str);
    assert(v@ =~= pleo_kinds());
    v
}

/// The fields of a video player component at `s[p..]`, where they decode and hold what the format requires, and the position after them.
pub open spec fn pleo_at(s: Seq<u8>, p: int) -> Option<(Seq<Fld>, int)> {
    record_at(pleo_kinds(), |fs: Seq<Fld>| pleo_ok(fs), s, p)
}

impl PleoComponent {
    /// Parses a video player component at `data[position..]`; returns it and the position after it.
    pub fn deserialize_at_with(data: &[u8], position: usize, _ugi: UniqueGameId) -> (r: Result<(PleoComponent, usize), ReadError>)
        ensures
            match pleo_at(data@, position as int) {
                Some((fs, q)) => r matches Ok((x, e)) && e == q && pleo_matches(x, fs),
                None => r is Err,
            },
    {
        let layout = pleo_layout();
        let (fs, q) = match read_fields(&layout, data, position) {
            Ok(x) => x,
            Err(e) => return Err(e),
        };
        assert(fs@.len() == fs.len());
        let x = PleoComponent {
            video: split_path_from(&fs, 0),
            dash_mpd: split_path_from(&fs, 4),
            channel_id: get_bytes(&fs, 8),
        };
        Ok((x, q))
    }
}

// ---------------------------------------------------------------- RegistrationComponent

/// The fields of a registration component.
pub open spec fn registration_kinds() -> Seq<FieldKind> {
    repeat(FieldKind::U32, 2) + seq![FieldKind::Str]
}

/// Whether the fields of a registration component hold what the format requires.
pub open spec fn registration_ok(fs: Seq<Fld>) -> bool {
    &&& fu32(fs[0]) == 0xE0A2_4B6D
    &&& InternedString::known(fu32(fs[1]))
}

/// Whether `x` holds the values of the fields `fs` of a registration component.
pub open spec fn registration_matches(x: RegistrationComponent, fs: Seq<Fld>) -> bool {
    &&& x.tag.spec_id() == fu32(fs[1])
    &&& x.user_data@ == fbytes(fs[2])
}

fn registration_layout() -> (r: Vec<FieldKind>)
    ensures
        r@ == registration_kinds(),
{
    let mut v: Vec<FieldKind> = Vec::new();
    push_repeat(&mut v, FieldKind::U32, 2);
    v.push(FieldKind::Str);
    assert(v@ =~= registration_kinds());
    v
}

/// The fields of a registration component at `s[p..]`, where they decode and hold what the format requires, and the position after them.
pub open spec fn registration_at(s: Seq<u8>, p: int) -> Option<(Seq<Fld>, int)> {
    record_at(registration_kinds(), |fs: Seq<Fld>| registration_ok(fs), s, p)
}

impl RegistrationComponent {
    /// Parses a registration component at `data[position..]`; returns it and the position after it.
    pub fn deserialize_at_with(data: &[u8], position: usize, _ugi: UniqueGameId) -> (r: Result<(RegistrationComponent, usize), ReadError>)
        ensures
            match registration_at(data@, position as int) {
                Some((fs, q)) => r matches Ok((x, e)) && e == q && registration_matches(x, fs),
                None => r is Err,
            },
    {
        let layout = registration_layout();
        let (fs, q) = match read_fields(&layout, data, position) {
            Ok(x) => x,
            Err(e) => return Err(e),
        };
        assert(fs@.len() == fs.len());
        let interned_1 = match interned_at(&fs, 1) { Ok(x) => x, Err(e) => return Err(e) };
        if !(get_u32(&fs, 0) == 0xE0A2_4B6D) {
            return Err(ReadError);
        }
        let x = RegistrationComponent {
            tag: interned_1,
            user_data: get_bytes(&fs, 2),
        };
        Ok((x, q))
    }
}

// ---------------------------------------------------------------- SingleInstanceMesh3DComponent

/// The fields of a single-instance 3D mesh component (Just Dance 2017 and earlier).
pub open spec fn single_instance_mesh_kinds() -> Seq<FieldKind> {
    repeat(FieldKind::U32, 12) + material_kinds() + split_path_kinds() + repeat(FieldKind::U32, 1) + split_path_kinds() + split_path_kinds() + split_path_kinds() + repeat(FieldKind::U32, 16)
}

/// Whether the fields of a single-instance 3D mesh component (Just Dance 2017 and earlier) hold what the format requires.
pub open spec fn single_instance_mesh_ok(fs: Seq<Fld>, ugi: UniqueGameId) -> bool {
    &&& ugi.game.order() <= 2
    &&& fu32(fs[0]) == 0x53E3_2AF7
    &&& prim_ok(fs, 1)
    &&& fu32(fs[6]) == 0
    &&& fu32(fs[7]) == 0
    &&& fu32(fs[8]) == 0
    &&& fu32(fs[9]) == 0xFFFF_FFFF
    &&& fu32(fs[10]) == 0
    &&& fu32(fs[11]) == 1
    &&& material_ok(fs, 12)
    &&& fu32(fs[65]) == 0
}

/// Whether `x` holds the values of the fields `fs` of a single-instance 3D mesh component (Just Dance 2017 and earlier).
pub open spec fn single_instance_mesh_matches(x: SingleInstanceMesh3DComponent, fs: Seq<Fld>) -> bool {
    &&& prim_matches(x.primitive_parameters, fs, 1)
    &&& x.color_computer_tag_id == fu32(fs[6])
    &&& x.render_in_target == fu32(fs[7])
    &&& x.disable_light == fu32(fs[8])
    &&& x.disable_shadow == fu32(fs[9])
    &&& x.animation_player_mode == fu32(fs[10])
    &&& x.scale_z == 0
    &&& material_matches(x.material, fs, 12)
    &&& split_path_matches(x.mesh_3d, fs, 61)
    &&& split_path_matches(x.skeleton_3d, fs, 66)
    &&& split_path_matches(x.animation_3d, fs, 70)
    &&& split_path_matches(x.animation_node, fs, 74)
    &&& color_matches(x.orientation[0], fs, 78)
    &&& color_matches(x.orientation[1], fs, 82)
    &&& color_matches(x.orientation[2], fs, 86)
    &&& color_matches(x.orientation[3], fs, 90)
}

fn single_instance_mesh_layout() -> (r: Vec<FieldKind>)
    ensures
        r@ == single_instance_mesh_kinds(),
{
    let mut v: Vec<FieldKind> = Vec::new();
    push_repeat(&mut v, FieldKind::U32, 12);
    push_material(&mut v);
    push_split_path(&mut v);
    push_repeat(&mut v, FieldKind::U32, 1);
    push_split_path(&mut v);
    push_split_path(&mut v);
    push_split_path(&mut v);
    push_repeat(&mut v, FieldKind::U32, 16);
    assert(v@ =~= single_instance_mesh_kinds());
    v
}

/// The fields of a single-instance 3D mesh component (Just Dance 2017 and earlier) at `s[p..]`, where they decode and hold what the format requires, and the position after them.
pub open spec fn single_instance_mesh_at(s: Seq<u8>, p: int, ugi: UniqueGameId) -> Option<(Seq<Fld>, int)> {
    record_at(single_instance_mesh_kinds(), |fs: Seq<Fld>| single_instance_mesh_ok(fs, ugi), s, p)
}

impl SingleInstanceMesh3DComponent {
    /// Parses a single-instance 3D mesh component (Just Dance 2017 and earlier) at `data[position..]`; returns it and the position after it.
    pub fn deserialize_at_with(data: &[u8], position: usize, ugi: UniqueGameId) -> (r: Result<(SingleInstanceMesh3DComponent, usize), ReadError>)
        ensures
            match single_instance_mesh_at(data@, position as int, ugi) {
                Some((fs, q)) => r matches Ok((x, e)) && e == q && single_instance_mesh_matches(x, fs),
                None => r is Err,
            },
    {
        let layout = single_instance_mesh_layout();
        let (fs, q) = match read_fields(&layout, data, position) {
            Ok(x) => x,
            Err(e) => return Err(e),
        };
        assert(fs@.len() == fs.len());
        let prim_1 = match prim_check(&fs, 1) { Ok(x) => x, Err(e) => return Err(e) };
        let mat_12 = match material_check(&fs, 12) { Ok(x) => x, Err(e) => return Err(e) };
        if !(ugi.game.rank() <= 2
            && get_u32(&fs, 0) == 0x53E3_2AF7
            && get_u32(&fs, 6) == 0
            && get_u32(&fs, 7) == 0
            && get_u32(&fs, 8) == 0
            && get_u32(&fs, 9) == 0xFFFF_FFFF
            && get_u32(&fs, 10) == 0
            && get_u32(&fs, 11) == 1
            && get_u32(&fs, 65) == 0) {
            return Err(ReadError);
        }
        let x = SingleInstanceMesh3DComponent {
            primitive_parameters: prim_1,
            color_computer_tag_id: get_u32(&fs, 6),
            render_in_target: get_u32(&fs, 7),
            disable_light: get_u32(&fs, 8),
            disable_shadow: get_u32(&fs, 9),
            scale_z: 0,
            mesh_3d: split_path_from(&fs, 61),
            skeleton_3d: split_path_from(&fs, 66),
            animation_3d: split_path_from(&fs, 70),
            animation_node: split_path_from(&fs, 74),
            orientation: [color_from(&fs, 78), color_from(&fs, 82), color_from(&fs, 86), color_from(&fs, 90)],
            material: mat_12,
            animation_player_mode: get_u32(&fs, 10),
        };
        Ok((x, q))
    }
}

// ---------------------------------------------------------------- parse_sound_component

/// The fields of a sound component.
pub open spec fn sound_kinds() -> Seq<FieldKind> {
    repeat(FieldKind::U32, 2)
}

/// Whether the fields of a sound component hold what the format requires.
pub open spec fn sound_ok(fs: Seq<Fld>) -> bool {
    &&& fu32(fs[0]) == 0x7DD8_643C
    &&& fu32(fs[1]) == 0
}

fn sound_layout() -> (r: Vec<FieldKind>)
    ensures
        r@ == sound_kinds(),
{
    let mut v: Vec<FieldKind> = Vec::new();
    push_repeat(&mut v, FieldKind::U32, 2);
    assert(v@ =~= sound_kinds());
    v
}

/// The fields of a sound component at `s[p..]`, where they decode and hold what the format requires, and the position after them.
pub open spec fn sound_at(s: Seq<u8>, p: int) -> Option<(Seq<Fld>, int)> {
    record_at(sound_kinds(), |fs: Seq<Fld>| sound_ok(fs), s, p)
}

/// Checks a sound component at `data[position..]`; returns the position after it.
pub fn parse_sound_component(data: &[u8], position: usize, _ugi: UniqueGameId) -> (r: Result<usize, ReadError>)
    ensures
        match sound_at(data@, position as int) {
            Some((fs, q)) => r == Ok::<usize, ReadError>(q as usize),
            None => r is Err,
        },
{
    let layout = sound_layout();
    let (fs, q) = match read_fields(&layout, data, position) {
        Ok(x) => x,
        Err(e) => return Err(e),
    };
    assert(fs@.len() == fs.len());
    if !(get_u32(&fs, 0) == 0x7DD8_643C
            && get_u32(&fs, 1) == 0) {
            return Err(ReadError);
        }
    Ok(q)
}

// ---------------------------------------------------------------- TextureGraphicComponent

/// The fields of a texture graphic component.
pub open spec fn texture_graphic_kinds() -> Seq<FieldKind> {
    repeat(FieldKind::U32, 11) + material_kinds() + repeat(FieldKind::U32, 1)
}

/// Whether the fields of a texture graphic component hold what the format requires.
pub open spec fn texture_graphic_ok(fs: Seq<Fld>) -> bool {
    &&& fu32(fs[0]) == 0x7B48_A9AE
    &&& prim_ok(fs, 1)
    &&& fu32(fs[6]) == 0
    &&& fu32(fs[7]) == 0
    &&& fu32(fs[8]) == 0xFFFF_FFFF
    &&& fu32(fs[9]) == 0xFFFF_FFFF
    &&& fu32(fs[10]) == 1
    &&& material_ok(fs, 11)
    &&& fu32(fs[60]) == 0xFFFF_FFFF
}

/// Whether `x` holds the values of the fields `fs` of a texture graphic component.
pub open spec fn texture_graphic_matches(x: TextureGraphicComponent, fs: Seq<Fld>) -> bool {
    &&& prim_matches(x.primitive_parameters, fs, 1)
    &&& x.color_computer_tag_id == 0
    &&& x.render_in_target == 0
    &&& x.disable_light == 0
    &&& x.disable_shadow == fu32(fs[8])
    &&& x.sprite_index == fu32(fs[9])
    &&& x.anchor == fu32(fs[10])
    &&& material_matches(x.material, fs, 11)
}

fn texture_graphic_layout() -> (r: Vec<FieldKind>)
    ensures
        r@ == texture_graphic_kinds(),
{
    let mut v: Vec<FieldKind> = Vec::new();
    push_repeat(&mut v, FieldKind::U32, 11);
    push_material(&mut v);
    push_repeat(&mut v, FieldKind::U32, 1);
    assert(v@ =~= texture_graphic_kinds());
    v
}

/// The fields of a texture graphic component at `s[p..]`, where they decode and hold what the format requires, and the position after them.
pub open spec fn texture_graphic_at(s: Seq<u8>, p: int) -> Option<(Seq<Fld>, int)> {
    record_at(texture_graphic_kinds(), |fs: Seq<Fld>| texture_graphic_ok(fs), s, p)
}

impl TextureGraphicComponent {
    /// Parses a texture graphic component at `data[position..]`; returns it and the position after it.
    pub fn deserialize_at_with(data: &[u8], position: usize, _ugi: UniqueGameId) -> (r: Result<(TextureGraphicComponent, usize), ReadError>)
        ensures
            match texture_graphic_at(data@, position as int) {
                Some((fs, q)) => r matches Ok((x, e)) && e == q && texture_graphic_matches(x, fs),
                None => r is Err,
            },
    {
        let layout = texture_graphic_layout();
        let (fs, q) = match read_fields(&layout, data, position) {
            Ok(x) => x,
            Err(e) => return Err(e),
        };
        assert(fs@.len() == fs.len());
        let prim_1 = match prim_check(&fs, 1) { Ok(x) => x, Err(e) => return Err(e) };
        let mat_11 = match material_check(&fs, 11) { Ok(x) => x, Err(e) => return Err(e) };
        if !(get_u32(&fs, 0) == 0x7B48_A9AE
            && get_u32(&fs, 6) == 0
            && get_u32(&fs, 7) == 0
            && get_u32(&fs, 8) == 0xFFFF_FFFF
            && get_u32(&fs, 9) == 0xFFFF_FFFF
            && get_u32(&fs, 10) == 1
            && get_u32(&fs, 60) == 0xFFFF_FFFF) {
            return Err(ReadError);
        }
        let x = TextureGraphicComponent {
            primitive_parameters: prim_1,
            color_computer_tag_id: 0,
            render_in_target: 0,
            disable_light: 0,
            disable_shadow: get_u32(&fs, 8),
            sprite_index: get_u32(&fs, 9),
            anchor: get_u32(&fs, 10),
            material: mat_11,
        };
        Ok((x, q))
    }
}

// ---------------------------------------------------------------- Unknown77F7D66C

/// The fields of the component of class id `0x77F7_D66C`.
pub open spec fn unknown_77f7d66c_kinds() -> Seq<FieldKind> {
    repeat(FieldKind::U32, 1) + seq![FieldKind::Str] + repeat(FieldKind::U32, 4) + seq![FieldKind::Fixed(7)] + repeat(FieldKind::U32, 10)
}

/// Whether the fields of the component of class id `0x77F7_D66C` hold what the format requires.
pub open spec fn unknown_77f7d66c_ok(fs: Seq<Fld>) -> bool {
    &&& fu32(fs[0]) == 0x77F7_D66C
    &&& 0x7DF <= fu32(fs[2]) <= 0x7E0
    &&& fu32(fs[3]) == 0
    &&& (fu32(fs[4]) == 0 || fu32(fs[4]) == 1)
    &&& fu32(fs[5]) == 7
    &&& (fu32(fs[7]) == 0x3DE6_67F9 || fu32(fs[7]) == 0x3E66_67F9 || fu32(fs[7]) == 0x3EAC_CDD9 || fu32(fs[7]) == 0x3EE6_67D7 || fu32(fs[7]) == 0x3F2C_CDEA || fu32(fs[7]) == 0x3F40_013F || fu32(fs[7]) == 0x3F53_3494)
    &&& fu32(fs[8]) == 0
    &&& fu32(fs[9]) == 0
    &&& fu32(fs[10]) == 0xFFFF_FFFF
    &&& fu32(fs[11]) == 0
    &&& fu32(fs[12]) == 0
    &&& fu32(fs[13]) == 0
    &&& fu32(fs[14]) == 0
    &&& fu32(fs[15]) == 0xFFFF_FFFF
    &&& fu32(fs[16]) == 0
}

/// Whether `x` holds the values of the fields `fs` of the component of class id `0x77F7_D66C`.
pub open spec fn unknown_77f7d66c_matches(x: Unknown77F7D66C, fs: Seq<Fld>) -> bool {
    &&& x.map_name@ == fbytes(fs[1])
    &&& x.jd_version == fu32(fs[2])
    &&& x.unk2 == fu32(fs[4])
    &&& x.unk3@ == fbytes(fs[6])
    &&& x.unk4 == fu32(fs[7])
}

fn unknown_77f7d66c_layout() -> (r: Vec<FieldKind>)
    ensures
        r@ == unknown_77f7d66c_kinds(),
{
    let mut v: Vec<FieldKind> = Vec::new();
    push_repeat(&mut v, FieldKind::U32, 1);
    v.push(FieldKind::Str);
    push_repeat(&mut v, FieldKind::U32, 4);
    v.push(FieldKind::Fixed(7));
    push_repeat(&mut v, FieldKind::U32, 10);
    assert(v@ =~= unknown_77f7d66c_kinds());
    v
}

/// The fields of the component of class id `0x77F7_D66C` at `s[p..]`, where they decode and hold what the format requires, and the position after them.
pub open spec fn unknown_77f7d66c_at(s: Seq<u8>, p: int) -> Option<(Seq<Fld>, int)> {
    record_at(unknown_77f7d66c_kinds(), |fs: Seq<Fld>| unknown_77f7d66c_ok(fs), s, p)
}

impl Unknown77F7D66C {
    /// Parses the component of class id `0x77F7_D66C` at `data[position..]`; returns it and the position after it.
    pub fn deserialize_at_with(data: &[u8], position: usize, _ugi: UniqueGameId) -> (r: Result<(Unknown77F7D66C, usize), ReadError>)
        ensures
            match unknown_77f7d66c_at(data@, position as int) {
                Some((fs, q)) => r matches Ok((x, e)) && e == q && unknown_77f7d66c_matches(x, fs),
                None => r is Err,
            },
    {
        let layout = unknown_77f7d66c_layout();
        let (fs, q) = match read_fields(&layout, data, position) {
            Ok(x) => x,
            Err(e) => return Err(e),
        };
        assert(fs@.len() == fs.len());
        if !(get_u32(&fs, 0) == 0x77F7_D66C
            && (0x7DF <= get_u32(&fs, 2) && get_u32(&fs, 2) <= 0x7E0)
            && get_u32(&fs, 3) == 0
            && (get_u32(&fs, 4) == 0 || get_u32(&fs, 4) == 1)
            && get_u32(&fs, 5) == 7
            && (get_u32(&fs, 7) == 0x3DE6_67F9 || get_u32(&fs, 7) == 0x3E66_67F9 || get_u32(&fs, 7) == 0x3EAC_CDD9 || get_u32(&fs, 7) == 0x3EE6_67D7 || get_u32(&fs, 7) == 0x3F2C_CDEA || get_u32(&fs, 7) == 0x3F40_013F || get_u32(&fs, 7) == 0x3F53_3494)
            && get_u32(&fs, 8) == 0
            && get_u32(&fs, 9) == 0
            && get_u32(&fs, 10) == 0xFFFF_FFFF
            && get_u32(&fs, 11) == 0
            && get_u32(&fs, 12) == 0
            && get_u32(&fs, 13) == 0
            && get_u32(&fs, 14) == 0
            && get_u32(&fs, 15) == 0xFFFF_FFFF
            && get_u32(&fs, 16) == 0) {
            return Err(ReadError);
        }
        let x = Unknown77F7D66C {
            map_name: get_bytes(&fs, 1),
            jd_version: get_u32(&fs, 2),
            unk2: get_u32(&fs, 4),
            unk3: get_bytes(&fs, 6),
            unk4: get_u32(&fs, 7),
        };
        Ok((x, q))
    }
}

// ---------------------------------------------------------------- ViewportUIComponent

/// The fields of a viewport component.
pub open spec fn viewport_ui_kinds() -> Seq<FieldKind> {
    repeat(FieldKind::U32, 9)
}

/// Whether the fields of a viewport component hold what the format requires.
pub open spec fn viewport_ui_ok(fs: Seq<Fld>) -> bool {
    &&& fu32(fs[0]) == 0x6990_834C
    &&& fu32(fs[1]) == 0xFFFF_FFFF
    &&& fu32(fs[2]) == 0
    &&& fu32(fs[3]) == 0x3F49_0FDB
    &&& fu32(fs[4]) == 0x447A_0000
    &&& fu32(fs[5]) == 0x3E57_0A3D
    &&& fu32(fs[6]) == 0x3D48_B439
    &&& fu32(fs[7]) == 0x3F15_C28F
    &&& fu32(fs[8]) == 0x3F15_C28F
}

/// Whether `x` holds the values of the fields `fs` of a viewport component.
pub open spec fn viewport_ui_matches(x: ViewportUIComponent, fs: Seq<Fld>) -> bool {
    &&& x.active == 0
    &&& x.focale == fu32(fs[3])
    &&& x.far_plane == fu32(fs[4])
    &&& pair_matches(x.position, fs, 5)
    &&& pair_matches(x.size, fs, 7)
    &&& x.view_mask == 0
}

fn viewport_ui_layout() -> (r: Vec<FieldKind>)
    ensures
        r@ == viewport_ui_kinds(),
{
    let mut v: Vec<FieldKind> = Vec::new();
    push_repeat(&mut v, FieldKind::U32, 9);
    assert(v@ =~= viewport_ui_kinds());
    v
}

/// The fields of a viewport component at `s[p..]`, where they decode and hold what the format requires, and the position after them.
pub open spec fn viewport_ui_at(s: Seq<u8>, p: int) -> Option<(Seq<Fld>, int)> {
    record_at(viewport_ui_kinds(), |fs: Seq<Fld>| viewport_ui_ok(fs), s, p)
}

impl ViewportUIComponent {
    /// Parses a viewport component at `data[position..]`; returns it and the position after it.
    pub fn deserialize_at_with(data: &[u8], position: usize, _ugi: UniqueGameId) -> (r: Result<(ViewportUIComponent, usize), ReadError>)
        ensures
            match viewport_ui_at(data@, position as int) {
                Some((fs, q)) => r matches Ok((x, e)) && e == q && viewport_ui_matches(x, fs),
                None => r is Err,
            },
    {
        let layout = viewport_ui_layout();
        let (fs, q) = match read_fields(&layout, data, position) {
            Ok(x) => x,
            Err(e) => return Err(e),
        };
        assert(fs@.len() == fs.len());
        if !(get_u32(&fs, 0) == 0x6990_834C
            && get_u32(&fs, 1) == 0xFFFF_FFFF
            && get_u32(&fs, 2) == 0
            && get_u32(&fs, 3) == 0x3F49_0FDB
            && get_u32(&fs, 4) == 0x447A_0000
            && get_u32(&fs, 5) == 0x3E57_0A3D
            && get_u32(&fs, 6) == 0x3D48_B439
            && get_u32(&fs, 7) == 0x3F15_C28F
            && get_u32(&fs, 8) == 0x3F15_C28F) {
            return Err(ReadError);
        }
        let x = ViewportUIComponent {
            active: 0,
            focale: get_u32(&fs, 3),
            far_plane: get_u32(&fs, 4),
            position: [get_u32(&fs, 5), get_u32(&fs, 6)],
            size: [get_u32(&fs, 7), get_u32(&fs, 8)],
            view_mask: 0,
        };
        Ok((x, q))
    }
}

// ---------------------------------------------------------------- PictoTimeline

/// The fields of a pictogram timeline.
pub open spec fn picto_timeline_kinds() -> Seq<FieldKind> {
    repeat(FieldKind::U32, 1) + seq![FieldKind::Str] + repeat(FieldKind::U32, 3) + seq![FieldKind::Str] + repeat(FieldKind::U32, 33)
}

/// Whether the fields of a pictogram timeline hold what the format requires.
pub open spec fn picto_timeline_ok(fs: Seq<Fld>) -> bool {
    &&& fu32(fs[0]) == 0xFA24_128D
    &&& fu32(fs[3]) == 0
    &&& InternedString::known(fu32(fs[4]))
}

/// Whether `x` holds the values of the fields `fs` of a pictogram timeline.
pub open spec fn picto_timeline_matches(x: PictoTimeline, fs: Seq<Fld>) -> bool {
    &&& x.text@ == fbytes(fs[1])
    &&& x.loc_id == fu32(fs[2])
    &&& x.model_name.spec_id() == fu32(fs[4])
    &&& x.flag@ == fbytes(fs[5])
    &&& triple_matches(x.relative_start_position_solo, fs, 6)
    &&& triple_matches(x.relative_start_position_duo, fs, 9)
    &&& triple_matches(x.relative_start_position_trio, fs, 12)
    &&& triple_matches(x.relative_start_position_quatro, fs, 15)
    &&& triple_matches(x.relative_start_position_sextet, fs, 18)
    &&& triple_matches(x.shifting_position_solo, fs, 21)
    &&& triple_matches(x.shifting_position_duo, fs, 24)
    &&& triple_matches(x.shifting_position_trio, fs, 27)
    &&& triple_matches(x.shifting_position_quatro, fs, 30)
    &&& triple_matches(x.shifting_position_sextet, fs, 33)
    &&& x.picto_track_offset == fu32(fs[36])
    &&& pair_matches(x.picto_scale, fs, 37)
}

fn picto_timeline_layout() -> (r: Vec<FieldKind>)
    ensures
        r@ == picto_timeline_kinds(),
{
    let mut v: Vec<FieldKind> = Vec::new();
    push_repeat(&mut v, FieldKind::U32, 1);
    v.push(FieldKind::Str);
    push_repeat(&mut v, FieldKind::U32, 3);
    v.push(FieldKind::Str);
    push_repeat(&mut v, FieldKind::U32, 33);
    assert(v@ =~= picto_timeline_kinds());
    v
}

/// The fields of a pictogram timeline at `s[p..]`, where they decode and hold what the format requires, and the position after them.
pub open spec fn picto_timeline_at(s: Seq<u8>, p: int) -> Option<(Seq<Fld>, int)> {
    record_at(picto_timeline_kinds(), |fs: Seq<Fld>| picto_timeline_ok(fs), s, p)
}

impl PictoTimeline {
    /// Parses a pictogram timeline at `data[position..]`; returns it and the position after it.
    pub fn deserialize_at_with(data: &[u8], position: usize, _ugi: UniqueGameId) -> (r: Result<(PictoTimeline, usize), ReadError>)
        ensures
            match picto_timeline_at(data@, position as int) {
                Some((fs, q)) => r matches Ok((x, e)) && e == q && picto_timeline_matches(x, fs),
                None => r is Err,
            },
    {
        let layout = picto_timeline_layout();
        let (fs, q) = match read_fields(&layout, data, position) {
            Ok(x) => x,
            Err(e) => return Err(e),
        };
        assert(fs@.len() == fs.len());
        let interned_4 = match interned_at(&fs, 4) { Ok(x) => x, Err(e) => return Err(e) };
        if !(get_u32(&fs, 0) == 0xFA24_128D
            && get_u32(&fs, 3) == 0) {
            return Err(ReadError);
        }
        let x = PictoTimeline {
            text: get_bytes(&fs, 1),
            loc_id: get_u32(&fs, 2),
            model_name: interned_4,
            flag: get_bytes(&fs, 5),
            relative_start_position_solo: [get_u32(&fs, 6), get_u32(&fs, 7), get_u32(&fs, 8)],
            relative_start_position_duo: [get_u32(&fs, 9), get_u32(&fs, 10), get_u32(&fs, 11)],
            relative_start_position_trio: [get_u32(&fs, 12), get_u32(&fs, 13), get_u32(&fs, 14)],
            relative_start_position_quatro: [get_u32(&fs, 15), get_u32(&fs, 16), get_u32(&fs, 17)],
            relative_start_position_sextet: [get_u32(&fs, 18), get_u32(&fs, 19), get_u32(&fs, 20)],
            shifting_position_solo: [get_u32(&fs, 21), get_u32(&fs, 22), get_u32(&fs, 23)],
            shifting_position_duo: [get_u32(&fs, 24), get_u32(&fs, 25), get_u32(&fs, 26)],
            shifting_position_trio: [get_u32(&fs, 27), get_u32(&fs, 28), get_u32(&fs, 29)],
            shifting_position_quatro: [get_u32(&fs, 30), get_u32(&fs, 31), get_u32(&fs, 32)],
            shifting_position_sextet: [get_u32(&fs, 33), get_u32(&fs, 34), get_u32(&fs, 35)],
            picto_track_offset: get_u32(&fs, 36),
            picto_scale: [get_u32(&fs, 37), get_u32(&fs, 38)],
        };
        Ok((x, q))
    }
}

// ---------------------------------------------------------------- parse_afx_post_process_component

/// The fields of an AFX post-process component.
pub open spec fn afx_post_process_kinds() -> Seq<FieldKind> {
    seq![FieldKind::U64] + repeat(FieldKind::U32, 1)
}

/// Whether the fields of an AFX post-process component hold what the format requires.
pub open spec fn afx_post_process_ok(fs: Seq<Fld>) -> bool {
    &&& fu64(fs[0]) == 8
    &&& fu32(fs[1]) == 1
}

fn afx_post_process_layout() -> (r: Vec<FieldKind>)
    ensures
        r@ == afx_post_process_kinds(),
{
    let mut v: Vec<FieldKind> = Vec::new();
    v.push(FieldKind::U64);
    push_repeat(&mut v, FieldKind::U32, 1);
    assert(v@ =~= afx_post_process_kinds());
    v
}

/// The fields of an AFX post-process component at `s[p..]`, where they decode and hold what the format requires, and the position after them.
pub open spec fn afx_post_process_at(s: Seq<u8>, p: int) -> Option<(Seq<Fld>, int)> {
    record_at(afx_post_process_kinds(), |fs: Seq<Fld>| afx_post_process_ok(fs), s, p)
}

/// Checks an AFX post-process component at `data[position..]`; returns the position after it.
pub fn parse_afx_post_process_component(data: &[u8], position: usize, _ugi: UniqueGameId) -> (r: Result<usize, ReadError>)
    ensures
        match afx_post_process_at(data@, position as int) {
            Some((fs, q)) => r == Ok::<usize, ReadError>(q as usize),
            None => r is Err,
        },
{
    let layout = afx_post_process_layout();
    let (fs, q) = match read_fields(&layout, data, position) {
        Ok(x) => x,
        Err(e) => return Err(e),
    };
    assert(fs@.len() == fs.len());
    if !(get_u64(&fs, 0) == 8
            && get_u32(&fs, 1) == 1) {
            return Err(ReadError);
        }
    Ok(q)
}

// ---------------------------------------------------------------- parse_fx_bank_component

/// The fields of an FX bank component.
pub open spec fn fx_bank_kinds() -> Seq<FieldKind> {
    repeat(FieldKind::U32, 9)
}

/// Whether the fields of an FX bank component hold what the format requires.
pub open spec fn fx_bank_ok(fs: Seq<Fld>) -> bool {
    &&& fu32(fs[0]) == 0x3F80_0000
    &&& fu32(fs[1]) == 0x3F80_0000
    &&& fu32(fs[2]) == 0x3F80_0000
    &&& fu32(fs[3]) == 0x3F80_0000
    &&& fu32(fs[4]) == 0
    &&& fu32(fs[5]) == 0
    &&& fu32(fs[6]) == 0
    &&& (fu32(fs[7]) == 0 || fu32(fs[7]) == 0xFFFF_FFFF)
    &&& fu32(fs[8]) == 0xFFFF_FFFF
}

fn fx_bank_layout() -> (r: Vec<FieldKind>)
    ensures
        r@ == fx_bank_kinds(),
{
    let mut v: Vec<FieldKind> = Vec::new();
    push_repeat(&mut v, FieldKind::U32, 9);
    assert(v@ =~= fx_bank_kinds());
    v
}

/// The fields of an FX bank component at `s[p..]`, where they decode and hold what the format requires, and the position after them.
pub open spec fn fx_bank_at(s: Seq<u8>, p: int) -> Option<(Seq<Fld>, int)> {
    record_at(fx_bank_kinds(), |fs: Seq<Fld>| fx_bank_ok(fs), s, p)
}

/// Checks an FX bank component at `data[position..]`; returns the position after it.
pub fn parse_fx_bank_component(data: &[u8], position: usize, _ugi: UniqueGameId) -> (r: Result<usize, ReadError>)
    ensures
        match fx_bank_at(data@, position as int) {
            Some((fs, q)) => r == Ok::<usize, ReadError>(q as usize),
            None => r is Err,
        },
{
    let layout = fx_bank_layout();
    let (fs, q) = match read_fields(&layout, data, position) {
        Ok(x) => x,
        Err(e) => return Err(e),
    };
    assert(fs@.len() == fs.len());
    if !(get_u32(&fs, 0) == 0x3F80_0000
            && get_u32(&fs, 1) == 0x3F80_0000
            && get_u32(&fs, 2) == 0x3F80_0000
            && get_u32(&fs, 3) == 0x3F80_0000
            && get_u32(&fs, 4) == 0
            && get_u32(&fs, 5) == 0
            && get_u32(&fs, 6) == 0
            && (get_u32(&fs, 7) == 0 || get_u32(&fs, 7) == 0xFFFF_FFFF)
            && get_u32(&fs, 8) == 0xFFFF_FFFF) {
            return Err(ReadError);
        }
    Ok(q)
}

// ---------------------------------------------------------------- parse_bezier_tree_component

/// The fields of a bezier tree component.
pub open spec fn bezier_tree_kinds() -> Seq<FieldKind> {
    repeat(FieldKind::U32, 18)
}

/// Whether the fields of a bezier tree component hold what the format requires.
pub open spec fn bezier_tree_ok(fs: Seq<Fld>) -> bool {
    &&& fu32(fs[0]) == 2
    &&& fu32(fs[1]) == 0
    &&& fu32(fs[2]) == 0
    &&& fu32(fs[3]) == 0
    &&& fu32(fs[4]) == 0
    &&& fu32(fs[5]) == 0x3F80_0000
    &&& fu32(fs[6]) == 0x3F80_0000
    &&& fu32(fs[7]) == 0
    &&& fu32(fs[8]) == 0
    &&& fu32(fs[9]) == 0x4040_0000
    &&& fu32(fs[10]) == 0
    &&& fu32(fs[11]) == 0
    &&& fu32(fs[12]) == 0x3F80_0000
    &&& fu32(fs[13]) == 0x3F80_0000
    &&& fu32(fs[14]) == 0
    &&& fu32(fs[15]) == 0
    &&& fu32(fs[16]) == 0
    &&& fu32(fs[17]) == 1
}

fn bezier_tree_layout() -> (r: Vec<FieldKind>)
    ensures
        r@ == bezier_tree_kinds(),
{
    let mut v: Vec<FieldKind> = Vec::new();
    push_repeat(&mut v, FieldKind::U32, 18);
    assert(v@ =~= bezier_tree_kinds());
    v
}

/// The fields of a bezier tree component at `s[p..]`, where they decode and hold what the format requires, and the position after them.
pub open spec fn bezier_tree_at(s: Seq<u8>, p: int) -> Option<(Seq<Fld>, int)> {
    record_at(bezier_tree_kinds(), |fs: Seq<Fld>| bezier_tree_ok(fs), s, p)
}

/// Checks a bezier tree component at `data[position..]`; returns the position after it.
pub fn parse_bezier_tree_component(data: &[u8], position: usize, _ugi: UniqueGameId) -> (r: Result<usize, ReadError>)
    ensures
        match bezier_tree_at(data@, position as int) {
            Some((fs, q)) => r == Ok::<usize, ReadError>(q as usize),
            None => r is Err,
        },
{
    let layout = bezier_tree_layout();
    let (fs, q) = match read_fields(&layout, data, position) {
        Ok(x) => x,
        Err(e) => return Err(e),
    };
    assert(fs@.len() == fs.len());
    if !(get_u32(&fs, 0) == 2
            && get_u32(&fs, 1) == 0
            && get_u32(&fs, 2) == 0
            && get_u32(&fs, 3) == 0
            && get_u32(&fs, 4) == 0
            && get_u32(&fs, 5) == 0x3F80_0000
            && get_u32(&fs, 6) == 0x3F80_0000
            && get_u32(&fs, 7) == 0
            && get_u32(&fs, 8) == 0
            && get_u32(&fs, 9) == 0x4040_0000
            && get_u32(&fs, 10) == 0
            && get_u32(&fs, 11) == 0
            && get_u32(&fs, 12) == 0x3F80_0000
            && get_u32(&fs, 13) == 0x3F80_0000
            && get_u32(&fs, 14) == 0
            && get_u32(&fs, 15) == 0
            && get_u32(&fs, 16) == 0
            && get_u32(&fs, 17) == 1) {
            return Err(ReadError);
        }
    Ok(q)
}

// ---------------------------------------------------------------- parse_unknown_footer

/// The fields of the footer that some actor files end with.
pub open spec fn unknown_footer_kinds() -> Seq<FieldKind> {
    repeat(FieldKind::U32, 10)
}

/// Whether the fields of the footer that some actor files end with hold what the format requires.
pub open spec fn unknown_footer_ok(fs: Seq<Fld>) -> bool {
    &&& fu32(fs[0]) == 0
    &&& fu32(fs[1]) == 0
    &&& fu32(fs[2]) == 0xFFFF_FFFF
    &&& fu32(fs[3]) == 0
    &&& fu32(fs[4]) == 0
    &&& fu32(fs[5]) == 0
    &&& fu32(fs[6]) == 0
    &&& fu32(fs[7]) == 1
    &&& fu32(fs[8]) == 0
    &&& fu32(fs[9]) == 0
}

fn unknown_footer_layout() -> (r: Vec<FieldKind>)
    ensures
        r@ == unknown_footer_kinds(),
{
    let mut v: Vec<FieldKind> = Vec::new();
    push_repeat(&mut v, FieldKind::U32, 10);
    assert(v@ =~= unknown_footer_kinds());
    v
}

/// The fields of the footer that some actor files end with at `s[p..]`, where they decode and hold what the format requires, and the position after them.
pub open spec fn unknown_footer_at(s: Seq<u8>, p: int) -> Option<(Seq<Fld>, int)> {
    record_at(unknown_footer_kinds(), |fs: Seq<Fld>| unknown_footer_ok(fs), s, p)
}

/// Checks the footer that some actor files end with at `data[position..]`; returns the position after it.
pub fn parse_unknown_footer(data: &[u8], position: usize, _ugi: UniqueGameId) -> (r: Result<usize, ReadError>)
    ensures
        match unknown_footer_at(data@, position as int) {
            Some((fs, q)) => r == Ok::<usize, ReadError>(q as usize),
            None => r is Err,
        },
{
    let layout = unknown_footer_layout();
    let (fs, q) = match read_fields(&layout, data, position) {
        Ok(x) => x,
        Err(e) => return Err(e),
    };
    assert(fs@.len() == fs.len());
    if !(get_u32(&fs, 0) == 0
            && get_u32(&fs, 1) == 0
            && get_u32(&fs, 2) == 0xFFFF_FFFF
            && get_u32(&fs, 3) == 0
            && get_u32(&fs, 4) == 0
            && get_u32(&fs, 5) == 0
            && get_u32(&fs, 6) == 0
            && get_u32(&fs, 7) == 1
            && get_u32(&fs, 8) == 0
            && get_u32(&fs, 9) == 0) {
            return Err(ReadError);
        }
    Ok(q)
}


// ---------------------------------------------------------------- MaterialGraphicComponent

/// The first 54 fields of a material graphic component: three `1.0`, `unk4`,
/// two words, `unk9`, the anchor as a `u64be`, `unk11` and `unk12` as one
/// `u64be`, nine paths, a word, and the ATL and shader paths.
pub open spec fn mgc_head_kinds() -> Seq<FieldKind> {
    repeat(FieldKind::U32, 4) + seq![FieldKind::U64, FieldKind::U64, FieldKind::U32, FieldKind::U64, FieldKind::U64]
        + repeat_split_paths(9) + seq![FieldKind::U32] + split_path_kinds() + split_path_kinds()
}

/// Whether the game stores the short middle part (Just Dance 2016 to 2019).
pub open spec fn mgc_short_middle(ugi: UniqueGameId) -> bool {
    1 <= ugi.game.order() <= 4
}

/// The middle fields, which depend on the game: one `u64be` for Just Dance
/// 2016 to 2019, else four `u64be` and two words; for Just Dance 2020 then a
/// word that is there only if it is zero.
pub open spec fn mgc_mid_kinds(ugi: UniqueGameId) -> Seq<FieldKind> {
    (if mgc_short_middle(ugi) {
        seq![FieldKind::U64]
    } else {
        seq![FieldKind::U64, FieldKind::U64, FieldKind::U64, FieldKind::U64, FieldKind::U32, FieldKind::U32]
    }) + (if ugi.game == Game::JustDance2020 {
        seq![FieldKind::OptZero]
    } else {
        Seq::empty()
    })
}

/// The last fields: a `u64be` of all ones, four words, a `u64be`, the old
/// anchor, and for the video texture one more zero word.
pub open spec fn mgc_tail_kinds(is_pleo: bool) -> Seq<FieldKind> {
    seq![FieldKind::U64, FieldKind::U32, FieldKind::U32, FieldKind::U32, FieldKind::U32, FieldKind::U64, FieldKind::U32]
        + (if is_pleo {
        seq![FieldKind::U32]
    } else {
        Seq::empty()
    })
}

/// The fields of a material graphic component.
pub open spec fn mgc_kinds(ugi: UniqueGameId, is_pleo: bool) -> Seq<FieldKind> {
    mgc_head_kinds() + mgc_mid_kinds(ugi) + mgc_tail_kinds(is_pleo)
}

/// The position of the last fields.
pub open spec fn mgc_tail(ugi: UniqueGameId) -> int {
    54 + mgc_mid_kinds(ugi).len() as int
}

/// Whether `v` is one of the values that `unk11` and `unk12` take together.
pub open spec fn mgc_unk15_ok(v: u64) -> bool {
    v == 0 || v == 0x3E2E_147B || v == 0xC080_0000 || v == 0x3E99_999A_BDCC_CCCD || v == 0xBDE1_47AE_3E61_47AE
}

/// Whether the fields of a material graphic component hold what the format requires.
pub open spec fn mgc_ok(fs: Seq<Fld>, ugi: UniqueGameId, is_pleo: bool) -> bool {
    let t = mgc_tail(ugi);
    &&& fu32(fs[0]) == 0x3F80_0000
    &&& fu32(fs[1]) == 0x3F80_0000
    &&& fu32(fs[2]) == 0x3F80_0000
    &&& (fu32(fs[3]) == 0x3F80_0000 || fu32(fs[3]) == 0)
    &&& (fu32(fs[6]) == 0xFFFF_FFFF || fu32(fs[6]) == 1)
    &&& fu64(fs[7]) <= 9
    &&& mgc_unk15_ok(fu64(fs[8]))
    &&& fu64(fs[t]) == 0xFFFF_FFFF_FFFF_FFFF
    &&& fu32(fs[t + 6]) <= 9
    &&& (is_pleo ==> fu32(fs[t + 7]) == 0)
}

/// Whether `x` holds the values of the fields `fs` of a material graphic component.
pub open spec fn mgc_matches(x: MaterialGraphicComponent, fs: Seq<Fld>, ugi: UniqueGameId) -> bool {
    &&& forall|k: int| 0 <= k < 9 ==> split_path_matches(#[trigger] x.files[k], fs, 9 + 4 * k)
    &&& split_path_matches(x.files[9], fs, 46)
    &&& split_path_matches(x.files[10], fs, 50)
    &&& x.unk4 == fu32(fs[3])
    &&& x.unk9 == fu32(fs[6])
    &&& x.anchor == fu64(fs[7]) as i32
    &&& x.unk11 == (fu64(fs[8]) >> 32) as u32
    &&& x.unk12 == fu64(fs[8]) as u32
    &&& x.old_anchor == fu32(fs[mgc_tail(ugi) + 6]) as i32
}

fn mgc_layout(ugi: UniqueGameId, is_pleo: bool) -> (r: Vec<FieldKind>)
    ensures
        r@ == mgc_kinds(ugi, is_pleo),
{
    let mut v: Vec<FieldKind> = Vec::new();
    push_repeat(&mut v, FieldKind::U32, 4);
    v.push(FieldKind::U64);
    v.push(FieldKind::U64);
    v.push(FieldKind::U32);
    v.push(FieldKind::U64);
    v.push(FieldKind::U64);
    let mut i: usize = 0;
    let ghost v0 = v@;
    while i < 9
        invariant
            i <= 9,
            v@ == v0 + repeat_split_paths(i as nat),
        decreases 9 - i,
    {
        push_split_path(&mut v);
        i = i + 1;
    }
    v.push(FieldKind::U32);
    push_split_path(&mut v);
    push_split_path(&mut v);
    let ghost v1 = v@;
    assert(v1 =~= mgc_head_kinds());
    let rank = ugi.game.rank();
    if 1 <= rank && rank <= 4 {
        v.push(FieldKind::U64);
    } else {
        v.push(FieldKind::U64);
        v.push(FieldKind::U64);
        v.push(FieldKind::U64);
        v.push(FieldKind::U64);
        v.push(FieldKind::U32);
        v.push(FieldKind::U32);
    }
    if ugi.game == Game::JustDance2020 {
        v.push(FieldKind::OptZero);
    }
    assert(v@ =~= v1 + mgc_mid_kinds(ugi));
    let ghost v2 = v@;
    v.push(FieldKind::U64);
    push_repeat(&mut v, FieldKind::U32, 4);
    v.push(FieldKind::U64);
    v.push(FieldKind::U32);
    if is_pleo {
        v.push(FieldKind::U32);
    }
    assert(v@ =~= v2 + mgc_tail_kinds(is_pleo));
    assert(v@ =~= mgc_kinds(ugi, is_pleo));
    v
}

/// The fields of a material graphic component at `s[p..]`, where they decode
/// and hold what the format requires, and the position after them.
pub open spec fn mgc_at(s: Seq<u8>, p: int, ugi: UniqueGameId, is_pleo: bool) -> Option<(Seq<Fld>, int)> {
    record_at(mgc_kinds(ugi, is_pleo), |fs: Seq<Fld>| mgc_ok(fs, ugi, is_pleo), s, p)
}

/// A video texture component is a material graphic component with one more
/// zero word: it decodes exactly where the plain form decodes and a zero word
/// follows, ends four bytes later, and holds the same values.
pub proof fn lemma_mgc_pleo_form(s: Seq<u8>, p: int, ugi: UniqueGameId)
    ensures
        mgc_at(s, p, ugi, false) is None ==> mgc_at(s, p, ugi, true) is None,
        mgc_at(s, p, ugi, false) matches Some((fs, q)) ==> {
            &&& (mgc_at(s, p, ugi, true) is Some <==> (q + 4 <= s.len() && be32_at(s, q) == 0))
            &&& mgc_at(s, p, ugi, true) matches Some((ft, qt)) ==> qt == q + 4 && ft == fs.push(Fld::U32(0))
                && forall|x: MaterialGraphicComponent| mgc_matches(x, ft, ugi) == mgc_matches(x, fs, ugi)
        },
{
    let kf = mgc_kinds(ugi, false);
    let kt = mgc_kinds(ugi, true);
    let one = seq![FieldKind::U32];
    assert(kt =~= kf + one);
    crate::encode::lemma_dec_run_append(kf, one, s, p);
    lemma_dec_run_fits(kf, s, p);
    lemma_repeat_split_paths_len(9);
    let t = mgc_tail(ugi);
    assert(kf.len() == t + 7);
    if let Some((fs, q)) = dec_run(kf, s, p) {
        assert(one.drop_last() =~= Seq::<FieldKind>::empty());
        assert(0 <= q) by {
            assert(kf.len() > 0);
            let (_, q0) = dec_run(kf.drop_last(), s, p).unwrap();
            assert(0 <= q0);
        }
        assert(dec_run(one.drop_last(), s, q) == Some((Seq::<Fld>::empty(), q)));
        if q + 4 <= s.len() {
            let ft = fs.push(Fld::U32(be32_at(s, q) as u32));
            assert(dec_run(one, s, q) == Some((seq![Fld::U32(be32_at(s, q) as u32)], q + 4)));
            assert(fs + seq![Fld::U32(be32_at(s, q) as u32)] =~= ft);
            assert(dec_run(kt, s, p) == Some((ft, q + 4)));
            assert forall|i: int| 0 <= i < fs.len() implies ft[i] == fs[i] by {}
            assert(ft[t + 7] == Fld::U32(be32_at(s, q) as u32));
            crate::bytes::lemma_be32_bound(s, q);
            assert(mgc_ok(ft, ugi, true) <==> (mgc_ok(fs, ugi, false) && be32_at(s, q) == 0));
            if be32_at(s, q) == 0 {
                assert(ft =~= fs.push(Fld::U32(0)));
            }
            assert forall|x: MaterialGraphicComponent| mgc_matches(x, ft, ugi) == mgc_matches(x, fs, ugi) by {
                assert forall|k: int| 0 <= k < 9 implies split_path_matches(#[trigger] x.files[k], ft, 9 + 4 * k)
                    == split_path_matches(x.files[k], fs, 9 + 4 * k) by {
                    assert(ft[9 + 4 * k] == fs[9 + 4 * k] && ft[10 + 4 * k] == fs[10 + 4 * k] && ft[11 + 4 * k] == fs[11 + 4 * k]);
                }
            }
        } else {
            assert(dec_run(one, s, q) is None);
        }
    }
}

impl MaterialGraphicComponent {
    /// Parses a material graphic component at `data[position..]` (the part
    /// after the component type); `is_pleo` for the video texture, which has
    /// one more word. Returns it and the position after it.
    pub fn deserialize_at_with(data: &[u8], position: usize, ugi: UniqueGameId, is_pleo: bool) -> (r: Result<(MaterialGraphicComponent, usize), ReadError>)
        ensures
            match mgc_at(data@, position as int, ugi, is_pleo) {
                Some((fs, q)) => r matches Ok((x, e)) && e == q && mgc_matches(x, fs, ugi),
                None => r is Err,
            },
    {
        let layout = mgc_layout(ugi, is_pleo);
        let (fs, q) = match read_fields(&layout, data, position) {
            Ok(x) => x,
            Err(e) => return Err(e),
        };
        assert(fs@.len() == fs.len());
        proof { lemma_repeat_split_paths_len(9); }
        let rank = ugi.game.rank();
        let mid: usize = if 1 <= rank && rank <= 4 { 1 } else { 6 };
        let t: usize = if ugi.game == Game::JustDance2020 { 55 + mid } else { 54 + mid };
        assert(t == mgc_tail(ugi));
        let unk4 = get_u32(&fs, 3);
        let unk9 = get_u32(&fs, 6);
        let anchor = get_u64(&fs, 7);
        let unk15 = get_u64(&fs, 8);
        let old_anchor = get_u32(&fs, t + 6);
        if !(get_u32(&fs, 0) == 0x3F80_0000 && get_u32(&fs, 1) == 0x3F80_0000 && get_u32(&fs, 2) == 0x3F80_0000
            && (unk4 == 0x3F80_0000 || unk4 == 0) && (unk9 == 0xFFFF_FFFF || unk9 == 1) && anchor <= 9
            && (unk15 == 0 || unk15 == 0x3E2E_147B || unk15 == 0xC080_0000 || unk15 == 0x3E99_999A_BDCC_CCCD
                || unk15 == 0xBDE1_47AE_3E61_47AE)
            && get_u64(&fs, t) == 0xFFFF_FFFF_FFFF_FFFF && old_anchor <= 9
            && (!is_pleo || get_u32(&fs, t + 7) == 0)) {
            return Err(ReadError);
        }
        let x = MaterialGraphicComponent {
            files: [
                split_path_from(&fs, 9),
                split_path_from(&fs, 13),
                split_path_from(&fs, 17),
                split_path_from(&fs, 21),
                split_path_from(&fs, 25),
                split_path_from(&fs, 29),
                split_path_from(&fs, 33),
                split_path_from(&fs, 37),
                split_path_from(&fs, 41),
                split_path_from(&fs, 46),
                split_path_from(&fs, 50),
            ],
            unk4,
            unk9,
            anchor: anchor as i32,
            unk11: (unk15 >> 32) as u32,
            unk12: unk15 as u32,
            old_anchor: old_anchor as i32,
        };
        assert forall|k: int| 0 <= k < 9 implies split_path_matches(#[trigger] x.files[k], flds_view(fs@), 9 + 4 * k) by {
            assert(k == 0 || k == 1 || k == 2 || k == 3 || k == 4 || k == 5 || k == 6 || k == 7 || k == 8);
        }
        Ok((x, q))
    }
}

// ---------------------------------------------------------------- UITextBox

/// The two extra zero words that text boxes have from the first Just Dance 2019 build for the Switch on.
pub open spec fn textbox_extra(ugi: UniqueGameId) -> int {
    if ugi.at_least(UniqueGameId { game: Game::JustDance2019, platform: Platform::Nx, id: 1 }) { 2 } else { 0 }
}

/// The `colorize_icons` word that text boxes have from Just Dance 2020 for the Switch on.
pub open spec fn textbox_has_colorize(ugi: UniqueGameId) -> bool {
    ugi.at_least(UniqueGameId { game: Game::JustDance2020, platform: Platform::Nx, id: 1 })
}

/// The fields of a text box.
pub open spec fn textbox_kinds(ugi: UniqueGameId) -> Seq<FieldKind> {
    repeat(FieldKind::U32, 13) + seq![FieldKind::Str] + repeat(FieldKind::U32, 7) + seq![FieldKind::Str]
        + repeat(FieldKind::U32, (24 + textbox_extra(ugi) + if textbox_has_colorize(ugi) { 1int } else { 0int }) as nat)
}

/// Whether the fields of a text box hold what the format requires.
pub open spec fn textbox_ok(fs: Seq<Fld>, ugi: UniqueGameId) -> bool {
    let a = textbox_extra(ugi);
    let b = if textbox_has_colorize(ugi) { 1int } else { 0int };
    let w = |i: int| fu32(fs[i]);
    &&& w(0) == 0xD10C_BEED
    &&& w(1) <= 3
    &&& (w(2) == 0xBF80_0000 || w(2) == 0x41A0_0000 || w(2) == 0x41F0_0000 || w(2) == 0x4200_0000
        || w(2) == 0x4248_0000 || w(2) == 0x428C_0000 || w(2) == 0x42C8_0000 || w(2) == 0x4316_0000)
    &&& w(3) == 0xFFFF_FFFF
    &&& is_zero_f32(w(4)) && is_zero_f32(w(5))
    &&& w(6) == 0x3F80_0000 && w(7) == 0x3F80_0000
    &&& (is_zero_f32(w(8)) || w(8) == 0x3F80_0000)
    &&& (w(9) == 0xBF80_0000 || w(9) == 0x4496_0000)
    &&& w(10) == 0xBF80_0000
    &&& w(14) == 0 && w(15) == 1
    &&& (w(17) == 0xC170_0000 || w(17) == 0xC120_0000 || is_zero_f32(w(17)) || w(17) == 0x4140_0000)
    &&& is_zero_f32(w(18)) && is_zero_f32(w(19)) && is_zero_f32(w(20))
    &&& w(22) == 0 && w(23) == 0
    &&& (w(24) == 0 || w(24) == 2 || w(24) == 0xFFFF_FFFF)
    &&& (w(25) == 0 || w(25) == 0xFFFF_FFFF)
    &&& (w(26) == 0 || w(26) == 0xBF80_0000)
    &&& (w(27) == 0 || w(27) == 0xFFFF_FFFF)
    &&& (w(28) == 0 || w(28) == 0xBF80_0000)
    &&& w(29) == 0 && w(30) == 0 && w(31) == 0 && w(32) == 0
    &&& (is_zero_f32(w(39)) || w(39) == 0xC0C0_0000)
    &&& w(40) == 0
    &&& (a == 2 ==> w(41) == 0 && w(42) == 0)
    &&& w(41 + a) == 0xBF80_0000
    &&& w(42 + a) == 0
    &&& (b == 1 ==> w(43 + a) == 0)
    &&& (w(43 + a + b) == 0xFFFF_FFFF || w(43 + a + b) == 1 || w(43 + a + b) == 2)
    &&& (w(44 + a + b) == 0xFFFF_FFFF || w(44 + a + b) == 1 || w(44 + a + b) == 0)
    &&& (w(45 + a + b) == 0xFFFF_FFFF || w(45 + a + b) <= 8)
}

/// Whether `x` holds the values of the fields `fs` of a text box.
pub open spec fn textbox_matches(x: UITextBox, fs: Seq<Fld>, ugi: UniqueGameId) -> bool {
    let a = textbox_extra(ugi);
    let b = if textbox_has_colorize(ugi) { 1int } else { 0int };
    &&& x.style == fu32(fs[1])
    &&& x.overriding_font_size == fu32(fs[2])
    &&& pair_matches(x.offset, fs, 4)
    &&& pair_matches(x.scale, fs, 6)
    &&& x.alpha == fu32(fs[8])
    &&& x.max_width == fu32(fs[9])
    &&& x.max_height == fu32(fs[10])
    &&& pair_matches(x.area, fs, 11)
    &&& x.raw_text@ == fbytes(fs[13])
    &&& x.use_lines_max_count == fu32(fs[14])
    &&& x.lines_max_count == fu32(fs[15])
    &&& x.loc_id == fu32(fs[16])
    &&& x.auto_scroll_speed == fu32(fs[17])
    &&& x.auto_scroll_speed_y == fu32(fs[18])
    &&& x.auto_scroll_wait_time == fu32(fs[19])
    &&& x.auto_scroll_wait_time_y == fu32(fs[20])
    &&& x.auto_scroll_font_effect_name@ == fbytes(fs[21])
    &&& x.auto_scroll_reset_on_inactive == fu32(fs[22])
    &&& x.scroll_once == fu32(fs[23])
    &&& x.overriding_shadow_color@ == seq![fu32(fs[33]), fu32(fs[34]), fu32(fs[35]), fu32(fs[36])]
    &&& pair_matches(x.overriding_shadow_offset, fs, 37)
    &&& x.overriding_line_spacing == fu32(fs[39])
    &&& x.overriding_font_size_min == fu32(fs[41 + a])
    &&& x.ending_dots == fu32(fs[42 + a])
    &&& x.colorize_icons == (if b == 1 { Some(fu32(fs[43 + a])) } else { None })
    &&& x.overriding_anchor == fu32(fs[45 + a + b]) as i32
}

/// The fields of a text box at `s[p..]`, where they decode and hold what the
/// format requires, and the position after them.
pub open spec fn textbox_at(s: Seq<u8>, p: int, ugi: UniqueGameId) -> Option<(Seq<Fld>, int)> {
    record_at(textbox_kinds(ugi), |fs: Seq<Fld>| textbox_ok(fs, ugi), s, p)
}

impl UITextBox {
    /// Parses a text box at `data[position..]`; returns it and the position after it.
    #[verifier::spinoff_prover]
    #[verifier::rlimit(50)]
    pub fn deserialize_at_with(data: &[u8], position: usize, ugi: UniqueGameId) -> (r: Result<(UITextBox, usize), ReadError>)
        ensures
            match textbox_at(data@, position as int, ugi) {
                Some((fs, q)) => r matches Ok((x, e)) && e == q && textbox_matches(x, fs, ugi),
                None => r is Err,
            },
    {
        let a: usize = if ugi.is_at_least(&UniqueGameId::nx2019v1()) { 2 } else { 0 };
        let b: usize = if ugi.is_at_least(&UniqueGameId::nx2020()) { 1 } else { 0 };
        let mut layout: Vec<FieldKind> = Vec::new();
        push_repeat(&mut layout, FieldKind::U32, 13);
        layout.push(FieldKind::Str);
        push_repeat(&mut layout, FieldKind::U32, 7);
        layout.push(FieldKind::Str);
        push_repeat(&mut layout, FieldKind::U32, 24 + a + b);
        assert(layout@ =~= textbox_kinds(ugi));
        let (fs, q) = match read_fields(&layout, data, position) {
            Ok(x) => x,
            Err(e) => return Err(e),
        };
        assert(fs@.len() == fs.len());
        let w2 = get_u32(&fs, 2);
        let w8 = get_u32(&fs, 8);
        let w9 = get_u32(&fs, 9);
        let w17 = get_u32(&fs, 17);
        let w24 = get_u32(&fs, 24);
        let w25 = get_u32(&fs, 25);
        let w26 = get_u32(&fs, 26);
        let w27 = get_u32(&fs, 27);
        let w28 = get_u32(&fs, 28);
        let w39 = get_u32(&fs, 39);
        let u25 = get_u32(&fs, 43 + a + b);
        let u26 = get_u32(&fs, 44 + a + b);
        let anchor = get_u32(&fs, 45 + a + b);
        let ok = get_u32(&fs, 0) == 0xD10C_BEED && get_u32(&fs, 1) <= 3
            && (w2 == 0xBF80_0000 || w2 == 0x41A0_0000 || w2 == 0x41F0_0000 || w2 == 0x4200_0000
                || w2 == 0x4248_0000 || w2 == 0x428C_0000 || w2 == 0x42C8_0000 || w2 == 0x4316_0000)
            && get_u32(&fs, 3) == 0xFFFF_FFFF
            && zero_f32(get_u32(&fs, 4)) && zero_f32(get_u32(&fs, 5))
            && get_u32(&fs, 6) == 0x3F80_0000 && get_u32(&fs, 7) == 0x3F80_0000
            && (zero_f32(w8) || w8 == 0x3F80_0000)
            && (w9 == 0xBF80_0000 || w9 == 0x4496_0000)
            && get_u32(&fs, 10) == 0xBF80_0000
            && get_u32(&fs, 14) == 0 && get_u32(&fs, 15) == 1
            && (w17 == 0xC170_0000 || w17 == 0xC120_0000 || zero_f32(w17) || w17 == 0x4140_0000)
            && zero_f32(get_u32(&fs, 18)) && zero_f32(get_u32(&fs, 19)) && zero_f32(get_u32(&fs, 20))
            && get_u32(&fs, 22) == 0 && get_u32(&fs, 23) == 0
            && (w24 == 0 || w24 == 2 || w24 == 0xFFFF_FFFF)
            && (w25 == 0 || w25 == 0xFFFF_FFFF)
            && (w26 == 0 || w26 == 0xBF80_0000)
            && (w27 == 0 || w27 == 0xFFFF_FFFF)
            && (w28 == 0 || w28 == 0xBF80_0000)
            && get_u32(&fs, 29) == 0 && get_u32(&fs, 30) == 0 && get_u32(&fs, 31) == 0 && get_u32(&fs, 32) == 0
            && (zero_f32(w39) || w39 == 0xC0C0_0000)
            && get_u32(&fs, 40) == 0
            && (a == 0 || (get_u32(&fs, 41) == 0 && get_u32(&fs, 42) == 0))
            && get_u32(&fs, 41 + a) == 0xBF80_0000
            && get_u32(&fs, 42 + a) == 0
            && (b == 0 || get_u32(&fs, 43 + a) == 0)
            && (u25 == 0xFFFF_FFFF || u25 == 1 || u25 == 2)
            && (u26 == 0xFFFF_FFFF || u26 == 1 || u26 == 0)
            && (anchor == 0xFFFF_FFFF || anchor <= 8);
        if !ok {
            return Err(ReadError);
        }
        let x = UITextBox {
            style: get_u32(&fs, 1),
            overriding_font_size: w2,
            offset: [get_u32(&fs, 4), get_u32(&fs, 5)],
            scale: [get_u32(&fs, 6), get_u32(&fs, 7)],
            alpha: w8,
            max_width: w9,
            max_height: get_u32(&fs, 10),
            area: [get_u32(&fs, 11), get_u32(&fs, 12)],
            raw_text: get_bytes(&fs, 13),
            use_lines_max_count: get_u32(&fs, 14),
            lines_max_count: get_u32(&fs, 15),
            loc_id: get_u32(&fs, 16),
            auto_scroll_speed: w17,
            auto_scroll_speed_y: get_u32(&fs, 18),
            auto_scroll_wait_time: get_u32(&fs, 19),
            auto_scroll_wait_time_y: get_u32(&fs, 20),
            auto_scroll_font_effect_name: get_bytes(&fs, 21),
            auto_scroll_reset_on_inactive: get_u32(&fs, 22),
            scroll_once: get_u32(&fs, 23),
            overriding_shadow_color: [get_u32(&fs, 33), get_u32(&fs, 34), get_u32(&fs, 35), get_u32(&fs, 36)],
            overriding_shadow_offset: [get_u32(&fs, 37), get_u32(&fs, 38)],
            overriding_line_spacing: w39,
            overriding_font_size_min: get_u32(&fs, 41 + a),
            ending_dots: get_u32(&fs, 42 + a),
            colorize_icons: if b == 1 { Some(get_u32(&fs, 43 + a)) } else { None },
            overriding_anchor: anchor as i32,
        };
        assert(x.overriding_shadow_color@ =~= seq![fu32(flds_view(fs@)[33]), fu32(flds_view(fs@)[34]), fu32(flds_view(fs@)[35]), fu32(flds_view(fs@)[36])]);
        Ok((x, q))
    }
}

// ---------------------------------------------------------------- CreditsComponent

/// Whether the game stores the four extra values of the credits (after Just Dance 2017).
pub open spec fn credits_has_spawn(ugi: UniqueGameId) -> bool {
    ugi.game.order() > 2
}

/// The segments of a credits component: the magic, the number of lines, six
/// sizes and durations (and four more values after Just Dance 2017), then the lines.
pub open spec fn credits_layout(ugi: UniqueGameId) -> Seq<Seg> {
    seq![
        Seg::Run(repeat(FieldKind::U32, if credits_has_spawn(ugi) { 12 } else { 8 })),
        Seg::List(seq![FieldKind::Str]),
    ]
}

/// The segments of the credits component at `s[p..]`, where they decode and
/// the magic matches, and the position after them.
pub open spec fn credits_at(s: Seq<u8>, p: int, ugi: UniqueGameId) -> Option<(Seq<SegVal>, int)> {
    match dec_segs(credits_layout(ugi), s, p) {
        Some((vs, q)) => if fu32(frun(vs[0])[0]) == 0x342E_A4FC {
            Some((vs, q))
        } else {
            None
        },
        None => None,
    }
}

/// The value of an optional field that the game may not store.
pub open spec fn opt_field(present: bool, f: Fld) -> Option<u32> {
    if present { Some(fu32(f)) } else { None }
}

/// Whether `x` holds the values of the segments `vs` of a credits component.
pub open spec fn credits_matches(x: CreditsComponent, vs: Seq<SegVal>, ugi: UniqueGameId) -> bool {
    let fs = frun(vs[0]);
    let c = credits_has_spawn(ugi);
    &&& x.lines_number == fu32(fs[1])
    &&& x.name_font_size == fu32(fs[2])
    &&& x.title_font_size == fu32(fs[3])
    &&& x.big_title_font_size == fu32(fs[4])
    &&& x.very_big_title_font_size == fu32(fs[5])
    &&& x.anim_duration == fu32(fs[6])
    &&& x.lines_pos_offset == fu32(fs[7])
    &&& x.min_anim_duration == opt_field(c, fs[8])
    &&& x.speed_steps == opt_field(c, fs[9])
    &&& x.bottom_spawn_y == opt_field(c, fs[10])
    &&& x.top_spawn_y == opt_field(c, fs[11])
    &&& x.credits_lines@.len() == fitems(vs[1]).len()
    &&& forall|k: int| 0 <= k < x.credits_lines@.len() ==> (#[trigger] x.credits_lines@[k])@ == fbytes(fitems(vs[1])[k][0])
}

impl CreditsComponent {
    /// Parses a credits component at `data[position..]`; returns it and the position after it.
    pub fn deserialize_at_with(data: &[u8], position: usize, ugi: UniqueGameId) -> (r: Result<(CreditsComponent, usize), ReadError>)
        ensures
            match credits_at(data@, position as int, ugi) {
                Some((vs, q)) => r matches Ok((x, e)) && e == q && credits_matches(x, vs, ugi),
                None => r is Err,
            },
    {
        let c = ugi.game.rank() > 2;
        let mut head: Vec<FieldKind> = Vec::new();
        let n: usize = if c { 12 } else { 8 };
        push_repeat(&mut head, FieldKind::U32, n);
        let lines_kinds: Vec<FieldKind> = vec![FieldKind::Str];
        assert(head@ =~= repeat(FieldKind::U32, if credits_has_spawn(ugi) { 12 } else { 8 }));
        assert(lines_kinds@ =~= seq![FieldKind::Str]);
        let layout = vec![Segment::Run(head), Segment::List(lines_kinds)];
        assert(segs_view(layout@) =~= credits_layout(ugi));
        let (vs, q) = match read_segs(&layout, data, position) {
            Some(x) => x,
            None => return Err(ReadError),
        };
        proof {
            lemma_dec_segs_fits(credits_layout(ugi), data@, position as int);
            assert(seg_fits(credits_layout(ugi)[0], segvals_view(vs@)[0]));
            assert(seg_fits(credits_layout(ugi)[1], segvals_view(vs@)[1]));
        }
        let fs = seg_run(&vs, 0);
        let items = seg_items(&vs, 1);
        if get_u32(fs, 0) != 0x342E_A4FC {
            return Err(ReadError);
        }
        let mut lines: Vec<Vec<u8>> = Vec::new();
        let mut k: usize = 0;
        while k < items.len()
            invariant
                k <= items@.len(),
                lines@.len() == k,
                forall|j: int| 0 <= j < items@.len() ==> fits(seq![FieldKind::Str], #[trigger] items_view(items@)[j]),
                forall|j: int| 0 <= j < k ==> (#[trigger] lines@[j])@ == fbytes(items_view(items@)[j][0]),
            decreases items@.len() - k,
        {
            assert(fits(seq![FieldKind::Str], items_view(items@)[k as int]));
            lines.push(get_bytes(&items[k], 0));
            k = k + 1;
        }
        let x = CreditsComponent {
            lines_number: get_u32(fs, 1),
            name_font_size: get_u32(fs, 2),
            title_font_size: get_u32(fs, 3),
            big_title_font_size: get_u32(fs, 4),
            very_big_title_font_size: get_u32(fs, 5),
            anim_duration: get_u32(fs, 6),
            lines_pos_offset: get_u32(fs, 7),
            min_anim_duration: if c { Some(get_u32(fs, 8)) } else { None },
            speed_steps: if c { Some(get_u32(fs, 9)) } else { None },
            bottom_spawn_y: if c { Some(get_u32(fs, 10)) } else { None },
            top_spawn_y: if c { Some(get_u32(fs, 11)) } else { None },
            credits_lines: lines,
        };
        Ok((x, q))
    }
}

// ---------------------------------------------------------------- property patcher

/// The fields of a property patcher: a one and a zero, and one more zero
/// except in Just Dance 2017.
pub open spec fn property_patcher_kinds(ugi: UniqueGameId) -> Seq<FieldKind> {
    repeat(FieldKind::U32, if ugi.game == Game::JustDance2017 { 2 } else { 3 })
}

/// Whether the fields of a property patcher hold what the format requires.
pub open spec fn property_patcher_ok(fs: Seq<Fld>, ugi: UniqueGameId) -> bool {
    &&& fu32(fs[0]) == 1
    &&& fu32(fs[1]) == 0
    &&& (ugi.game != Game::JustDance2017 ==> fu32(fs[2]) == 0)
}

/// The fields of a property patcher at `s[p..]`, where they decode and hold
/// what the format requires, and the position after them.
pub open spec fn property_patcher_at(s: Seq<u8>, p: int, ugi: UniqueGameId) -> Option<(Seq<Fld>, int)> {
    record_at(property_patcher_kinds(ugi), |fs: Seq<Fld>| property_patcher_ok(fs, ugi), s, p)
}

/// Checks the property patcher component at `data[position..]`; returns the position after it.
pub fn parse_property_patcher(data: &[u8], position: usize, ugi: UniqueGameId) -> (r: Result<usize, ReadError>)
    ensures
        match property_patcher_at(data@, position as int, ugi) {
            Some((fs, q)) => r == Ok::<usize, ReadError>(q as usize),
            None => r is Err,
        },
{
    let is_2017 = ugi.game == Game::JustDance2017;
    let mut layout: Vec<FieldKind> = Vec::new();
    push_repeat(&mut layout, FieldKind::U32, if is_2017 { 2 } else { 3 });
    let (fs, q) = match read_fields(&layout, data, position) {
        Ok(x) => x,
        Err(e) => return Err(e),
    };
    if get_u32(&fs, 0) == 1 && get_u32(&fs, 1) == 0 && (is_2017 || get_u32(&fs, 2) == 0) {
        Ok(q)
    } else {
        Err(ReadError)
    }
}

// ---------------------------------------------------------------- carousel animation items

/// The animation items of a carousel as the format requires them: no
/// animations to listen to, disabled, not shown at init, and both end checks on.
pub open spec fn anim_items_ok(fs: Seq<Fld>, o: int) -> bool {
    &&& fu32(fs[o]) == 0
    &&& fu32(fs[o + 1]) == 0
    &&& fu32(fs[o + 2]) == 0
    &&& fu32(fs[o + 3]) == 1
    &&& fu32(fs[o + 4]) == 1
}

/// Whether `a` holds the animation items whose five fields start at `fs[o]`.
pub open spec fn anim_items_matches(a: CarouselAnimItemsDesc, fs: Seq<Fld>, o: int) -> bool {
    &&& a.enable == fu32(fs[o + 1])
    &&& a.show_items_at_init == fu32(fs[o + 2])
    &&& a.enable_carousel_on_anim_ends == fu32(fs[o + 3])
    &&& a.check_items_visibility_on_anim_ends == fu32(fs[o + 4])
}

/// The animation items whose five fields start at `fs[o]`, where they hold what the format requires.
pub fn anim_items_check(fs: &Vec<FieldValue>, o: usize) -> (r: Result<CarouselAnimItemsDesc, ReadError>)
    requires
        o + 5 <= fs@.len(),
    ensures
        match r {
            Ok(a) => anim_items_ok(flds_view(fs@), o as int) && anim_items_matches(a, flds_view(fs@), o as int),
            Err(_) => !anim_items_ok(flds_view(fs@), o as int),
        },
{
    assert(fs@.len() == fs.len());
    let a = CarouselAnimItemsDesc {
        enable: get_u32(fs, o + 1),
        show_items_at_init: get_u32(fs, o + 2),
        enable_carousel_on_anim_ends: get_u32(fs, o + 3),
        check_items_visibility_on_anim_ends: get_u32(fs, o + 4),
    };
    if get_u32(fs, o) == 0 && a.enable == 0 && a.show_items_at_init == 0 && a.enable_carousel_on_anim_ends == 1
        && a.check_items_visibility_on_anim_ends == 1 {
        Ok(a)
    } else {
        Err(ReadError)
    }
}

} // verus!
