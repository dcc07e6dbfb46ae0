//! Parsing of the binary scenes of Just Dance 2015. Classes are stored as the
//! string ids of their names: `Actor` is `0x97CA_628B`, `SubSceneActor` is
//! `0x4FA4_0F09`, `JD_MapSceneConfig` is `0xCE01_8EDB` and
//! `JD_SongDatabaseSceneConfig` is `0xF878_DC2D`.
use vstd::prelude::*;
use crate::bytes::{read_u32_at, bytes_ends_with, ends_with};
use crate::error::{ParserError, ReadError};
use crate::layout::{
    FieldKind, FieldValue, Fld, Seg, SegVal, Segment, dec_run, dec_segs, read_fields, read_segs, flds_view,
    items_view, segs_view, segvals_view, fu32, fbytes, frun, fitems, fits, seg_fits, get_u32, get_bytes, seg_run,
    seg_items, repeat, push_repeat, lemma_dec_segs_fits, lemma_dec_run_fits,
};
use crate::act::components::{record_at, is_zero_f32, zero_f32, repeat_split_paths, lemma_repeat_split_paths_len, color_matches, color_from};
use crate::act::parser::{split_path_kinds, push_split_path, end_of};
use crate::utils::{Color, Game, UniqueGameId};
use crate::bytes::be32_at as be32;
use super::types::{
    Scene, SubSceneActor, WrappedActors, WrappedActor, WrappedSubSceneActor, WrappedScene, WrappedSceneConfigs, Root, Actor, CoverflowSkuSongs, CoverflowSong, MapSceneConfig, SceneConfigs, SongDatabaseSceneConfig, WrappedJdSceneConfig, WrappedMapSceneConfig, WrappedSongDatabaseSceneConfig,     Enum, GFXMaterialSerializable, GFXMaterialSerializableParam, GFXMaterialTexturePathSet, GFXPrimitiveParam,
    Material, MaterialGraphicComponent, MaterialParams, PleoComponent, PleoTextureGraphicComponent,
    PrimitiveParameters, TextureSet, WrappedComponent, WrappedMaterialGraphicComponent, WrappedPleoComponent,
    WrappedPleoTextureGraphicComponent,
};

verus! {

// ---------------------------------------------------------------- values

/// The position of an `f32` on the number line, from its bits: negative values
/// below zero, and `-0.0` at zero like `0.0`.
pub open spec fn f32_key(b: u32) -> int {
    if b < 0x8000_0000 { b as int } else { -((b - 0x8000_0000) as int) }
}

/// Whether the `f32` with bits `b` lies between the finite `f32` with bits
/// `lo` and `hi` (inclusive), as `lo <= x && x <= hi` decides it: a NaN never does.
pub open spec fn f32_between(b: u32, lo: u32, hi: u32) -> bool {
    f32_key(lo) <= f32_key(b) <= f32_key(hi)
}

/// Whether the `f32` with bits `b` lies between the finite `f32` with bits `lo` and `hi`.
pub fn f32_within(b: u32, lo: u32, hi: u32) -> (r: bool)
    ensures
        r == f32_between(b, lo, hi),
{
    let (kb_neg, kb) = if b < 0x8000_0000 { (false, b) } else { (true, b - 0x8000_0000) };
    let (kl_neg, kl) = if lo < 0x8000_0000 { (false, lo) } else { (true, lo - 0x8000_0000) };
    let (kh_neg, kh) = if hi < 0x8000_0000 { (false, hi) } else { (true, hi - 0x8000_0000) };
    let lo_ok = if kl_neg {
        if kb_neg { kb <= kl } else { true }
    } else {
        if kb_neg { kl == 0 && kb == 0 } else { kl <= kb }
    };
    let hi_ok = if kh_neg {
        if kb_neg { kh <= kb } else { kh == 0 && kb == 0 }
    } else {
        if kb_neg { true } else { kb <= kh }
    };
    lo_ok && hi_ok
}

/// The bytes of the text `anchor`.
pub open spec fn text_anchor() -> Seq<u8> {
    seq![97u8, 110, 99, 104, 111, 114]
}

/// The bytes of the text `oldAnchor`.
pub open spec fn text_old_anchor() -> Seq<u8> {
    seq![111u8, 108, 100, 65, 110, 99, 104, 111, 114]
}

/// The bytes of the text `gfxOccludeInfo`.
pub open spec fn text_gfx_occlude_info() -> Seq<u8> {
    seq![103u8, 102, 120, 79, 99, 99, 108, 117, 100, 101, 73, 110, 102, 111]
}

/// The bytes of the text `.msh`.
pub open spec fn text_msh() -> Seq<u8> {
    seq![46u8, 109, 115, 104]
}

/// Whether `e` is the enumeration selection `name` = `sel`.
pub open spec fn enum_is(e: Enum, name: Seq<u8>, sel: i32) -> bool {
    e.name@ == name && e.selection == sel
}

pub(crate) fn enum_of(name: &[u8], sel: i32) -> (r: Enum)
    ensures
        enum_is(r, name@, sel),
{
    let mut v: Vec<u8> = Vec::new();
    crate::bytes::push_bytes(&mut v, name);
    assert(v@ =~= name@);
    Enum { name: v, selection: sel }
}

/// The text of a split path: its directory followed by its file name.
pub open spec fn path_text(fs: Seq<Fld>, o: int) -> Seq<u8> {
    fbytes(fs[o]) + fbytes(fs[o + 1])
}

fn path_text_of(fs: &Vec<FieldValue>, o: usize) -> (r: Vec<u8>)
    requires
        o + 2 <= fs@.len(),
    ensures
        r@ == path_text(flds_view(fs@), o as int),
{
    assert(fs@.len() == fs.len());
    let mut v = get_bytes(fs, o);
    let b = get_bytes(fs, o + 1);
    crate::bytes::push_bytes(&mut v, b.as_slice());
    v
}

// ---------------------------------------------------------------- material graphic components

/// The fields of a material graphic component of a scene: the color factor and
/// occlusion, three zeros, the shadow flag, a zero, the anchor, two `f32`, the
/// material (nine texture paths, the ATL channel, the shader path, the
/// reflector factor, the stencil and alpha tests), the sinus amplitude and
/// speed, the two angles and the old anchor.
pub open spec fn isc_mgc_kinds() -> Seq<FieldKind> {
    repeat(FieldKind::U32, 13) + repeat_split_paths(9) + seq![FieldKind::U32] + split_path_kinds()
        + repeat(FieldKind::U32, 11)
}

/// Whether the fields of a material graphic component of a scene hold what
/// the format requires: no occlusion, the zeros, the shadow flag all ones,
/// anchors from 0 to 9, the two `f32` within their ranges, an empty shader path
/// or one whose file name ends with `.msh`, a zero reflector factor, no stencil
/// test, both alpha values all ones, and zero angles.
pub open spec fn isc_mgc_ok(fs: Seq<Fld>) -> bool {
    &&& fu32(fs[4]) == 0
    &&& fu32(fs[5]) == 0 && fu32(fs[6]) == 0 && fu32(fs[7]) == 0
    &&& fu32(fs[8]) == 0xFFFF_FFFF
    &&& fu32(fs[9]) == 0
    &&& fu32(fs[10]) <= 9
    &&& f32_between(fu32(fs[11]), 0xBDF5_C28F, 0)
    &&& f32_between(fu32(fs[12]), 0xBF80_0000, 0x3F99_999A)
    &&& fu32(fs[49]) == 0
    &&& ((fbytes(fs[50]).len() == 0 && fbytes(fs[51]).len() == 0) || ends_with(fbytes(fs[51]), text_msh()))
    &&& is_zero_f32(fu32(fs[54]))
    &&& fu32(fs[55]) == 0
    &&& fu32(fs[56]) == 0xFFFF_FFFF
    &&& fu32(fs[57]) == 0xFFFF_FFFF
    &&& is_zero_f32(fu32(fs[62]))
    &&& is_zero_f32(fu32(fs[63]))
    &&& fu32(fs[64]) <= 9
}

/// Whether the material `m` of a scene holds the material fields of `fs`.
pub open spec fn isc_material_matches(m: Material, fs: Seq<Fld>) -> bool {
    let g = m.gfx_material_serializable;
    let t = g.texture_set.gfx_material_texture_path_set;
    &&& g.atl_channel == fu32(fs[49])
    &&& g.atl_path@.len() == 0
    &&& g.shader_path@ == path_text(fs, 50)
    &&& g.stencil_test == Some(fu32(fs[55]))
    &&& g.alpha_test == fu32(fs[56])
    &&& g.alpha_ref == fu32(fs[57])
    &&& t.diffuse@ == path_text(fs, 13)
    &&& t.back_light@ == path_text(fs, 17)
    &&& t.normal@ == path_text(fs, 21)
    &&& t.separate_alpha@ == path_text(fs, 25)
    &&& t.diffuse_2@ == path_text(fs, 29)
    &&& t.back_light_2@ == path_text(fs, 33)
    &&& t.anim_impostor@ == path_text(fs, 37)
    &&& t.diffuse_3@ == path_text(fs, 41)
    &&& t.diffuse_4@ == path_text(fs, 45)
    &&& g.material_params.gfx_material_serializable_param.reflector_factor == fu32(fs[54])
    &&& g.outlined_mask_params is None
}

/// Whether the common values of a material graphic component of a scene are those of the fields `fs`.
pub open spec fn isc_mgc_values_match(
    color_computer_tag_id: u32,
    render_in_target: bool,
    disable_light: bool,
    disable_shadow: u32,
    atlas_index: u32,
    custom_anchor: [u32; 2],
    sinus_amplitude: [u32; 3],
    sinus_speed: u32,
    angle_x: u32,
    angle_y: u32,
    primitive_parameters: PrimitiveParameters,
    enums: Seq<Enum>,
    material: Material,
    fs: Seq<Fld>,
) -> bool {
    &&& color_computer_tag_id == 0
    &&& !render_in_target
    &&& !disable_light
    &&& disable_shadow == fu32(fs[8])
    &&& atlas_index == 0
    &&& custom_anchor@ == seq![0u32, 0u32]
    &&& sinus_amplitude@ == seq![fu32(fs[58]), fu32(fs[59]), fu32(fs[60])]
    &&& sinus_speed == fu32(fs[61])
    &&& angle_y == fu32(fs[62])
    &&& angle_x == fu32(fs[63])
    &&& color_matches(primitive_parameters.gfx_primitive_param.color_factor, fs, 0)
    &&& primitive_parameters.gfx_primitive_param.enums@.len() == 1
    &&& enum_is(primitive_parameters.gfx_primitive_param.enums@[0], text_gfx_occlude_info(), fu32(fs[4]) as i32)
    &&& enums.len() == 2
    &&& enum_is(enums[0], text_anchor(), fu32(fs[10]) as i32)
    &&& enum_is(enums[1], text_old_anchor(), fu32(fs[64]) as i32)
    &&& isc_material_matches(material, fs)
}

/// Whether `x` holds the material graphic component of a scene with the fields `fs`.
pub open spec fn isc_mgc_matches(x: MaterialGraphicComponent, fs: Seq<Fld>) -> bool {
    isc_mgc_values_match(
        x.color_computer_tag_id,
        x.render_in_target,
        x.disable_light,
        x.disable_shadow,
        x.atlas_index,
        x.custom_anchor,
        x.sinus_amplitude,
        x.sinus_speed,
        x.angle_x,
        x.angle_y,
        x.primitive_parameters,
        x.enums@,
        x.material,
        fs,
    )
}

proof fn lemma_isc_mgc_kinds_len()
    ensures
        isc_mgc_kinds().len() == 65,
{
    lemma_repeat_split_paths_len(9);
}

fn isc_mgc_layout() -> (r: Vec<FieldKind>)
    ensures
        r@ == isc_mgc_kinds(),
{
    let mut v: Vec<FieldKind> = Vec::new();
    push_repeat(&mut v, FieldKind::U32, 13);
    let ghost v0 = v@;
    let mut i: usize = 0;
    while i < 9
        invariant
            i <= 9,
            v@ == v0 + repeat_split_paths(i as nat),
        decreases 9 - i,
    {
        push_split_path(&mut v);
        i = i + 1;
    }
    v.push(FieldKind::U32);
    push_split_path(&mut v);
    push_repeat(&mut v, FieldKind::U32, 11);
    assert(v@ =~= isc_mgc_kinds());
    v
}

/// The values of a material graphic component of a scene read from the fields `fs`, where they hold what the format requires.
struct IscMgcValues {
    disable_shadow: u32,
    sinus_amplitude: [u32; 3],
    sinus_speed: u32,
    angle_x: u32,
    angle_y: u32,
    primitive_parameters: PrimitiveParameters,
    enums: Vec<Enum>,
    material: Material,
}

fn isc_mgc_check(fs: &Vec<FieldValue>) -> (r: Result<IscMgcValues, ReadError>)
    requires
        fs@.len() >= 65,
    ensures
        match r {
            Ok(v) => isc_mgc_ok(flds_view(fs@)) && isc_mgc_values_match(0, false, false, v.disable_shadow, 0, [0, 0],
                v.sinus_amplitude, v.sinus_speed, v.angle_x, v.angle_y, v.primitive_parameters, v.enums@, v.material,
                flds_view(fs@)),
            Err(_) => !isc_mgc_ok(flds_view(fs@)),
        },
{
    let shader_dir = get_bytes(fs, 50);
    let shader_file = get_bytes(fs, 51);
    let msh: [u8; 4] = [46u8, 109, 115, 104];
    assert(msh@ =~= text_msh());
    let shader_ok = (shader_dir.len() == 0 && shader_file.len() == 0) || bytes_ends_with(shader_file.as_slice(), msh.as_slice());
    if !(get_u32(fs, 4) == 0 && get_u32(fs, 5) == 0 && get_u32(fs, 6) == 0 && get_u32(fs, 7) == 0
        && get_u32(fs, 8) == 0xFFFF_FFFF && get_u32(fs, 9) == 0 && get_u32(fs, 10) <= 9
        && f32_within(get_u32(fs, 11), 0xBDF5_C28F, 0) && f32_within(get_u32(fs, 12), 0xBF80_0000, 0x3F99_999A)
        && get_u32(fs, 49) == 0 && shader_ok && zero_f32(get_u32(fs, 54)) && get_u32(fs, 55) == 0
        && get_u32(fs, 56) == 0xFFFF_FFFF && get_u32(fs, 57) == 0xFFFF_FFFF && zero_f32(get_u32(fs, 62))
        && zero_f32(get_u32(fs, 63)) && get_u32(fs, 64) <= 9) {
        return Err(ReadError);
    }
    let anchor_name: [u8; 6] = [97u8, 110, 99, 104, 111, 114];
    let old_anchor_name: [u8; 9] = [111u8, 108, 100, 65, 110, 99, 104, 111, 114];
    let occlude_name: [u8; 14] = [103u8, 102, 120, 79, 99, 99, 108, 117, 100, 101, 73, 110, 102, 111];
    assert(anchor_name@ =~= text_anchor());
    assert(old_anchor_name@ =~= text_old_anchor());
    assert(occlude_name@ =~= text_gfx_occlude_info());
    let mut prim_enums: Vec<Enum> = Vec::new();
    prim_enums.push(enum_of(occlude_name.as_slice(), get_u32(fs, 4) as i32));
    let mut enums: Vec<Enum> = Vec::new();
    enums.push(enum_of(anchor_name.as_slice(), get_u32(fs, 10) as i32));
    enums.push(enum_of(old_anchor_name.as_slice(), get_u32(fs, 64) as i32));
    let material = Material {
        gfx_material_serializable: GFXMaterialSerializable {
            atl_channel: get_u32(fs, 49),
            atl_path: Vec::new(),
            shader_path: path_text_of(fs, 50),
            stencil_test: Some(get_u32(fs, 55)),
            alpha_test: get_u32(fs, 56),
            alpha_ref: get_u32(fs, 57),
            texture_set: TextureSet {
                gfx_material_texture_path_set: GFXMaterialTexturePathSet {
                    diffuse: path_text_of(fs, 13),
                    back_light: path_text_of(fs, 17),
                    normal: path_text_of(fs, 21),
                    separate_alpha: path_text_of(fs, 25),
                    diffuse_2: path_text_of(fs, 29),
                    back_light_2: path_text_of(fs, 33),
                    anim_impostor: path_text_of(fs, 37),
                    diffuse_3: path_text_of(fs, 41),
                    diffuse_4: path_text_of(fs, 45),
                },
            },
            material_params: MaterialParams {
                gfx_material_serializable_param: GFXMaterialSerializableParam { reflector_factor: get_u32(fs, 54) },
            },
            outlined_mask_params: None,
        },
    };
    let v = IscMgcValues {
        disable_shadow: get_u32(fs, 8),
        sinus_amplitude: [get_u32(fs, 58), get_u32(fs, 59), get_u32(fs, 60)],
        sinus_speed: get_u32(fs, 61),
        angle_x: get_u32(fs, 63),
        angle_y: get_u32(fs, 62),
        primitive_parameters: PrimitiveParameters {
            gfx_primitive_param: GFXPrimitiveParam { color_factor: color_from(fs, 0), enums: prim_enums },
        },
        enums,
        material,
    };
    let ghost z: [u32; 2] = [0, 0];
    assert(z@ =~= seq![0u32, 0u32]);
    assert(v.sinus_amplitude@ =~= seq![fu32(flds_view(fs@)[58]), fu32(flds_view(fs@)[59]), fu32(flds_view(fs@)[60])]);
    Ok(v)
}


/// The fields of a material graphic component of a scene at `s[p..]`, where
/// they decode and hold what the format requires, and the position after them.
pub open spec fn isc_mgc_at(s: Seq<u8>, p: int) -> Option<(Seq<Fld>, int)> {
    record_at(isc_mgc_kinds(), |fs: Seq<Fld>| isc_mgc_ok(fs), s, p)
}

/// The fields of a video texture component of a scene: those of a material
/// graphic component and the channel id.
pub open spec fn isc_ptgc_kinds() -> Seq<FieldKind> {
    isc_mgc_kinds() + seq![FieldKind::Str]
}

/// The fields of a video texture component of a scene at `s[p..]`, where they
/// decode and hold what the format requires, and the position after them.
pub open spec fn isc_ptgc_at(s: Seq<u8>, p: int) -> Option<(Seq<Fld>, int)> {
    record_at(isc_ptgc_kinds(), |fs: Seq<Fld>| isc_mgc_ok(fs), s, p)
}

/// Whether `x` holds the video texture component of a scene with the fields `fs`.
pub open spec fn isc_ptgc_matches(x: PleoTextureGraphicComponent, fs: Seq<Fld>) -> bool {
    &&& isc_mgc_values_match(
        x.color_computer_tag_id,
        x.render_in_target,
        x.disable_light,
        x.disable_shadow,
        x.atlas_index,
        x.custom_anchor,
        x.sinus_amplitude,
        x.sinus_speed,
        x.angle_x,
        x.angle_y,
        x.primitive_parameters,
        x.enums@,
        x.material,
        fs,
    )
    &&& x.channel_id@ == fbytes(fs[65])
}

/// Whether the game stores no MPEG-DASH manifest with a video: Just Dance 2015.
pub open spec fn no_dash(ugi: UniqueGameId) -> bool {
    ugi.game.order() == 0
}

/// The fields of a video player component of a scene: the video path, the
/// MPEG-DASH manifest path where the game has one, and the channel id.
pub open spec fn isc_pleo_kinds(ugi: UniqueGameId) -> Seq<FieldKind> {
    if no_dash(ugi) {
        split_path_kinds() + seq![FieldKind::Str]
    } else {
        split_path_kinds() + split_path_kinds() + seq![FieldKind::Str]
    }
}

/// Whether `x` holds the video player component of a scene with the fields `fs`.
pub open spec fn isc_pleo_matches(x: PleoComponent, fs: Seq<Fld>, ugi: UniqueGameId) -> bool {
    &&& x.video@ == path_text(fs, 0)
    &&& if no_dash(ugi) {
        x.dash_mpd@.len() == 0 && x.channel_id@ == fbytes(fs[4])
    } else {
        x.dash_mpd@ == path_text(fs, 4) && x.channel_id@ == fbytes(fs[8])
    }
}

/// The position after the component of a scene at `s[p..]`, where one
/// decodes: its class, then what the class calls for.
pub open spec fn isc_component_end(s: Seq<u8>, p: int, ugi: UniqueGameId) -> Option<int> {
    if !(0 <= p && p + 4 <= s.len()) {
        None
    } else {
        match be32(s, p) as u32 {
            0x67B8_BB77 | 0x8DA9_E375 | 0x4055_79FB | 0xE07F_CC3F | 0x677B_269B | 0x7A7C_235B | 0x231F_27DE => Some(p + 4),
            0x72B6_1FC5 => end_of(isc_mgc_at(s, p + 4)),
            0x1263_DAD9 => end_of(dec_run(isc_pleo_kinds(ugi), s, p + 4)),
            0x0579_E81B => end_of(isc_ptgc_at(s, p + 4)),
            _ => None,
        }
    }
}

/// Whether `c` is the component of a scene that decodes at `s[p..]`.
pub open spec fn isc_component_matches(c: WrappedComponent, s: Seq<u8>, p: int, ugi: UniqueGameId) -> bool {
    match be32(s, p) as u32 {
        0x67B8_BB77 => c is Autodance,
        0x8DA9_E375 => c is BlockFlowComponent,
        0x4055_79FB => c is SongDatabase,
        0xE07F_CC3F => c is SongDesc,
        0x677B_269B => c is MasterTape,
        0x7A7C_235B => c is MusicTrack,
        0x231F_27DE => c is TapeCase,
        0x72B6_1FC5 => match isc_mgc_at(s, p + 4) {
            Some((fs, _)) => c matches WrappedComponent::MaterialGraphic(w) && isc_mgc_matches(w.material_graphic_component, fs),
            None => false,
        },
        0x1263_DAD9 => match dec_run(isc_pleo_kinds(ugi), s, p + 4) {
            Some((fs, _)) => c matches WrappedComponent::Pleo(w) && isc_pleo_matches(w.pleo_component, fs, ugi),
            None => false,
        },
        0x0579_E81B => match isc_ptgc_at(s, p + 4) {
            Some((fs, _)) => c matches WrappedComponent::PleoTextureGraphic(w) && isc_ptgc_matches(w.pleo_texture_graphic_component, fs),
            None => false,
        },
        _ => false,
    }
}

fn mgc_from(fs: &Vec<FieldValue>) -> (r: Result<MaterialGraphicComponent, ReadError>)
    requires
        fs@.len() >= 65,
    ensures
        match r {
            Ok(x) => isc_mgc_ok(flds_view(fs@)) && isc_mgc_matches(x, flds_view(fs@)),
            Err(_) => !isc_mgc_ok(flds_view(fs@)),
        },
{
    let v = isc_mgc_check(fs)?;
    Ok(MaterialGraphicComponent {
        color_computer_tag_id: 0,
        render_in_target: false,
        disable_light: false,
        disable_shadow: v.disable_shadow,
        atlas_index: 0,
        custom_anchor: [0, 0],
        sinus_amplitude: v.sinus_amplitude,
        sinus_speed: v.sinus_speed,
        angle_x: v.angle_x,
        angle_y: v.angle_y,
        primitive_parameters: v.primitive_parameters,
        enums: v.enums,
        material: v.material,
    })
}

fn read_isc_mgc(data: &[u8], p: usize) -> (r: Result<(MaterialGraphicComponent, usize), ReadError>)
    ensures
        match isc_mgc_at(data@, p as int) {
            Some((fs, q)) => r matches Ok((x, e)) && e == q && isc_mgc_matches(x, fs),
            None => r is Err,
        },
{
    let layout = isc_mgc_layout();
    let (fs, q) = read_fields(&layout, data, p)?;
    proof { lemma_isc_mgc_kinds_len(); }
    let x = mgc_from(&fs)?;
    Ok((x, q))
}

fn read_isc_ptgc(data: &[u8], p: usize) -> (r: Result<(PleoTextureGraphicComponent, usize), ReadError>)
    ensures
        match isc_ptgc_at(data@, p as int) {
            Some((fs, q)) => r matches Ok((x, e)) && e == q && isc_ptgc_matches(x, fs),
            None => r is Err,
        },
{
    let mut layout = isc_mgc_layout();
    layout.push(FieldKind::Str);
    assert(layout@ =~= isc_ptgc_kinds());
    let (fs, q) = read_fields(&layout, data, p)?;
    proof { lemma_isc_mgc_kinds_len(); }
    assert(fs@.len() == fs.len());
    let v = isc_mgc_check(&fs)?;
    let x = PleoTextureGraphicComponent {
        color_computer_tag_id: 0,
        render_in_target: false,
        disable_light: false,
        disable_shadow: v.disable_shadow,
        atlas_index: 0,
        custom_anchor: [0, 0],
        sinus_amplitude: v.sinus_amplitude,
        sinus_speed: v.sinus_speed,
        angle_x: v.angle_x,
        angle_y: v.angle_y,
        channel_id: get_bytes(&fs, 65),
        primitive_parameters: v.primitive_parameters,
        enums: v.enums,
        material: v.material,
    };
    Ok((x, q))
}

fn read_isc_pleo(data: &[u8], p: usize, ugi: UniqueGameId) -> (r: Result<(PleoComponent, usize), ReadError>)
    ensures
        match dec_run(isc_pleo_kinds(ugi), data@, p as int) {
            Some((fs, q)) => r matches Ok((x, e)) && e == q && isc_pleo_matches(x, fs, ugi),
            None => r is Err,
        },
{
    let nd = ugi.game.rank() == 0;
    let mut layout: Vec<FieldKind> = Vec::new();
    push_split_path(&mut layout);
    if !nd {
        push_split_path(&mut layout);
    }
    layout.push(FieldKind::Str);
    assert(layout@ =~= isc_pleo_kinds(ugi));
    let (fs, q) = read_fields(&layout, data, p)?;
    assert(fs@.len() == fs.len());
    let x = if nd {
        PleoComponent { video: path_text_of(&fs, 0), dash_mpd: Vec::new(), channel_id: get_bytes(&fs, 4) }
    } else {
        PleoComponent { video: path_text_of(&fs, 0), dash_mpd: path_text_of(&fs, 4), channel_id: get_bytes(&fs, 8) }
    };
    Ok((x, q))
}

impl WrappedComponent {
    /// Parses the component of a scene at `data[position..]`: its class, then
    /// what the class calls for. Returns it and the position after it.
    pub fn deserialize_at_with(data: &[u8], position: usize, ugi: UniqueGameId) -> (r: Result<(WrappedComponent, usize), ReadError>)
        ensures
            match isc_component_end(data@, position as int, ugi) {
                Some(q) => r matches Ok((c, e)) && e == q && isc_component_matches(c, data@, position as int, ugi),
                None => r is Err,
            },
    {
        let id = match read_u32_at(data, position) {
            Some(id) => id,
            None => return Err(ReadError),
        };
        assert(data@.len() == data.len());
        let p = position + 4;
        match id {
            0x67B8_BB77 => Ok((WrappedComponent::Autodance, p)),
            0x8DA9_E375 => Ok((WrappedComponent::BlockFlowComponent, p)),
            0x4055_79FB => Ok((WrappedComponent::SongDatabase, p)),
            0xE07F_CC3F => Ok((WrappedComponent::SongDesc, p)),
            0x677B_269B => Ok((WrappedComponent::MasterTape, p)),
            0x7A7C_235B => Ok((WrappedComponent::MusicTrack, p)),
            0x231F_27DE => Ok((WrappedComponent::TapeCase, p)),
            0x72B6_1FC5 => {
                let (x, q) = read_isc_mgc(data, p)?;
                Ok((WrappedComponent::MaterialGraphic(WrappedMaterialGraphicComponent { material_graphic_component: x }), q))
            },
            0x1263_DAD9 => {
                let (x, q) = read_isc_pleo(data, p, ugi)?;
                Ok((WrappedComponent::Pleo(WrappedPleoComponent { pleo_component: x }), q))
            },
            0x0579_E81B => {
                let (x, q) = read_isc_ptgc(data, p)?;
                Ok((WrappedComponent::PleoTextureGraphic(WrappedPleoTextureGraphicComponent { pleo_texture_graphic_component: x }), q))
            },
            _ => Err(ReadError),
        }
    }
}

/// `n` components of a scene, one after the other, from `s[p..]`: where each
/// starts, and the position after the last.
pub open spec fn isc_components_at(s: Seq<u8>, p: int, n: nat, ugi: UniqueGameId) -> Option<(Seq<int>, int)>
    decreases n,
{
    if n == 0 {
        if 0 <= p <= s.len() {
            Some((Seq::empty(), p))
        } else {
            None
        }
    } else {
        match isc_components_at(s, p, (n - 1) as nat, ugi) {
            Some((starts, q)) => match isc_component_end(s, q, ugi) {
                Some(q2) => Some((starts.push(q), q2)),
                None => None,
            },
            None => None,
        }
    }
}

/// A `u32be` count of components of a scene and the components, from `s[p..]`.
pub open spec fn isc_component_list_at(s: Seq<u8>, p: int, ugi: UniqueGameId) -> Option<(Seq<int>, int)> {
    if 0 <= p && p + 4 <= s.len() {
        isc_components_at(s, p + 4, be32(s, p) as nat, ugi)
    } else {
        None
    }
}

/// Whether the components `cs` are those that start at `starts` in `s`.
pub open spec fn isc_components_match(cs: Seq<WrappedComponent>, s: Seq<u8>, starts: Seq<int>, ugi: UniqueGameId) -> bool {
    &&& cs.len() == starts.len()
    &&& forall|k: int| 0 <= k < starts.len() ==> isc_component_matches(#[trigger] cs[k], s, starts[k], ugi)
}

proof fn lemma_isc_components_none_prefix(s: Seq<u8>, p: int, k: nat, n: nat, ugi: UniqueGameId)
    requires
        k <= n,
        isc_components_at(s, p, k, ugi) is None,
    ensures
        isc_components_at(s, p, n, ugi) is None,
    decreases n - k,
{
    if k < n {
        lemma_isc_components_none_prefix(s, p, k + 1, n, ugi);
    }
}

fn read_isc_components(data: &[u8], position: usize, ugi: UniqueGameId) -> (r: Result<(Vec<WrappedComponent>, usize), ReadError>)
    ensures
        match isc_component_list_at(data@, position as int, ugi) {
            Some((starts, q)) => r matches Ok((v, e)) && e == q && isc_components_match(v@, data@, starts, ugi),
            None => r is Err,
        },
{
    let n = match read_u32_at(data, position) {
        Some(n) => n,
        None => return Err(ReadError),
    };
    assert(data@.len() == data.len());
    let start = position + 4;
    let ghost s = data@;
    let mut out: Vec<WrappedComponent> = Vec::new();
    let ghost mut starts: Seq<int> = Seq::empty();
    let mut q = start;
    let mut i: u32 = 0;
    while i < n
        invariant
            i <= n,
            s == data@,
            start == position + 4,
            start <= s.len(),
            n == be32(s, position as int),
            isc_components_at(s, start as int, i as nat, ugi) == Some((starts, q as int)),
            isc_components_match(out@, s, starts, ugi),
        decreases n - i,
    {
        match WrappedComponent::deserialize_at_with(data, q, ugi) {
            Ok((c, q2)) => {
                proof {
                    starts = starts.push(q as int);
                }
                out.push(c);
                q = q2;
                i = i + 1;
            },
            Err(e) => {
                proof { lemma_isc_components_none_prefix(s, start as int, i as nat + 1, n as nat, ugi); }
                return Err(e);
            },
        }
    }
    Ok((out, q))
}

// ---------------------------------------------------------------- actors

/// The fields of the records that follow an actor's script path, after their
/// list of words: two strings each followed by a zero, six `f32` and the
/// words 1, 2, 0, 0, 0.
pub open spec fn actor_record_kinds() -> Seq<FieldKind> {
    seq![FieldKind::Str, FieldKind::U32, FieldKind::Str] + repeat(FieldKind::U32, 12)
}

/// The layout of such a record: a `u32be`-counted list of words, then its fields.
pub open spec fn actor_record_layout() -> Seq<Seg> {
    seq![Seg::List(seq![FieldKind::U32]), Seg::Run(actor_record_kinds())]
}

/// Whether a record holds what the format requires: the words are none or
/// 0 and 1, the zeros and the last five words are in place, and the six
/// `f32` lie within the ranges seen in the games.
pub open spec fn actor_record_ok(vs: Seq<SegVal>) -> bool {
    let items = fitems(vs[0]);
    let fs = frun(vs[1]);
    &&& items.len() == 0 || (items.len() == 2 && fu32(items[0][0]) == 0 && fu32(items[1][0]) == 1)
    &&& fu32(fs[1]) == 0 && fu32(fs[3]) == 0
    &&& f32_between(fu32(fs[4]), 0xBEBB_E964, 0x40C5_1CF5)
    &&& f32_between(fu32(fs[5]), 0xBFB4_9B17, 0x3FD1_1099)
    &&& f32_between(fu32(fs[6]), 0xBFC7_2FCB, 0x3E1B_2570)
    &&& f32_between(fu32(fs[7]), 0, 0x3E2E_13B2)
    &&& f32_between(fu32(fs[8]), 0x39E4_10B6, 0x3F8C_C975)
    &&& f32_between(fu32(fs[9]), 0, 0x3FA6_2870)
    &&& fu32(fs[10]) == 1 && fu32(fs[11]) == 2 && fu32(fs[12]) == 0 && fu32(fs[13]) == 0 && fu32(fs[14]) == 0
}

/// The position after the record at `s[p..]`, where one decodes and holds what the format requires.
pub open spec fn actor_record_end(s: Seq<u8>, p: int) -> Option<int> {
    match dec_segs(actor_record_layout(), s, p) {
        Some((vs, q)) => if actor_record_ok(vs) {
            Some(q)
        } else {
            None
        },
        None => None,
    }
}

/// The position after `n` records, one after the other, from `s[p..]`.
pub open spec fn actor_records_end(s: Seq<u8>, p: int, n: nat) -> Option<int>
    decreases n,
{
    if n == 0 {
        if 0 <= p <= s.len() {
            Some(p)
        } else {
            None
        }
    } else {
        match actor_records_end(s, p, (n - 1) as nat) {
            Some(q) => actor_record_end(s, q),
            None => None,
        }
    }
}

/// The position after a `u32be` count of records and the records, from `s[p..]`.
pub open spec fn actor_record_list_end(s: Seq<u8>, p: int) -> Option<int> {
    if 0 <= p && p + 4 <= s.len() {
        actor_records_end(s, p + 4, be32(s, p) as nat)
    } else {
        None
    }
}

fn read_actor_record(data: &[u8], p: usize) -> (r: Result<usize, ReadError>)
    ensures
        match actor_record_end(data@, p as int) {
            Some(q) => r matches Ok(e) && e == q,
            None => r is Err,
        },
{
    let mut kinds: Vec<FieldKind> = vec![FieldKind::Str, FieldKind::U32, FieldKind::Str];
    push_repeat(&mut kinds, FieldKind::U32, 12);
    assert(kinds@ =~= actor_record_kinds());
    let word = vec![FieldKind::U32];
    assert(word@ =~= seq![FieldKind::U32]);
    let layout = vec![Segment::List(word), Segment::Run(kinds)];
    assert(segs_view(layout@) =~= actor_record_layout());
    let (vs, q) = match read_segs(&layout, data, p) {
        Some(x) => x,
        None => return Err(ReadError),
    };
    let ghost gs = actor_record_layout();
    proof {
        lemma_dec_segs_fits(gs, data@, p as int);
        assert(seg_fits(gs[0], segvals_view(vs@)[0]));
        assert(seg_fits(gs[1], segvals_view(vs@)[1]));
    }
    let items = seg_items(&vs, 0);
    let fs = seg_run(&vs, 1);
    let ghost iv = items_view(items@);
    assert(items@.len() == items.len());
    let words_ok = items.len() == 0 || (items.len() == 2 && {
        assert(fits(seq![FieldKind::U32], iv[0]));
        assert(fits(seq![FieldKind::U32], iv[1]));
        assert(items@[0]@.len() == items[0].len());
        assert(items@[1]@.len() == items[1].len());
        get_u32(&items[0], 0) == 0 && get_u32(&items[1], 0) == 1
    });
    if !(words_ok && get_u32(fs, 1) == 0 && get_u32(fs, 3) == 0
        && f32_within(get_u32(fs, 4), 0xBEBB_E964, 0x40C5_1CF5)
        && f32_within(get_u32(fs, 5), 0xBFB4_9B17, 0x3FD1_1099)
        && f32_within(get_u32(fs, 6), 0xBFC7_2FCB, 0x3E1B_2570)
        && f32_within(get_u32(fs, 7), 0, 0x3E2E_13B2)
        && f32_within(get_u32(fs, 8), 0x39E4_10B6, 0x3F8C_C975)
        && f32_within(get_u32(fs, 9), 0, 0x3FA6_2870)
        && get_u32(fs, 10) == 1 && get_u32(fs, 11) == 2 && get_u32(fs, 12) == 0 && get_u32(fs, 13) == 0
        && get_u32(fs, 14) == 0) {
        return Err(ReadError);
    }
    Ok(q)
}

proof fn lemma_actor_records_none_prefix(s: Seq<u8>, p: int, k: nat, n: nat)
    requires
        k <= n,
        actor_records_end(s, p, k) is None,
    ensures
        actor_records_end(s, p, n) is None,
    decreases n - k,
{
    if k < n {
        lemma_actor_records_none_prefix(s, p, k + 1, n);
    }
}

fn read_actor_records(data: &[u8], position: usize) -> (r: Result<usize, ReadError>)
    ensures
        match actor_record_list_end(data@, position as int) {
            Some(q) => r matches Ok(e) && e == q,
            None => r is Err,
        },
{
    let n = match read_u32_at(data, position) {
        Some(n) => n,
        None => return Err(ReadError),
    };
    assert(data@.len() == data.len());
    let start = position + 4;
    let mut q = start;
    let mut i: u32 = 0;
    while i < n
        invariant
            i <= n,
            start == position + 4,
            start <= data@.len(),
            n == be32(data@, position as int),
            actor_records_end(data@, start as int, i as nat) == Some(q as int),
        decreases n - i,
    {
        match read_actor_record(data, q) {
            Ok(q2) => {
                q = q2;
                i = i + 1;
            },
            Err(e) => {
                proof { lemma_actor_records_none_prefix(data@, start as int, i as nat + 1, n as nat); }
                return Err(e);
            },
        }
    }
    Ok(q)
}

/// The first fields of an actor of a scene: its depth, scale, flip flag, name,
/// position, rotation, four words and its script path.
pub open spec fn isc_actor_kinds() -> Seq<FieldKind> {
    seq![FieldKind::U32, FieldKind::U32, FieldKind::U32, FieldKind::U32, FieldKind::Str]
        + repeat(FieldKind::U32, 7) + split_path_kinds()
}

/// Whether the first fields of an actor hold what the format requires: a flip
/// flag of 0 or 1, a rotation from 0 to 2π, and the words 0, 0, `0xFFFF_FFFF`, 0.
pub open spec fn isc_actor_ok(fs: Seq<Fld>) -> bool {
    &&& fu32(fs[3]) <= 1
    &&& f32_between(fu32(fs[7]), 0, 0x40C9_0FDB)
    &&& fu32(fs[8]) == 0 && fu32(fs[9]) == 0 && fu32(fs[10]) == 0xFFFF_FFFF && fu32(fs[11]) == 0
}

/// The actor of a scene at `s[p..]`: its first fields, where its components
/// start, and the position after it.
pub open spec fn isc_actor_at(s: Seq<u8>, p: int, ugi: UniqueGameId) -> Option<(Seq<Fld>, Seq<int>, int)> {
    match record_at(isc_actor_kinds(), |fs: Seq<Fld>| isc_actor_ok(fs), s, p) {
        Some((fs, q1)) => match actor_record_list_end(s, q1) {
            Some(q2) => match isc_component_list_at(s, q2, ugi) {
                Some((starts, q3)) => Some((fs, starts, q3)),
                None => None,
            },
            None => None,
        },
        None => None,
    }
}

/// Whether `a` holds the actor of a scene that decodes at `s[p..]`.
pub open spec fn isc_actor_matches(a: Actor, s: Seq<u8>, p: int, ugi: UniqueGameId) -> bool {
    match isc_actor_at(s, p, ugi) {
        Some((fs, starts, _)) => {
            &&& a.relativez == fu32(fs[0])
            &&& a.scale@ == seq![fu32(fs[1]), fu32(fs[2])]
            &&& a.x_flipped == (fu32(fs[3]) == 1)
            &&& a.userfriendly@ == fbytes(fs[4])
            &&& a.pos2d@ == seq![fu32(fs[5]), fu32(fs[6])]
            &&& a.lua@ == path_text(fs, 12)
            &&& a.marker is None && a.defaultenable is None && a.is_enabled is None
            &&& a.angle == 0 && a.instancedatafile@.len() == 0
            &&& a.parent_bind is None && a.markers@.len() == 0
            &&& isc_components_match(a.components@, s, starts, ugi)
        },
        None => false,
    }
}

proof fn lemma_isc_actor_kinds_len()
    ensures
        isc_actor_kinds().len() == 16,
{
}

impl Actor {
    /// Parses the actor of a scene at `data[position..]` (after its class);
    /// returns it and the position after it.
    pub fn deserialize_at_with(data: &[u8], position: usize, ugi: UniqueGameId) -> (r: Result<(Actor, usize), ReadError>)
        ensures
            match isc_actor_at(data@, position as int, ugi) {
                Some((_, _, q)) => r matches Ok((a, e)) && e == q && isc_actor_matches(a, data@, position as int, ugi),
                None => r is Err,
            },
    {
        let mut kinds: Vec<FieldKind> = vec![FieldKind::U32, FieldKind::U32, FieldKind::U32, FieldKind::U32, FieldKind::Str];
        push_repeat(&mut kinds, FieldKind::U32, 7);
        push_split_path(&mut kinds);
        assert(kinds@ =~= isc_actor_kinds());
        let (fs, q1) = read_fields(&kinds, data, position)?;
        proof { lemma_isc_actor_kinds_len(); }
        assert(fs@.len() == fs.len());
        if !(get_u32(&fs, 3) <= 1 && f32_within(get_u32(&fs, 7), 0, 0x40C9_0FDB) && get_u32(&fs, 8) == 0
            && get_u32(&fs, 9) == 0 && get_u32(&fs, 10) == 0xFFFF_FFFF && get_u32(&fs, 11) == 0) {
            return Err(ReadError);
        }
        assert(isc_actor_ok(flds_view(fs@)));
        assert(record_at(isc_actor_kinds(), |fs: Seq<Fld>| isc_actor_ok(fs), data@, position as int) == Some((flds_view(fs@), q1 as int)));
        let q2 = read_actor_records(data, q1)?;
        let (components, q3) = read_isc_components(data, q2, ugi)?;
        let a = Actor {
            relativez: get_u32(&fs, 0),
            scale: [get_u32(&fs, 1), get_u32(&fs, 2)],
            x_flipped: get_u32(&fs, 3) == 1,
            userfriendly: get_bytes(&fs, 4),
            marker: None,
            defaultenable: None,
            is_enabled: None,
            pos2d: [get_u32(&fs, 5), get_u32(&fs, 6)],
            angle: 0,
            instancedatafile: Vec::new(),
            lua: path_text_of(&fs, 12),
            components,
            parent_bind: None,
            markers: Vec::new(),
        };
        assert(a.scale@ =~= seq![fu32(flds_view(fs@)[1]), fu32(flds_view(fs@)[2])]);
        assert(a.pos2d@ =~= seq![fu32(flds_view(fs@)[5]), fu32(flds_view(fs@)[6])]);
        Ok((a, q3))
    }
}

// ---------------------------------------------------------------- scene configurations

/// The bytes of the text `Pause_Level`.
pub open spec fn text_pause_level() -> Seq<u8> {
    seq![80u8, 97, 117, 115, 101, 95, 76, 101, 118, 101, 108]
}

/// The bytes of the text `type`.
pub open spec fn text_type() -> Seq<u8> {
    seq![116u8, 121, 112, 101]
}

/// The bytes of the text `musicscore`.
pub open spec fn text_musicscore() -> Seq<u8> {
    seq![109u8, 117, 115, 105, 99, 115, 99, 111, 114, 101]
}

/// Whether the seven words of a map scene configuration are those the format
/// requires: 0, the pause level 6, the type 1, the music score 2, and three zeros.
pub open spec fn map_config_ok(fs: Seq<Fld>) -> bool {
    &&& fu32(fs[0]) == 0 && fu32(fs[1]) == 6 && fu32(fs[2]) == 1 && fu32(fs[3]) == 2
    &&& fu32(fs[4]) == 0 && fu32(fs[5]) == 0 && fu32(fs[6]) == 0
}

/// Whether `m` is the map scene configuration that the format gives.
pub open spec fn map_config_matches(m: MapSceneConfig) -> bool {
    &&& m.name@.len() == 0 && m.sound_context@.len() == 0 && m.hud == 0
    &&& m.phone_title_loc_id is None && m.phone_image is None
    &&& m.enums@.len() == 3
    &&& enum_is(m.enums@[0], text_pause_level(), 6)
    &&& enum_is(m.enums@[1], text_type(), 1)
    &&& enum_is(m.enums@[2], text_musicscore(), 2)
}

/// The layout of a song database scene configuration: the SKU, the territory
/// and the rating screen path, then the songs of the coverflow, each a name, a
/// cover path and a zero.
pub open spec fn song_db_layout() -> Seq<Seg> {
    seq![
        Seg::Run(seq![FieldKind::Str, FieldKind::Str] + split_path_kinds()),
        Seg::List(seq![FieldKind::Str] + split_path_kinds() + seq![FieldKind::U32]),
    ]
}

/// Whether each song of the coverflow ends with a zero.
pub open spec fn song_db_ok(vs: Seq<SegVal>) -> bool {
    forall|k: int| 0 <= k < fitems(vs[1]).len() ==> fu32(#[trigger] fitems(vs[1])[k][5]) == 0
}

/// Whether `d` holds the song database scene configuration decoded into `vs`.
pub open spec fn song_db_matches(d: SongDatabaseSceneConfig, vs: Seq<SegVal>) -> bool {
    let head = frun(vs[0]);
    let songs = fitems(vs[1]);
    &&& d.name@.len() == 0 && d.enums@.len() == 0
    &&& d.sku@ == fbytes(head[0]) && d.territory@ == fbytes(head[1]) && d.rating_ui@ == path_text(head, 2)
    &&& d.coverflow_sku_songs@.len() == songs.len()
    &&& forall|k: int| 0 <= k < songs.len() ==> {
        &&& (#[trigger] d.coverflow_sku_songs@[k]).coverflow_song.name@ == fbytes(songs[k][0])
        &&& d.coverflow_sku_songs@[k].coverflow_song.cover_path@ == path_text(songs[k], 1)
    }
}

/// The position after the scene configuration at `s[p..]`, where one decodes:
/// its class (a map or a song database), then what the class calls for.
pub open spec fn config_end(s: Seq<u8>, p: int) -> Option<int> {
    if !(0 <= p && p + 4 <= s.len()) {
        None
    } else {
        match be32(s, p) as u32 {
            0xCE01_8EDB => end_of(record_at(repeat(FieldKind::U32, 7), |fs: Seq<Fld>| map_config_ok(fs), s, p + 4)),
            0xF878_DC2D => match dec_segs(song_db_layout(), s, p + 4) {
                Some((vs, q)) => if song_db_ok(vs) {
                    Some(q)
                } else {
                    None
                },
                None => None,
            },
            _ => None,
        }
    }
}

/// Whether `c` is the scene configuration that decodes at `s[p..]`.
pub open spec fn config_matches(c: WrappedJdSceneConfig, s: Seq<u8>, p: int) -> bool {
    match be32(s, p) as u32 {
        0xCE01_8EDB => c matches WrappedJdSceneConfig::MapScene(w) && map_config_matches(w.map_scene_config),
        0xF878_DC2D => match dec_segs(song_db_layout(), s, p + 4) {
            Some((vs, _)) => c matches WrappedJdSceneConfig::SongDatabase(w) && song_db_matches(w.song_database_scene_config, vs),
            None => false,
        },
        _ => false,
    }
}

pub(crate) fn text_vec(t: &[u8]) -> (r: Vec<u8>)
    ensures
        r@ == t@,
{
    let mut v: Vec<u8> = Vec::new();
    crate::bytes::push_bytes(&mut v, t);
    assert(v@ =~= t@);
    v
}

fn map_config() -> (r: MapSceneConfig)
    ensures
        map_config_matches(r),
{
    let pause: [u8; 11] = [80u8, 97, 117, 115, 101, 95, 76, 101, 118, 101, 108];
    let ty: [u8; 4] = [116u8, 121, 112, 101];
    let score: [u8; 10] = [109u8, 117, 115, 105, 99, 115, 99, 111, 114, 101];
    assert(pause@ =~= text_pause_level());
    assert(ty@ =~= text_type());
    assert(score@ =~= text_musicscore());
    let mut enums: Vec<Enum> = Vec::new();
    enums.push(enum_of(pause.as_slice(), 6));
    enums.push(enum_of(ty.as_slice(), 1));
    enums.push(enum_of(score.as_slice(), 2));
    MapSceneConfig {
        name: Vec::new(),
        sound_context: Vec::new(),
        hud: 0,
        phone_title_loc_id: None,
        phone_image: None,
        enums,
    }
}

fn read_song_db(data: &[u8], p: usize) -> (r: Result<(SongDatabaseSceneConfig, usize), ReadError>)
    ensures
        match dec_segs(song_db_layout(), data@, p as int) {
            Some((vs, q)) => if song_db_ok(vs) {
                r matches Ok((d, e)) && e == q && song_db_matches(d, vs)
            } else {
                r is Err
            },
            None => r is Err,
        },
{
    let mut head_kinds: Vec<FieldKind> = vec![FieldKind::Str, FieldKind::Str];
    push_split_path(&mut head_kinds);
    let mut song_kinds: Vec<FieldKind> = vec![FieldKind::Str];
    push_split_path(&mut song_kinds);
    song_kinds.push(FieldKind::U32);
    assert(head_kinds@ =~= seq![FieldKind::Str, FieldKind::Str] + split_path_kinds());
    assert(song_kinds@ =~= seq![FieldKind::Str] + split_path_kinds() + seq![FieldKind::U32]);
    let layout = vec![Segment::Run(head_kinds), Segment::List(song_kinds)];
    assert(segs_view(layout@) =~= song_db_layout());
    let (vs, q) = match read_segs(&layout, data, p) {
        Some(x) => x,
        None => return Err(ReadError),
    };
    let ghost gs = song_db_layout();
    proof {
        lemma_dec_segs_fits(gs, data@, p as int);
        assert(seg_fits(gs[0], segvals_view(vs@)[0]));
        assert(seg_fits(gs[1], segvals_view(vs@)[1]));
    }
    let head = seg_run(&vs, 0);
    let items = seg_items(&vs, 1);
    let ghost iv = items_view(items@);
    let ghost sk = seq![FieldKind::Str] + split_path_kinds() + seq![FieldKind::U32];
    assert(head@.len() == head.len());
    let mut songs: Vec<CoverflowSkuSongs> = Vec::new();
    let mut i: usize = 0;
    while i < items.len()
        invariant
            i <= items@.len(),
            iv == items_view(items@),
            vs@.len() == 2,
            iv == fitems(segvals_view(vs@)[1]),
            dec_segs(song_db_layout(), data@, p as int) == Some((segvals_view(vs@), q as int)),
            sk == seq![FieldKind::Str] + split_path_kinds() + seq![FieldKind::U32],
            forall|k: int| 0 <= k < iv.len() ==> fits(sk, #[trigger] iv[k]),
            songs@.len() == i,
            forall|k: int| 0 <= k < i ==> fu32(#[trigger] iv[k][5]) == 0,
            forall|k: int| 0 <= k < i ==> {
                &&& (#[trigger] songs@[k]).coverflow_song.name@ == fbytes(iv[k][0])
                &&& songs@[k].coverflow_song.cover_path@ == path_text(iv[k], 1)
            },
        decreases items@.len() - i,
    {
        assert(fits(sk, iv[i as int]));
        let it = &items[i];
        assert(it@.len() == it.len());
        assert(flds_view(it@) == iv[i as int]);
        if get_u32(it, 5) != 0 {
            assert(fu32(iv[i as int][5]) != 0);
            assert(!song_db_ok(segvals_view(vs@)));
            return Err(ReadError);
        }
        let song = CoverflowSkuSongs {
            coverflow_song: CoverflowSong { name: get_bytes(it, 0), cover_path: path_text_of(it, 1) },
        };
        songs.push(song);
        i = i + 1;
    }
    let d = SongDatabaseSceneConfig {
        name: Vec::new(),
        sku: get_bytes(head, 0),
        territory: get_bytes(head, 1),
        rating_ui: path_text_of(head, 2),
        enums: Vec::new(),
        coverflow_sku_songs: songs,
    };
    Ok((d, q))
}

impl WrappedJdSceneConfig {
    /// Parses the scene configuration at `data[position..]`: its class, then
    /// what the class calls for. Returns it and the position after it.
    pub fn deserialize_at_with(data: &[u8], position: usize, _ugi: UniqueGameId) -> (r: Result<(WrappedJdSceneConfig, usize), ReadError>)
        ensures
            match config_end(data@, position as int) {
                Some(q) => r matches Ok((c, e)) && e == q && config_matches(c, data@, position as int),
                None => r is Err,
            },
    {
        let id = match read_u32_at(data, position) {
            Some(id) => id,
            None => return Err(ReadError),
        };
        assert(data@.len() == data.len());
        let p = position + 4;
        if id == 0xCE01_8EDB {
            let mut kinds: Vec<FieldKind> = Vec::new();
            push_repeat(&mut kinds, FieldKind::U32, 7);
            let (fs, q) = read_fields(&kinds, data, p)?;
            assert(fs@.len() == fs.len());
            if !(get_u32(&fs, 0) == 0 && get_u32(&fs, 1) == 6 && get_u32(&fs, 2) == 1 && get_u32(&fs, 3) == 2
                && get_u32(&fs, 4) == 0 && get_u32(&fs, 5) == 0 && get_u32(&fs, 6) == 0) {
                return Err(ReadError);
            }
            assert(map_config_ok(flds_view(fs@)));
            Ok((WrappedJdSceneConfig::MapScene(WrappedMapSceneConfig { map_scene_config: map_config() }), q))
        } else if id == 0xF878_DC2D {
            let (d, q) = read_song_db(data, p)?;
            Ok((WrappedJdSceneConfig::SongDatabase(WrappedSongDatabaseSceneConfig { song_database_scene_config: d }), q))
        } else {
            Err(ReadError)
        }
    }
}

/// `n` scene configurations, one after the other, from `s[p..]`: where each
/// starts, and the position after the last.
pub open spec fn configs_at(s: Seq<u8>, p: int, n: nat) -> Option<(Seq<int>, int)>
    decreases n,
{
    if n == 0 {
        if 0 <= p <= s.len() {
            Some((Seq::empty(), p))
        } else {
            None
        }
    } else {
        match configs_at(s, p, (n - 1) as nat) {
            Some((starts, q)) => match config_end(s, q) {
                Some(q2) => Some((starts.push(q), q2)),
                None => None,
            },
            None => None,
        }
    }
}

/// The scene configurations at `s[p..]`: a `u32be` count, the configurations
/// and the index of the active one (0 or 1). Gives where each configuration
/// starts and the position of the index.
pub open spec fn scene_configs_at(s: Seq<u8>, p: int) -> Option<(Seq<int>, int)> {
    if 0 <= p && p + 4 <= s.len() {
        match configs_at(s, p + 4, be32(s, p) as nat) {
            Some((starts, q)) => if q + 4 <= s.len() && be32(s, q) <= 1 {
                Some((starts, q))
            } else {
                None
            },
            None => None,
        }
    } else {
        None
    }
}

/// Whether `c` holds the scene configurations that decode at `s[p..]`.
pub open spec fn scene_configs_match(c: SceneConfigs, s: Seq<u8>, p: int) -> bool {
    match scene_configs_at(s, p) {
        Some((starts, q)) => {
            &&& c.active_scene_config == be32(s, q)
            &&& c.jd_scene_config@.len() == starts.len()
            &&& forall|k: int| 0 <= k < starts.len() ==> config_matches(#[trigger] c.jd_scene_config@[k], s, starts[k])
        },
        None => false,
    }
}

proof fn lemma_configs_none_prefix(s: Seq<u8>, p: int, k: nat, n: nat)
    requires
        k <= n,
        configs_at(s, p, k) is None,
    ensures
        configs_at(s, p, n) is None,
    decreases n - k,
{
    if k < n {
        lemma_configs_none_prefix(s, p, k + 1, n);
    }
}

impl SceneConfigs {
    /// Parses the scene configurations at `data[position..]`; returns them and the position after them.
    pub fn deserialize_at_with(data: &[u8], position: usize, ugi: UniqueGameId) -> (r: Result<(SceneConfigs, usize), ReadError>)
        ensures
            match scene_configs_at(data@, position as int) {
                Some((_, q)) => r matches Ok((c, e)) && e == q + 4 && scene_configs_match(c, data@, position as int),
                None => r is Err,
            },
    {
        let n = match read_u32_at(data, position) {
            Some(n) => n,
            None => return Err(ReadError),
        };
        assert(data@.len() == data.len());
        let start = position + 4;
        let ghost s = data@;
        let mut out: Vec<WrappedJdSceneConfig> = Vec::new();
        let ghost mut starts: Seq<int> = Seq::empty();
        let mut q = start;
        let mut i: u32 = 0;
        while i < n
            invariant
                i <= n,
                s == data@,
                start == position + 4,
                start <= s.len(),
                n == be32(s, position as int),
                configs_at(s, start as int, i as nat) == Some((starts, q as int)),
                out@.len() == starts.len(),
                forall|k: int| 0 <= k < starts.len() ==> config_matches(#[trigger] out@[k], s, starts[k]),
            decreases n - i,
        {
            match WrappedJdSceneConfig::deserialize_at_with(data, q, ugi) {
                Ok((c, q2)) => {
                    proof {
                        starts = starts.push(q as int);
                    }
                    out.push(c);
                    q = q2;
                    i = i + 1;
                },
                Err(e) => {
                    proof { lemma_configs_none_prefix(s, start as int, i as nat + 1, n as nat); }
                    return Err(e);
                },
            }
        }
        let active = match read_u32_at(data, q) {
            Some(x) => x,
            None => return Err(ReadError),
        };
        if active > 1 {
            return Err(ReadError);
        }
        Ok((SceneConfigs { active_scene_config: active, jd_scene_config: out }, q + 4))
    }
}

// ---------------------------------------------------------------- sub-scenes and scenes

/// The bytes of the text `viewType`.
pub open spec fn text_view_type() -> Seq<u8> {
    seq![118u8, 105, 101, 119, 84, 121, 112, 101]
}

/// The first fields of a sub-scene actor: those of an actor, with a zero in
/// place of the rotation, and a zero after the script path.
pub open spec fn subscene_head_kinds() -> Seq<FieldKind> {
    isc_actor_kinds() + seq![FieldKind::U32]
}

/// Whether the first fields of a sub-scene actor hold what the format requires.
pub open spec fn subscene_head_ok(fs: Seq<Fld>) -> bool {
    &&& fu32(fs[3]) <= 1
    &&& fu32(fs[7]) == 0 && fu32(fs[8]) == 0 && fu32(fs[9]) == 0 && fu32(fs[10]) == 0xFFFF_FFFF
    &&& fu32(fs[11]) == 0 && fu32(fs[16]) == 0
}

/// The fields of a sub-scene actor after its components: the path of the
/// scene, the words 1, 0, 1, 1 and the view type.
pub open spec fn subscene_tail_kinds() -> Seq<FieldKind> {
    split_path_kinds() + repeat(FieldKind::U32, 5)
}

/// Whether the last fields of a sub-scene actor hold what the format
/// requires: the words 1, 0, 1, 1 and a view type of 2 or 3.
pub open spec fn subscene_tail_ok(fs: Seq<Fld>) -> bool {
    &&& fu32(fs[4]) == 1 && fu32(fs[5]) == 0 && fu32(fs[6]) == 1 && fu32(fs[7]) == 1
    &&& (fu32(fs[8]) == 2 || fu32(fs[8]) == 3)
}

/// A sub-scene actor at `s[p..]` up to its scene: its first fields, where
/// its components start, its last fields, and the position of its scene.
pub open spec fn subscene_head_at(s: Seq<u8>, p: int, ugi: UniqueGameId) -> Option<(Seq<Fld>, Seq<int>, Seq<Fld>, int)> {
    match record_at(subscene_head_kinds(), |fs: Seq<Fld>| subscene_head_ok(fs), s, p) {
        Some((head, q1)) => match isc_component_list_at(s, q1, ugi) {
            Some((starts, q2)) => match record_at(subscene_tail_kinds(), |fs: Seq<Fld>| subscene_tail_ok(fs), s, q2) {
                Some((tail, q3)) => Some((head, starts, tail, q3)),
                None => None,
            },
            None => None,
        },
        None => None,
    }
}

/// Whether the values of the sub-scene actor `a`, but its scene, are those of
/// the first fields `head`, the components at `starts` and the last fields `tail`.
pub open spec fn subscene_values_match(
    a: SubSceneActor,
    s: Seq<u8>,
    head: Seq<Fld>,
    starts: Seq<int>,
    tail: Seq<Fld>,
    ugi: UniqueGameId,
) -> bool {
    &&& a.relativez == fu32(head[0])
    &&& a.scale@ == seq![fu32(head[1]), fu32(head[2])]
    &&& a.x_flipped == (fu32(head[3]) == 1)
    &&& a.userfriendly@ == fbytes(head[4])
    &&& a.pos2d@ == seq![fu32(head[5]), fu32(head[6])]
    &&& a.lua@ == path_text(head, 12)
    &&& a.relativepath@ == path_text(tail, 0)
    &&& a.marker is None && a.defaultenable is None && a.is_enabled is None
    &&& a.angle == 0 && a.instancedatafile@.len() == 0
    &&& !a.embed_scene && !a.is_single_piece && !a.zforced && !a.direct_picking && !a.ignore_save
    &&& a.enums@.len() == 1 && enum_is(a.enums@[0], text_view_type(), fu32(tail[8]) as i32)
    &&& a.parent_bind is None && a.markers@.len() == 0
    &&& isc_components_match(a.components@, s, starts, ugi)
}

/// Whether the words at `s[p..]` start a scene: 1, the engine version
/// `0x0002_6450` and three zeros, followed by the count of actors.
pub open spec fn scene_head_ok(s: Seq<u8>, p: int) -> bool {
    &&& 0 <= p && p + 24 <= s.len()
    &&& be32(s, p) == 1 && be32(s, p + 4) == 0x0002_6450
    &&& be32(s, p + 8) == 0 && be32(s, p + 12) == 0 && be32(s, p + 16) == 0
}

/// The scene at `s[p..]`, where one decodes with sub-scenes nested at most
/// `d` deep: where its actors start, where its scene configurations start,
/// and the position after it.
pub open spec fn scene_at(s: Seq<u8>, p: int, ugi: UniqueGameId, d: nat) -> Option<(Seq<int>, int, int)>
    decreases d, 0nat,
{
    if d == 0 || !scene_head_ok(s, p) {
        None
    } else {
        match actors_at(s, p + 24, be32(s, p + 20) as nat, ugi, (d - 1) as nat) {
            Some((astarts, q)) => if q + 8 <= s.len() && be32(s, q) == 0 && be32(s, q + 4) == 0 {
                match scene_configs_at(s, q + 8) {
                    Some((_, qa)) => Some((astarts, q + 8, qa + 4)),
                    None => None,
                }
            } else {
                None
            },
            None => None,
        }
    }
}

/// `n` actors of a scene, one after the other, from `s[p..]`: where each
/// starts, and the position after the last.
pub open spec fn actors_at(s: Seq<u8>, p: int, n: nat, ugi: UniqueGameId, d: nat) -> Option<(Seq<int>, int)>
    decreases d, n + 2,
{
    if n == 0 {
        if 0 <= p <= s.len() {
            Some((Seq::empty(), p))
        } else {
            None
        }
    } else {
        match actors_at(s, p, (n - 1) as nat, ugi, d) {
            Some((starts, q)) => match wrapped_actor_end(s, q, ugi, d) {
                Some(q2) => Some((starts.push(q), q2)),
                None => None,
            },
            None => None,
        }
    }
}

/// The position after the actor of a scene at `s[p..]`, where one decodes:
/// its class (an actor or a sub-scene actor), then what the class calls for.
pub open spec fn wrapped_actor_end(s: Seq<u8>, p: int, ugi: UniqueGameId, d: nat) -> Option<int>
    decreases d, 1nat,
{
    if !(0 <= p && p + 4 <= s.len()) {
        None
    } else {
        match be32(s, p) as u32 {
            0x97CA_628B => match isc_actor_at(s, p + 4, ugi) {
                Some((_, _, q)) => Some(q),
                None => None,
            },
            0x4FA4_0F09 => match subscene_head_at(s, p + 4, ugi) {
                Some((_, _, _, q)) => match scene_at(s, q, ugi, d) {
                    Some((_, _, e)) => Some(e),
                    None => None,
                },
                None => None,
            },
            _ => None,
        }
    }
}

/// The separators of a scene as the format gives them: the rows of the identity matrix.
pub open spec fn identity_rows(c: [Color; 4]) -> bool {
    &&& c@[0].color == (0x3F80_0000u32, 0u32, 0u32, 0u32)
    &&& c@[1].color == (0u32, 0x3F80_0000u32, 0u32, 0u32)
    &&& c@[2].color == (0u32, 0u32, 0x3F80_0000u32, 0u32)
    &&& c@[3].color == (0u32, 0u32, 0u32, 0x3F80_0000u32)
}

/// Whether `x` holds the scene that decodes at `s[p..]` with sub-scenes nested at most `d` deep.
pub open spec fn scene_matches(x: Scene, s: Seq<u8>, p: int, ugi: UniqueGameId, d: nat) -> bool
    decreases d, 0nat,
{
    if d == 0 {
        false
    } else {
        match scene_at(s, p, ugi, d) {
            Some((astarts, c, _)) => {
                &&& x.engine_version == 0x0002_6450 && x.gridunit == 0 && x.depth_separator == 0
                &&& identity_rows(x.near_separator) && identity_rows(x.far_separator)
                &&& !x.view_family && !x.is_popup && x.platform_filters@.len() == 0
                &&& x.actors@.len() == astarts.len()
                &&& forall|k: int| 0 <= k < astarts.len() ==> wrapped_actor_matches(#[trigger] x.actors@[k], s, astarts[k], ugi, (d - 1) as nat)
                &&& scene_configs_match(x.scene_configs.scene_configs, s, c)
            },
            None => false,
        }
    }
}

/// Whether `w` holds the actor of a scene that decodes at `s[p..]`.
pub open spec fn wrapped_actor_matches(w: WrappedActors, s: Seq<u8>, p: int, ugi: UniqueGameId, d: nat) -> bool
    decreases d, 1nat,
{
    match be32(s, p) as u32 {
        0x97CA_628B => w matches WrappedActors::Actor(a) && isc_actor_matches(a.actor, s, p + 4, ugi),
        0x4FA4_0F09 => match subscene_head_at(s, p + 4, ugi) {
            Some((head, starts, tail, q)) => w matches WrappedActors::SubSceneActor(a)
                && subscene_values_match(a.sub_scene_actor, s, head, starts, tail, ugi)
                && scene_matches(a.sub_scene_actor.wrapped_scene.scene, s, q, ugi, d),
            None => false,
        },
        _ => false,
    }
}

fn word_at(data: &[u8], p: usize) -> (r: u32)
    requires
        p + 4 <= data@.len(),
    ensures
        r == be32(data@, p as int),
{
    match read_u32_at(data, p) {
        Some(x) => x,
        None => 0,
    }
}

pub(crate) fn identity_separators() -> (r: [Color; 4])
    ensures
        identity_rows(r),
{
    [
        Color { color: (0x3F80_0000, 0, 0, 0) },
        Color { color: (0, 0x3F80_0000, 0, 0) },
        Color { color: (0, 0, 0x3F80_0000, 0) },
        Color { color: (0, 0, 0, 0x3F80_0000) },
    ]
}

proof fn lemma_actors_none_prefix(s: Seq<u8>, p: int, k: nat, n: nat, ugi: UniqueGameId, d: nat)
    requires
        k <= n,
        actors_at(s, p, k, ugi, d) is None,
    ensures
        actors_at(s, p, n, ugi, d) is None,
    decreases n - k,
{
    if k < n {
        lemma_actors_none_prefix(s, p, k + 1, n, ugi, d);
    }
}

fn read_scene(data: &[u8], p: usize, ugi: UniqueGameId, d: usize) -> (r: Result<(Scene, usize), ReadError>)
    ensures
        match scene_at(data@, p as int, ugi, d as nat) {
            Some((_, _, e)) => r matches Ok((x, q)) && q == e && scene_matches(x, data@, p as int, ugi, d as nat),
            None => r is Err,
        },
    decreases d, 0usize,
{
    assert(data@.len() == data.len());
    if d == 0 || p > data.len() || data.len() - p < 24 {
        return Err(ReadError);
    }
    if !(word_at(data, p) == 1 && word_at(data, p + 4) == 0x0002_6450 && word_at(data, p + 8) == 0
        && word_at(data, p + 12) == 0 && word_at(data, p + 16) == 0) {
        return Err(ReadError);
    }
    let n = word_at(data, p + 20);
    let (actors, q) = read_actors(data, p + 24, n, ugi, d - 1)?;
    if !(q <= data.len() && data.len() - q >= 8 && word_at(data, q) == 0 && word_at(data, q + 4) == 0) {
        return Err(ReadError);
    }
    let (configs, e) = SceneConfigs::deserialize_at_with(data, q + 8, ugi)?;
    let x = Scene {
        engine_version: 0x0002_6450,
        gridunit: 0,
        depth_separator: 0,
        near_separator: identity_separators(),
        far_separator: identity_separators(),
        view_family: false,
        is_popup: false,
        platform_filters: Vec::new(),
        actors,
        scene_configs: WrappedSceneConfigs { scene_configs: configs },
    };
    Ok((x, e))
}

fn read_actors(data: &[u8], start: usize, n: u32, ugi: UniqueGameId, d: usize) -> (r: Result<(Vec<WrappedActors>, usize), ReadError>)
    ensures
        match actors_at(data@, start as int, n as nat, ugi, d as nat) {
            Some((starts, q)) => r matches Ok((v, e)) && e == q && v@.len() == starts.len()
                && forall|k: int| 0 <= k < starts.len() ==> wrapped_actor_matches(#[trigger] v@[k], data@, starts[k], ugi, d as nat),
            None => r is Err,
        },
    decreases d, 3usize,
{
    let ghost s = data@;
    if start > data.len() {
        proof { lemma_actors_none_prefix(s, start as int, 0, n as nat, ugi, d as nat); }
        return Err(ReadError);
    }
    let mut out: Vec<WrappedActors> = Vec::new();
    let ghost mut starts: Seq<int> = Seq::empty();
    let mut q = start;
    let mut i: u32 = 0;
    while i < n
        invariant
            i <= n,
            s == data@,
            start <= s.len(),
            actors_at(s, start as int, i as nat, ugi, d as nat) == Some((starts, q as int)),
            out@.len() == starts.len(),
            forall|k: int| 0 <= k < starts.len() ==> wrapped_actor_matches(#[trigger] out@[k], s, starts[k], ugi, d as nat),
        decreases n - i,
    {
        match read_wrapped_actor(data, q, ugi, d) {
            Ok((w, q2)) => {
                proof {
                    starts = starts.push(q as int);
                }
                out.push(w);
                q = q2;
                i = i + 1;
            },
            Err(e) => {
                proof { lemma_actors_none_prefix(s, start as int, i as nat + 1, n as nat, ugi, d as nat); }
                return Err(e);
            },
        }
    }
    Ok((out, q))
}

fn read_wrapped_actor(data: &[u8], p: usize, ugi: UniqueGameId, d: usize) -> (r: Result<(WrappedActors, usize), ReadError>)
    ensures
        match wrapped_actor_end(data@, p as int, ugi, d as nat) {
            Some(q) => r matches Ok((w, e)) && e == q && wrapped_actor_matches(w, data@, p as int, ugi, d as nat),
            None => r is Err,
        },
    decreases d, 2usize,
{
    let id = match read_u32_at(data, p) {
        Some(id) => id,
        None => return Err(ReadError),
    };
    assert(data@.len() == data.len());
    if id == 0x97CA_628B {
        let (a, q) = Actor::deserialize_at_with(data, p + 4, ugi)?;
        Ok((WrappedActors::Actor(WrappedActor { actor: a }), q))
    } else if id == 0x4FA4_0F09 {
        let (a, q) = read_sub_scene_actor(data, p + 4, ugi, d)?;
        Ok((WrappedActors::SubSceneActor(WrappedSubSceneActor { sub_scene_actor: a }), q))
    } else {
        Err(ReadError)
    }
}

/// The parts of a sub-scene actor up to its scene, as read.
struct SubSceneHead {
    head: Vec<FieldValue>,
    components: Vec<WrappedComponent>,
    tail: Vec<FieldValue>,
}

fn read_subscene_head(data: &[u8], p: usize, ugi: UniqueGameId) -> (r: Result<(SubSceneHead, usize), ReadError>)
    ensures
        match subscene_head_at(data@, p as int, ugi) {
            Some((head, starts, tail, q)) => r matches Ok((h, e)) && e == q && flds_view(h.head@) == head
                && flds_view(h.tail@) == tail && h.head@.len() == 17 && h.tail@.len() == 9
                && isc_components_match(h.components@, data@, starts, ugi),
            None => r is Err,
        },
{
    let mut kinds: Vec<FieldKind> = vec![FieldKind::U32, FieldKind::U32, FieldKind::U32, FieldKind::U32, FieldKind::Str];
    push_repeat(&mut kinds, FieldKind::U32, 7);
    push_split_path(&mut kinds);
    kinds.push(FieldKind::U32);
    assert(kinds@ =~= subscene_head_kinds());
    let (head, q1) = read_fields(&kinds, data, p)?;
    assert(head@.len() == head.len());
    if !(get_u32(&head, 3) <= 1 && get_u32(&head, 7) == 0 && get_u32(&head, 8) == 0 && get_u32(&head, 9) == 0
        && get_u32(&head, 10) == 0xFFFF_FFFF && get_u32(&head, 11) == 0 && get_u32(&head, 16) == 0) {
        return Err(ReadError);
    }
    assert(subscene_head_ok(flds_view(head@)));
    assert(record_at(subscene_head_kinds(), |fs: Seq<Fld>| subscene_head_ok(fs), data@, p as int) == Some((flds_view(head@), q1 as int)));
    let (components, q2) = read_isc_components(data, q1, ugi)?;
    let mut tail_kinds: Vec<FieldKind> = Vec::new();
    push_split_path(&mut tail_kinds);
    push_repeat(&mut tail_kinds, FieldKind::U32, 5);
    assert(tail_kinds@ =~= subscene_tail_kinds());
    let (tail, q3) = read_fields(&tail_kinds, data, q2)?;
    assert(tail@.len() == tail.len());
    let view_type = get_u32(&tail, 8);
    if !(get_u32(&tail, 4) == 1 && get_u32(&tail, 5) == 0 && get_u32(&tail, 6) == 1 && get_u32(&tail, 7) == 1
        && (view_type == 2 || view_type == 3)) {
        return Err(ReadError);
    }
    assert(subscene_tail_ok(flds_view(tail@)));
    assert(record_at(subscene_tail_kinds(), |fs: Seq<Fld>| subscene_tail_ok(fs), data@, q2 as int) == Some((flds_view(tail@), q3 as int)));
    Ok((SubSceneHead { head, components, tail }, q3))
}

#[verifier::rlimit(40)]
fn read_sub_scene_actor(data: &[u8], p: usize, ugi: UniqueGameId, d: usize) -> (r: Result<(SubSceneActor, usize), ReadError>)
    ensures
        match subscene_head_at(data@, p as int, ugi) {
            Some((head, starts, tail, q)) => match scene_at(data@, q, ugi, d as nat) {
                Some((_, _, e)) => r matches Ok((a, e2)) && e2 == e
                    && subscene_values_match(a, data@, head, starts, tail, ugi)
                    && scene_matches(a.wrapped_scene.scene, data@, q, ugi, d as nat),
                None => r is Err,
            },
            None => r is Err,
        },
    decreases d, 1usize,
{
    let (h, q3) = read_subscene_head(data, p, ugi)?;
    let head = h.head;
    let tail = h.tail;
    let components = h.components;
    assert(head@.len() == head.len());
    assert(tail@.len() == tail.len());
    let view_type = get_u32(&tail, 8);
    let (scene, e) = read_scene(data, q3, ugi, d)?;
    let name: [u8; 8] = [118u8, 105, 101, 119, 84, 121, 112, 101];
    assert(name@ =~= text_view_type());
    let mut enums: Vec<Enum> = Vec::new();
    enums.push(enum_of(name.as_slice(), view_type as i32));
    let a = SubSceneActor {
        relativez: get_u32(&head, 0),
        scale: [get_u32(&head, 1), get_u32(&head, 2)],
        x_flipped: get_u32(&head, 3) == 1,
        userfriendly: get_bytes(&head, 4),
        marker: None,
        defaultenable: None,
        is_enabled: None,
        pos2d: [get_u32(&head, 5), get_u32(&head, 6)],
        angle: 0,
        instancedatafile: Vec::new(),
        lua: path_text_of(&head, 12),
        relativepath: path_text_of(&tail, 0),
        embed_scene: false,
        is_single_piece: false,
        zforced: false,
        direct_picking: false,
        ignore_save: false,
        enums,
        wrapped_scene: WrappedScene { scene },
        components,
        parent_bind: None,
        markers: Vec::new(),
    };
    assert(a.scale@ =~= seq![fu32(flds_view(head@)[1]), fu32(flds_view(head@)[2])]);
    assert(a.pos2d@ =~= seq![fu32(flds_view(head@)[5]), fu32(flds_view(head@)[6])]);
    Ok((a, e))
}

// ---------------------------------------------------------------- positions and depth

proof fn lemma_record_at_pos(ks: Seq<FieldKind>, ok: spec_fn(Seq<Fld>) -> bool, s: Seq<u8>, p: int)
    ensures
        record_at(ks, ok, s, p) matches Some((_, q)) ==> p <= q <= s.len(),
{
    lemma_dec_run_fits(ks, s, p);
}

proof fn lemma_actor_records_pos(s: Seq<u8>, p: int, n: nat)
    ensures
        actor_records_end(s, p, n) matches Some(q) ==> p <= q <= s.len(),
    decreases n,
{
    if n > 0 {
        lemma_actor_records_pos(s, p, (n - 1) as nat);
        if let Some(q0) = actor_records_end(s, p, (n - 1) as nat) {
            lemma_dec_segs_fits(actor_record_layout(), s, q0);
        }
    }
}

proof fn lemma_isc_components_pos(s: Seq<u8>, p: int, n: nat, ugi: UniqueGameId)
    ensures
        isc_components_at(s, p, n, ugi) matches Some((_, q)) ==> p <= q <= s.len(),
    decreases n,
{
    if n > 0 {
        lemma_isc_components_pos(s, p, (n - 1) as nat, ugi);
        if let Some((_, q0)) = isc_components_at(s, p, (n - 1) as nat, ugi) {
            if 0 <= q0 && q0 + 4 <= s.len() {
                lemma_record_at_pos(isc_mgc_kinds(), |fs: Seq<Fld>| isc_mgc_ok(fs), s, q0 + 4);
                lemma_record_at_pos(isc_ptgc_kinds(), |fs: Seq<Fld>| isc_mgc_ok(fs), s, q0 + 4);
                lemma_dec_run_fits(isc_pleo_kinds(ugi), s, q0 + 4);
            }
        }
    }
}

proof fn lemma_isc_actor_pos(s: Seq<u8>, p: int, ugi: UniqueGameId)
    ensures
        isc_actor_at(s, p, ugi) matches Some((_, _, q)) ==> p <= q <= s.len(),
{
    lemma_record_at_pos(isc_actor_kinds(), |fs: Seq<Fld>| isc_actor_ok(fs), s, p);
    if let Some((_, q1)) = record_at(isc_actor_kinds(), |fs: Seq<Fld>| isc_actor_ok(fs), s, p) {
        if 0 <= q1 && q1 + 4 <= s.len() {
            lemma_actor_records_pos(s, q1 + 4, be32(s, q1) as nat);
        }
        if let Some(q2) = actor_record_list_end(s, q1) {
            if 0 <= q2 && q2 + 4 <= s.len() {
                lemma_isc_components_pos(s, q2 + 4, be32(s, q2) as nat, ugi);
            }
        }
    }
}

proof fn lemma_subscene_head_pos(s: Seq<u8>, p: int, ugi: UniqueGameId)
    ensures
        subscene_head_at(s, p, ugi) matches Some((_, _, _, q)) ==> p <= q <= s.len(),
{
    lemma_record_at_pos(subscene_head_kinds(), |fs: Seq<Fld>| subscene_head_ok(fs), s, p);
    if let Some((_, q1)) = record_at(subscene_head_kinds(), |fs: Seq<Fld>| subscene_head_ok(fs), s, p) {
        if 0 <= q1 && q1 + 4 <= s.len() {
            lemma_isc_components_pos(s, q1 + 4, be32(s, q1) as nat, ugi);
        }
        if let Some((_, q2)) = isc_component_list_at(s, q1, ugi) {
            lemma_record_at_pos(subscene_tail_kinds(), |fs: Seq<Fld>| subscene_tail_ok(fs), s, q2);
        }
    }
}

proof fn lemma_configs_pos(s: Seq<u8>, p: int, n: nat)
    ensures
        configs_at(s, p, n) matches Some((_, q)) ==> p <= q <= s.len(),
    decreases n,
{
    if n > 0 {
        lemma_configs_pos(s, p, (n - 1) as nat);
        if let Some((_, q0)) = configs_at(s, p, (n - 1) as nat) {
            lemma_record_at_pos(repeat(FieldKind::U32, 7), |fs: Seq<Fld>| map_config_ok(fs), s, q0 + 4);
            lemma_dec_segs_fits(song_db_layout(), s, q0 + 4);
        }
    }
}

proof fn lemma_scene_configs_pos(s: Seq<u8>, p: int)
    ensures
        scene_configs_at(s, p) matches Some((_, q)) ==> p + 4 <= q && q + 4 <= s.len(),
{
    if 0 <= p && p + 4 <= s.len() {
        lemma_configs_pos(s, p + 4, be32(s, p) as nat);
    }
}

/// Scenes, lists of actors and actors of a scene end after where they start
/// and within the data; the actors of a list start within it.
proof fn lemma_scene_pos(s: Seq<u8>, p: int, ugi: UniqueGameId, d: nat)
    ensures
        scene_at(s, p, ugi, d) matches Some((_, _, e)) ==> p + 24 <= e <= s.len(),
    decreases d, 0nat,
{
    if d > 0 && scene_head_ok(s, p) {
        lemma_actors_pos(s, p + 24, be32(s, p + 20) as nat, ugi, (d - 1) as nat);
        if let Some((_, q)) = actors_at(s, p + 24, be32(s, p + 20) as nat, ugi, (d - 1) as nat) {
            lemma_scene_configs_pos(s, q + 8);
        }
    }
}

proof fn lemma_actors_pos(s: Seq<u8>, p: int, n: nat, ugi: UniqueGameId, d: nat)
    ensures
        actors_at(s, p, n, ugi, d) matches Some((starts, q)) ==> p <= q <= s.len() && starts.len() == n
            && forall|k: int| 0 <= k < n ==> p <= #[trigger] starts[k] < q,
    decreases d, n + 2,
{
    if n > 0 {
        lemma_actors_pos(s, p, (n - 1) as nat, ugi, d);
        if let Some((starts0, q0)) = actors_at(s, p, (n - 1) as nat, ugi, d) {
            lemma_wrapped_actor_pos(s, q0, ugi, d);
            if let Some((starts, q)) = actors_at(s, p, n, ugi, d) {
                assert forall|k: int| 0 <= k < n implies p <= #[trigger] starts[k] < q by {
                    if k < n - 1 {
                        assert(starts[k] == starts0[k]);
                    }
                }
            }
        }
    }
}

proof fn lemma_wrapped_actor_pos(s: Seq<u8>, p: int, ugi: UniqueGameId, d: nat)
    ensures
        wrapped_actor_end(s, p, ugi, d) matches Some(q) ==> p + 4 <= q <= s.len(),
    decreases d, 1nat,
{
    if 0 <= p && p + 4 <= s.len() {
        lemma_isc_actor_pos(s, p + 4, ugi);
        lemma_subscene_head_pos(s, p + 4, ugi);
        if let Some((_, _, _, q)) = subscene_head_at(s, p + 4, ugi) {
            lemma_scene_pos(s, q, ugi, d);
        }
    }
}

/// With enough depth, more depth changes nothing: a scene at `p` nests at most
/// one level for every 24 bytes after it.
proof fn lemma_scene_depth(s: Seq<u8>, p: int, ugi: UniqueGameId, d1: nat, d2: nat)
    requires
        d1 >= s.len() - p - 23,
        d2 >= s.len() - p - 23,
    ensures
        scene_at(s, p, ugi, d1) == scene_at(s, p, ugi, d2),
        forall|x: Scene| scene_matches(x, s, p, ugi, d1) == scene_matches(x, s, p, ugi, d2),
    decreases d1, 0nat,
{
    if scene_head_ok(s, p) {
        let n = be32(s, p + 20) as nat;
        lemma_actors_depth(s, p + 24, n, ugi, (d1 - 1) as nat, (d2 - 1) as nat);
        lemma_actors_pos(s, p + 24, n, ugi, (d1 - 1) as nat);
        assert forall|x: Scene| scene_matches(x, s, p, ugi, d1) == scene_matches(x, s, p, ugi, d2) by {
            if let Some((astarts, _)) = actors_at(s, p + 24, n, ugi, (d1 - 1) as nat) {
                assert forall|k: int| #![trigger x.actors@[k]] 0 <= k < astarts.len() implies wrapped_actor_matches(
                    x.actors@[k],
                    s,
                    astarts[k],
                    ugi,
                    (d1 - 1) as nat,
                ) == wrapped_actor_matches(x.actors@[k], s, astarts[k], ugi, (d2 - 1) as nat) by {
                    lemma_wrapped_actor_depth(s, astarts[k], ugi, (d1 - 1) as nat, (d2 - 1) as nat);
                }
            }
        }
    }
}

proof fn lemma_actors_depth(s: Seq<u8>, p: int, n: nat, ugi: UniqueGameId, d1: nat, d2: nat)
    requires
        d1 >= s.len() - p,
        d2 >= s.len() - p,
    ensures
        actors_at(s, p, n, ugi, d1) == actors_at(s, p, n, ugi, d2),
    decreases d1, n + 2,
{
    if n > 0 {
        lemma_actors_depth(s, p, (n - 1) as nat, ugi, d1, d2);
        lemma_actors_pos(s, p, (n - 1) as nat, ugi, d1);
        if let Some((_, q0)) = actors_at(s, p, (n - 1) as nat, ugi, d1) {
            lemma_wrapped_actor_depth(s, q0, ugi, d1, d2);
        }
    }
}

proof fn lemma_wrapped_actor_depth(s: Seq<u8>, p: int, ugi: UniqueGameId, d1: nat, d2: nat)
    requires
        d1 >= s.len() - p,
        d2 >= s.len() - p,
    ensures
        wrapped_actor_end(s, p, ugi, d1) == wrapped_actor_end(s, p, ugi, d2),
        forall|w: WrappedActors| wrapped_actor_matches(w, s, p, ugi, d1) == wrapped_actor_matches(w, s, p, ugi, d2),
    decreases d1, 1nat,
{
    lemma_subscene_head_pos(s, p + 4, ugi);
    if let Some((_, _, _, q)) = subscene_head_at(s, p + 4, ugi) {
        lemma_scene_depth(s, q, ugi, d1, d2);
        assert forall|w: WrappedActors| wrapped_actor_matches(w, s, p, ugi, d1) == wrapped_actor_matches(w, s, p, ugi, d2) by {
            if w is SubSceneActor {
                let x = w->SubSceneActor_0.sub_scene_actor.wrapped_scene.scene;
                assert(scene_matches(x, s, q, ugi, d1) == scene_matches(x, s, q, ugi, d2));
            }
        }
    }
}

/// No scene nests deeper than its data has bytes: parsing a scene with
/// sub-scenes nested up to `s.len()` deep, as the entry points do, gives what
/// any greater depth gives.
pub proof fn lemma_scene_depth_enough(s: Seq<u8>, p: int, ugi: UniqueGameId, d: nat)
    requires
        0 <= p,
        d >= s.len(),
    ensures
        scene_at(s, p, ugi, d) == scene_at(s, p, ugi, s.len()),
        forall|x: Scene| scene_matches(x, s, p, ugi, d) == scene_matches(x, s, p, ugi, s.len()),
{
    lemma_scene_depth(s, p, ugi, d, s.len());
}

// ---------------------------------------------------------------- entry points
//
// A scene needs at least 24 bytes, and a sub-scene's scene follows its actor,
// so no scene nests deeper than its data has bytes: the entry points allow
// `data.len()` levels, which `lemma_scene_depth_enough` shows to be enough.

impl Scene {
    /// Parses the scene at `data[position..]`; returns it and the position after it.
    pub fn deserialize_at_with(data: &[u8], position: usize, ugi: UniqueGameId) -> (r: Result<(Scene, usize), ReadError>)
        ensures
            match scene_at(data@, position as int, ugi, data@.len()) {
                Some((_, _, e)) => r matches Ok((x, q)) && q == e && scene_matches(x, data@, position as int, ugi, data@.len()),
                None => r is Err,
            },
    {
        read_scene(data, position, ugi, data.len())
    }
}

impl Root {
    /// Parses the scene file whose scene starts at `data[position..]`;
    /// returns it and the position after it.
    pub fn deserialize_at_with(data: &[u8], position: usize, ugi: UniqueGameId) -> (r: Result<(Root, usize), ReadError>)
        ensures
            match scene_at(data@, position as int, ugi, data@.len()) {
                Some((_, _, e)) => r matches Ok((x, q)) && q == e && scene_matches(x.scene, data@, position as int, ugi, data@.len()),
                None => r is Err,
            },
    {
        let (scene, q) = read_scene(data, position, ugi, data.len())?;
        Ok((Root { scene }, q))
    }
}

impl WrappedActors {
    /// Parses the actor of a scene at `data[position..]`: its class (an actor
    /// or a sub-scene actor), then what the class calls for. Returns it and
    /// the position after it.
    pub fn deserialize_at_with(data: &[u8], position: usize, ugi: UniqueGameId) -> (r: Result<(WrappedActors, usize), ReadError>)
        ensures
            match wrapped_actor_end(data@, position as int, ugi, data@.len()) {
                Some(q) => r matches Ok((w, e)) && e == q && wrapped_actor_matches(w, data@, position as int, ugi, data@.len()),
                None => r is Err,
            },
    {
        read_wrapped_actor(data, position, ugi, data.len())
    }
}

impl SubSceneActor {
    /// Parses the sub-scene actor at `data[position..]` (after its class),
    /// with its scene; returns it and the position after it.
    pub fn deserialize_at_with(data: &[u8], position: usize, ugi: UniqueGameId) -> (r: Result<(SubSceneActor, usize), ReadError>)
        ensures
            match subscene_head_at(data@, position as int, ugi) {
                Some((head, starts, tail, q)) => match scene_at(data@, q, ugi, data@.len()) {
                    Some((_, _, e)) => r matches Ok((a, e2)) && e2 == e
                        && subscene_values_match(a, data@, head, starts, tail, ugi)
                        && scene_matches(a.wrapped_scene.scene, data@, q, ugi, data@.len()),
                    None => r is Err,
                },
                None => r is Err,
            },
    {
        read_sub_scene_actor(data, position, ugi, data.len())
    }
}

/// Parses a binary scene file of Just Dance 2015. The scenes of the later
/// games are XML documents; this crate does not read them, and a caller holds
/// `ugi` to Just Dance 2015.
pub fn parse(data: &[u8], ugi: UniqueGameId) -> (r: Result<Root, ParserError>)
    requires
        ugi.game == Game::JustDance2015,
    ensures
        match scene_at(data@, 0, ugi, data@.len()) {
            Some(_) => r matches Ok(x) && scene_matches(x.scene, data@, 0, ugi, data@.len()),
            None => r is Err,
        },
{
    match Root::deserialize_at_with(data, 0, ugi) {
        Ok((root, _)) => Ok(root),
        Err(_) => Err(ParserError),
    }
}

} // verus!
