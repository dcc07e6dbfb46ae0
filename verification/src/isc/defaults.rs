//! The values that a new scene, actor or component starts from. Every `f32`
//! is held as its bits: `1.0` is `0x3F80_0000` and `0.5` is `0x3F00_0000`.
use vstd::prelude::*;
use crate::utils::Color;
use super::binary::{
    enum_is, enum_of, identity_rows, identity_separators, text_anchor, text_old_anchor, text_gfx_occlude_info,
    text_pause_level,
};
use super::types::{
    Actor, Enum, GFXMaterialSerializable, GFXMaterialSerializableParam, GFXMaterialTexturePathSet, GFXPrimitiveParam,
    Material, MaterialGraphicComponent, MaterialParams, OutlinedMaskMaterialParams, OutlinedMaskParams,
    PrimitiveParameters, Scene, SceneConfigs, SongDatabaseSceneConfig, SubSceneActor, TextureSet, WrappedScene,
    WrappedSceneConfigs,
};

verus! {

/// Whether every path of the texture set is empty.
pub open spec fn texture_paths_empty(t: GFXMaterialTexturePathSet) -> bool {
    &&& t.diffuse@.len() == 0 && t.back_light@.len() == 0 && t.normal@.len() == 0
    &&& t.separate_alpha@.len() == 0 && t.diffuse_2@.len() == 0 && t.back_light_2@.len() == 0
    &&& t.anim_impostor@.len() == 0 && t.diffuse_3@.len() == 0 && t.diffuse_4@.len() == 0
}

impl Default for GFXMaterialTexturePathSet {
    /// No texture.
    fn default() -> (r: GFXMaterialTexturePathSet)
        ensures
            texture_paths_empty(r),
    {
        GFXMaterialTexturePathSet {
            diffuse: Vec::new(),
            back_light: Vec::new(),
            normal: Vec::new(),
            separate_alpha: Vec::new(),
            diffuse_2: Vec::new(),
            back_light_2: Vec::new(),
            anim_impostor: Vec::new(),
            diffuse_3: Vec::new(),
            diffuse_4: Vec::new(),
        }
    }
}

impl Default for TextureSet {
    /// No texture.
    fn default() -> (r: TextureSet)
        ensures
            texture_paths_empty(r.gfx_material_texture_path_set),
    {
        TextureSet { gfx_material_texture_path_set: GFXMaterialTexturePathSet::default() }
    }
}

impl Default for GFXMaterialSerializableParam {
    /// A reflector factor of zero.
    fn default() -> (r: GFXMaterialSerializableParam)
        ensures
            r.reflector_factor == 0,
    {
        GFXMaterialSerializableParam { reflector_factor: 0 }
    }
}

impl Default for MaterialParams {
    /// A reflector factor of zero.
    fn default() -> (r: MaterialParams)
        ensures
            r.gfx_material_serializable_param.reflector_factor == 0,
    {
        MaterialParams { gfx_material_serializable_param: GFXMaterialSerializableParam::default() }
    }
}

/// Whether the outline parameters are the default ones: both colors zero and a thickness of `1.0`.
pub open spec fn outline_default(p: OutlinedMaskMaterialParams) -> bool {
    &&& p.mask_color.color == (0u32, 0u32, 0u32, 0u32)
    &&& p.outline_color.color == (0u32, 0u32, 0u32, 0u32)
    &&& p.thickness == 0x3F80_0000
}

impl Default for OutlinedMaskMaterialParams {
    /// Both colors zero and a thickness of `1.0`.
    fn default() -> (r: OutlinedMaskMaterialParams)
        ensures
            outline_default(r),
    {
        OutlinedMaskMaterialParams {
            mask_color: Color { color: (0, 0, 0, 0) },
            outline_color: Color { color: (0, 0, 0, 0) },
            thickness: 0x3F80_0000,
        }
    }
}

impl Default for OutlinedMaskParams {
    /// Both colors zero and a thickness of `1.0`.
    fn default() -> (r: OutlinedMaskParams)
        ensures
            outline_default(r.outline_mask_material_params),
    {
        OutlinedMaskParams { outline_mask_material_params: OutlinedMaskMaterialParams::default() }
    }
}

/// Whether the material is the default one: no texture, no shader, alpha
/// test and reference all ones, and the default outline.
pub open spec fn material_default(g: GFXMaterialSerializable) -> bool {
    &&& g.atl_channel == 0 && g.atl_path@.len() == 0 && g.shader_path@.len() == 0
    &&& g.stencil_test is None && g.alpha_test == 0xFFFF_FFFF && g.alpha_ref == 0xFFFF_FFFF
    &&& texture_paths_empty(g.texture_set.gfx_material_texture_path_set)
    &&& g.material_params.gfx_material_serializable_param.reflector_factor == 0
    &&& g.outlined_mask_params matches Some(o) && outline_default(o.outline_mask_material_params)
}

impl Default for GFXMaterialSerializable {
    /// No texture, no shader, alpha test and reference all ones, and the default outline.
    fn default() -> (r: GFXMaterialSerializable)
        ensures
            material_default(r),
    {
        GFXMaterialSerializable {
            atl_channel: 0,
            atl_path: Vec::new(),
            shader_path: Vec::new(),
            stencil_test: None,
            alpha_test: 0xFFFF_FFFF,
            alpha_ref: 0xFFFF_FFFF,
            texture_set: TextureSet::default(),
            material_params: MaterialParams::default(),
            outlined_mask_params: Some(OutlinedMaskParams::default()),
        }
    }
}

impl Default for Material {
    /// The default material.
    fn default() -> (r: Material)
        ensures
            material_default(r.gfx_material_serializable),
    {
        Material { gfx_material_serializable: GFXMaterialSerializable::default() }
    }
}

/// Whether the primitive parameters are the default ones: a white color factor and no occlusion.
pub open spec fn primitive_default(p: GFXPrimitiveParam) -> bool {
    &&& p.color_factor.color == (0x3F80_0000u32, 0x3F80_0000u32, 0x3F80_0000u32, 0x3F80_0000u32)
    &&& p.enums@.len() == 1 && enum_is(p.enums@[0], text_gfx_occlude_info(), 0)
}

impl Default for GFXPrimitiveParam {
    /// A white color factor and no occlusion.
    fn default() -> (r: GFXPrimitiveParam)
        ensures
            primitive_default(r),
    {
        let name: [u8; 14] = [103u8, 102, 120, 79, 99, 99, 108, 117, 100, 101, 73, 110, 102, 111];
        assert(name@ =~= text_gfx_occlude_info());
        let mut enums: Vec<Enum> = Vec::new();
        enums.push(enum_of(name.as_slice(), 0));
        GFXPrimitiveParam { color_factor: Color { color: (0x3F80_0000, 0x3F80_0000, 0x3F80_0000, 0x3F80_0000) }, enums }
    }
}

impl Default for PrimitiveParameters {
    /// A white color factor and no occlusion.
    fn default() -> (r: PrimitiveParameters)
        ensures
            primitive_default(r.gfx_primitive_param),
    {
        PrimitiveParameters { gfx_primitive_param: GFXPrimitiveParam::default() }
    }
}

impl Default for MaterialGraphicComponent {
    /// Shadows off, a sinus speed of `1.0`, both anchors 1, and the default
    /// primitive parameters and material; every other value zero.
    fn default() -> (r: MaterialGraphicComponent)
        ensures
            r.color_computer_tag_id == 0 && !r.render_in_target && !r.disable_light,
            r.disable_shadow == 0xFFFF_FFFF && r.atlas_index == 0,
            r.custom_anchor@ == seq![0u32, 0u32],
            r.sinus_amplitude@ == seq![0u32, 0u32, 0u32],
            r.sinus_speed == 0x3F80_0000 && r.angle_x == 0 && r.angle_y == 0,
            primitive_default(r.primitive_parameters.gfx_primitive_param),
            r.enums@.len() == 2,
            enum_is(r.enums@[0], text_anchor(), 1),
            enum_is(r.enums@[1], text_old_anchor(), 1),
            material_default(r.material.gfx_material_serializable),
    {
        let anchor: [u8; 6] = [97u8, 110, 99, 104, 111, 114];
        let old_anchor: [u8; 9] = [111u8, 108, 100, 65, 110, 99, 104, 111, 114];
        assert(anchor@ =~= text_anchor());
        assert(old_anchor@ =~= text_old_anchor());
        let mut enums: Vec<Enum> = Vec::new();
        enums.push(enum_of(anchor.as_slice(), 1));
        enums.push(enum_of(old_anchor.as_slice(), 1));
        let r = MaterialGraphicComponent {
            color_computer_tag_id: 0,
            render_in_target: false,
            disable_light: false,
            disable_shadow: 0xFFFF_FFFF,
            atlas_index: 0,
            custom_anchor: [0, 0],
            sinus_amplitude: [0, 0, 0],
            sinus_speed: 0x3F80_0000,
            angle_x: 0,
            angle_y: 0,
            primitive_parameters: PrimitiveParameters::default(),
            enums,
            material: Material::default(),
        };
        assert(r.custom_anchor@ =~= seq![0u32, 0u32]);
        assert(r.sinus_amplitude@ =~= seq![0u32, 0u32, 0u32]);
        r
    }
}

impl Default for SceneConfigs {
    /// No scene configuration, the first one active.
    fn default() -> (r: SceneConfigs)
        ensures
            r.active_scene_config == 0 && r.jd_scene_config@.len() == 0,
    {
        SceneConfigs { active_scene_config: 0, jd_scene_config: Vec::new() }
    }
}

impl Default for WrappedSceneConfigs {
    /// No scene configuration, the first one active.
    fn default() -> (r: WrappedSceneConfigs)
        ensures
            r.scene_configs.active_scene_config == 0 && r.scene_configs.jd_scene_config@.len() == 0,
    {
        WrappedSceneConfigs { scene_configs: SceneConfigs::default() }
    }
}

/// Whether the scene is the empty scene of the current engine: version
/// `326_704`, a grid unit of `0.5`, identity separators and nothing in it.
pub open spec fn scene_default(x: Scene) -> bool {
    &&& x.engine_version == 326_704 && x.gridunit == 0x3F00_0000 && x.depth_separator == 0
    &&& identity_rows(x.near_separator) && identity_rows(x.far_separator)
    &&& !x.view_family && !x.is_popup
    &&& x.platform_filters@.len() == 0 && x.actors@.len() == 0
    &&& x.scene_configs.scene_configs.active_scene_config == 0
    &&& x.scene_configs.scene_configs.jd_scene_config@.len() == 0
}

impl Default for Scene {
    /// The empty scene of the current engine.
    fn default() -> (r: Scene)
        ensures
            scene_default(r),
    {
        Scene {
            engine_version: 326_704,
            gridunit: 0x3F00_0000,
            depth_separator: 0,
            near_separator: identity_separators(),
            far_separator: identity_separators(),
            view_family: false,
            is_popup: false,
            platform_filters: Vec::new(),
            actors: Vec::new(),
            scene_configs: WrappedSceneConfigs::default(),
        }
    }
}

impl Default for WrappedScene {
    /// The empty scene of the current engine.
    fn default() -> (r: WrappedScene)
        ensures
            scene_default(r.scene),
    {
        WrappedScene { scene: Scene::default() }
    }
}

impl Default for Actor {
    /// An actor with no name, script or component, a scale of `1.0` by
    /// `1.0`, an empty marker and enabled by default.
    fn default() -> (r: Actor)
        ensures
            r.relativez == 0 && r.scale@ == seq![0x3F80_0000u32, 0x3F80_0000u32] && !r.x_flipped,
            r.userfriendly@.len() == 0,
            r.marker matches Some(m) && m@.len() == 0,
            r.defaultenable == Some(true),
            r.pos2d@ == seq![0u32, 0u32] && r.angle == 0,
            r.instancedatafile@.len() == 0 && r.lua@.len() == 0,
            r.components@.len() == 0 && r.parent_bind is None && r.markers@.len() == 0 && r.is_enabled is None,
    {
        let r = Actor {
            relativez: 0,
            scale: [0x3F80_0000, 0x3F80_0000],
            x_flipped: false,
            userfriendly: Vec::new(),
            marker: Some(Vec::new()),
            defaultenable: Some(true),
            is_enabled: None,
            pos2d: [0, 0],
            angle: 0,
            instancedatafile: Vec::new(),
            lua: Vec::new(),
            components: Vec::new(),
            parent_bind: None,
            markers: Vec::new(),
        };
        assert(r.scale@ =~= seq![0x3F80_0000u32, 0x3F80_0000u32]);
        assert(r.pos2d@ =~= seq![0u32, 0u32]);
        r
    }
}

impl Default for SubSceneActor {
    /// A sub-scene actor with no name, script, path or component, a scale of
    /// `1.0` by `1.0`, an empty marker, enabled by default, its scene
    /// embedded, forced in depth and picked directly, and the empty scene.
    fn default() -> (r: SubSceneActor)
        ensures
            r.relativez == 0 && r.scale@ == seq![0x3F80_0000u32, 0x3F80_0000u32] && !r.x_flipped,
            r.userfriendly@.len() == 0,
            r.marker matches Some(m) && m@.len() == 0,
            r.defaultenable == Some(true),
            r.pos2d@ == seq![0u32, 0u32] && r.angle == 0,
            r.instancedatafile@.len() == 0 && r.lua@.len() == 0 && r.relativepath@.len() == 0,
            r.embed_scene && !r.is_single_piece && r.zforced && r.direct_picking && !r.ignore_save,
            r.enums@.len() == 0,
            scene_default(r.wrapped_scene.scene),
            r.components@.len() == 0 && r.parent_bind is None && r.markers@.len() == 0 && r.is_enabled is None,
    {
        let r = SubSceneActor {
            relativez: 0,
            scale: [0x3F80_0000, 0x3F80_0000],
            x_flipped: false,
            userfriendly: Vec::new(),
            marker: Some(Vec::new()),
            defaultenable: Some(true),
            is_enabled: None,
            pos2d: [0, 0],
            angle: 0,
            instancedatafile: Vec::new(),
            lua: Vec::new(),
            relativepath: Vec::new(),
            embed_scene: true,
            is_single_piece: false,
            zforced: true,
            direct_picking: true,
            ignore_save: false,
            enums: Vec::new(),
            wrapped_scene: WrappedScene::default(),
            components: Vec::new(),
            parent_bind: None,
            markers: Vec::new(),
        };
        assert(r.scale@ =~= seq![0x3F80_0000u32, 0x3F80_0000u32]);
        assert(r.pos2d@ =~= seq![0u32, 0u32]);
        r
    }
}

/// The bytes of the text `NCSA`.
pub open spec fn text_ncsa() -> Seq<u8> {
    seq![78u8, 67, 83, 65]
}

impl Default for SongDatabaseSceneConfig {
    /// The territory `NCSA`, the pause level 6, and nothing else.
    fn default() -> (r: SongDatabaseSceneConfig)
        ensures
            r.name@.len() == 0 && r.sku@.len() == 0 && r.territory@ == text_ncsa() && r.rating_ui@.len() == 0,
            r.enums@.len() == 1 && enum_is(r.enums@[0], text_pause_level(), 6),
            r.coverflow_sku_songs@.len() == 0,
    {
        let ncsa: [u8; 4] = [78u8, 67, 83, 65];
        let pause: [u8; 11] = [80u8, 97, 117, 115, 101, 95, 76, 101, 118, 101, 108];
        assert(ncsa@ =~= text_ncsa());
        assert(pause@ =~= text_pause_level());
        let mut enums: Vec<Enum> = Vec::new();
        enums.push(enum_of(pause.as_slice(), 6));
        SongDatabaseSceneConfig {
            name: Vec::new(),
            sku: Vec::new(),
            territory: super::binary::text_vec(ncsa.as_slice()),
            rating_ui: Vec::new(),
            enums,
            coverflow_sku_songs: Vec::new(),
        }
    }
}

} // verus!
