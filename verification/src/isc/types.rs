//! The types of a scene. Every `f32` is held as the bits of its IEEE 754
//! single-precision value; every string as its UTF-8 bytes.
use vstd::prelude::*;
use crate::error::ParserError;
use crate::bytes::{bytes_eq, bytes_ends_with, ends_with, lowercase_of, to_lowercase};
use crate::utils::Color;

verus! {

/// The root of a scene file.
#[derive(Debug)]
pub struct Root {
    pub scene: Scene,
}

/// A scene: its settings, its actors and its scene configurations.
#[derive(Debug)]
pub struct Scene {
    pub engine_version: u32,
    pub gridunit: u32,
    pub depth_separator: usize,
    pub near_separator: [Color; 4],
    pub far_separator: [Color; 4],
    pub view_family: bool,
    pub is_popup: bool,
    pub platform_filters: Vec<PlatformFilter>,
    pub actors: Vec<WrappedActors>,
    pub scene_configs: WrappedSceneConfigs,
}

#[derive(Debug, Clone)]
pub struct WrappedSceneConfigs {
    pub scene_configs: SceneConfigs,
}

#[derive(Debug, Clone)]
pub struct SceneConfigs {
    pub active_scene_config: u32,
    pub jd_scene_config: Vec<WrappedJdSceneConfig>,
}

/// A scene configuration, by its class.
#[derive(Debug, Clone)]
pub enum WrappedJdSceneConfig {
    MapScene(WrappedMapSceneConfig),
    SongDatabase(WrappedSongDatabaseSceneConfig),
}

#[derive(Debug, Clone)]
pub struct WrappedMapSceneConfig {
    pub map_scene_config: MapSceneConfig,
}

#[derive(Debug, Clone)]
pub struct WrappedSongDatabaseSceneConfig {
    pub song_database_scene_config: SongDatabaseSceneConfig,
}

#[derive(Debug, Clone)]
pub struct MapSceneConfig {
    pub name: Vec<u8>,
    pub sound_context: Vec<u8>,
    pub hud: u32,
    pub phone_title_loc_id: Option<u32>,
    pub phone_image: Option<Vec<u8>>,
    pub enums: Vec<Enum>,
}

#[derive(Debug, Clone)]
pub struct SongDatabaseSceneConfig {
    pub name: Vec<u8>,
    pub sku: Vec<u8>,
    pub territory: Vec<u8>,
    pub rating_ui: Vec<u8>,
    pub enums: Vec<Enum>,
    pub coverflow_sku_songs: Vec<CoverflowSkuSongs>,
}

#[derive(Debug, Clone)]
pub struct CoverflowSkuSongs {
    pub coverflow_song: CoverflowSong,
}

#[derive(Debug, Clone)]
pub struct CoverflowSong {
    pub name: Vec<u8>,
    pub cover_path: Vec<u8>,
}

/// An actor of a scene: a plain actor or a sub-scene.
#[derive(Debug)]
pub enum WrappedActors {
    SubSceneActor(WrappedSubSceneActor),
    Actor(WrappedActor),
}

impl WrappedActors {
    /// The plain actor this is; an error for a sub-scene.
    pub fn actor(&self) -> (r: Result<&Actor, ParserError>)
        ensures
            match *self {
                WrappedActors::Actor(w) => r == Ok::<&Actor, ParserError>(&w.actor),
                WrappedActors::SubSceneActor(_) => r is Err,
            },
    {
        match self {
            WrappedActors::Actor(w) => Ok(&w.actor),
            WrappedActors::SubSceneActor(_) => Err(ParserError),
        }
    }

    /// The sub-scene this is; an error for a plain actor.
    pub fn sub_scene_actor(&self) -> (r: Result<&SubSceneActor, ParserError>)
        ensures
            match *self {
                WrappedActors::SubSceneActor(w) => r == Ok::<&SubSceneActor, ParserError>(&w.sub_scene_actor),
                WrappedActors::Actor(_) => r is Err,
            },
    {
        match self {
            WrappedActors::SubSceneActor(w) => Ok(&w.sub_scene_actor),
            WrappedActors::Actor(_) => Err(ParserError),
        }
    }
}

#[derive(Debug)]
pub struct WrappedSubSceneActor {
    pub sub_scene_actor: SubSceneActor,
}

#[derive(Debug, Clone)]
pub struct WrappedActor {
    pub actor: Actor,
}

/// A plain actor of a scene. Its position is held as the bits of the two
/// `f32` that the binary scenes store.
#[derive(Debug, Clone)]
pub struct Actor {
    pub relativez: u32,
    pub scale: [u32; 2],
    pub x_flipped: bool,
    pub userfriendly: Vec<u8>,
    pub marker: Option<Vec<u8>>,
    pub defaultenable: Option<bool>,
    pub is_enabled: Option<bool>,
    pub pos2d: [u32; 2],
    pub angle: u32,
    pub instancedatafile: Vec<u8>,
    pub lua: Vec<u8>,
    pub components: Vec<WrappedComponent>,
    pub parent_bind: Option<ParentBind>,
    pub markers: Vec<Marker>,
}

#[derive(Debug, Clone)]
pub struct ParentBind {
    pub bind: Bind,
}

#[derive(Debug, Clone)]
pub struct Bind {
    pub parent_path: Vec<u8>,
    pub type_data: u32,
    pub offset_pos: [u32; 3],
    pub offset_angle: u32,
    pub local_scale: [u32; 2],
    pub use_parent_flip: bool,
    pub use_parent_alpha: bool,
    pub use_parent_color: bool,
    pub remove_with_parent: bool,
    pub enums: Vec<Enum>,
}

/// A sub-scene of a scene: an actor that holds a scene of its own.
#[derive(Debug)]
pub struct SubSceneActor {
    pub relativez: u32,
    pub scale: [u32; 2],
    pub x_flipped: bool,
    pub userfriendly: Vec<u8>,
    pub marker: Option<Vec<u8>>,
    pub defaultenable: Option<bool>,
    pub is_enabled: Option<bool>,
    pub pos2d: [u32; 2],
    pub angle: u32,
    pub instancedatafile: Vec<u8>,
    pub lua: Vec<u8>,
    pub relativepath: Vec<u8>,
    pub embed_scene: bool,
    pub is_single_piece: bool,
    pub zforced: bool,
    pub direct_picking: bool,
    pub ignore_save: bool,
    pub enums: Vec<Enum>,
    pub wrapped_scene: WrappedScene,
    pub components: Vec<WrappedComponent>,
    pub parent_bind: Option<ParentBind>,
    pub markers: Vec<Marker>,
}

#[derive(Debug, Clone)]
pub struct Marker {
    pub value: Vec<u8>,
}

#[derive(Debug)]
pub struct WrappedScene {
    pub scene: Scene,
}

/// A named selection of an enumeration.
#[derive(Debug, Clone, PartialEq, Eq)]
pub struct Enum {
    pub name: Vec<u8>,
    pub selection: i32,
}

#[derive(Debug, Clone)]
pub struct PlatformFilter {
    pub target_filter_list: TargetFilterList,
}

#[derive(Debug, Clone)]
pub struct TargetFilterList {
    pub platform: Vec<u8>,
    pub objects: Vec<TargetFilterObject>,
}

#[derive(Debug, Clone)]
pub struct TargetFilterObject {
    pub value: Vec<u8>,
}

/// A component of an actor of a scene, by its class: the classes that the
/// binary scenes hold.
#[derive(Debug, Clone)]
pub enum WrappedComponent {
    Autodance,
    BlockFlowComponent,
    SongDatabase,
    SongDesc,
    MasterTape,
    MaterialGraphic(WrappedMaterialGraphicComponent),
    MusicTrack,
    Pleo(WrappedPleoComponent),
    PleoTextureGraphic(WrappedPleoTextureGraphicComponent),
    TapeCase,
}

impl WrappedComponent {
    /// The video player component this is; an error for any other component.
    pub fn pleo_component(&self) -> (r: Result<&PleoComponent, ParserError>)
        ensures
            match *self {
                WrappedComponent::Pleo(w) => r == Ok::<&PleoComponent, ParserError>(&w.pleo_component),
                _ => r is Err,
            },
    {
        match self {
            WrappedComponent::Pleo(w) => Ok(&w.pleo_component),
            _ => Err(ParserError),
        }
    }

    /// The material graphic component this is; an error for any other component.
    pub fn material_graphic_component(&self) -> (r: Result<&MaterialGraphicComponent, ParserError>)
        ensures
            match *self {
                WrappedComponent::MaterialGraphic(w) => r == Ok::<&MaterialGraphicComponent, ParserError>(&w.material_graphic_component),
                _ => r is Err,
            },
    {
        match self {
            WrappedComponent::MaterialGraphic(w) => Ok(&w.material_graphic_component),
            _ => Err(ParserError),
        }
    }
}

#[derive(Debug, Clone)]
pub struct WrappedMaterialGraphicComponent {
    pub material_graphic_component: MaterialGraphicComponent,
}

#[derive(Debug, Clone)]
pub struct WrappedPleoComponent {
    pub pleo_component: PleoComponent,
}

#[derive(Debug, Clone)]
pub struct WrappedPleoTextureGraphicComponent {
    pub pleo_texture_graphic_component: PleoTextureGraphicComponent,
}

#[derive(Debug, Clone)]
pub struct MaterialGraphicComponent {
    pub color_computer_tag_id: u32,
    pub render_in_target: bool,
    pub disable_light: bool,
    pub disable_shadow: u32,
    pub atlas_index: u32,
    pub custom_anchor: [u32; 2],
    pub sinus_amplitude: [u32; 3],
    pub sinus_speed: u32,
    pub angle_x: u32,
    pub angle_y: u32,
    pub primitive_parameters: PrimitiveParameters,
    pub enums: Vec<Enum>,
    pub material: Material,
}

#[derive(Debug, Clone)]
pub struct PleoComponent {
    pub video: Vec<u8>,
    pub dash_mpd: Vec<u8>,
    pub channel_id: Vec<u8>,
}

#[derive(Debug, Clone)]
pub struct PleoTextureGraphicComponent {
    pub color_computer_tag_id: u32,
    pub render_in_target: bool,
    pub disable_light: bool,
    pub disable_shadow: u32,
    pub atlas_index: u32,
    pub custom_anchor: [u32; 2],
    pub sinus_amplitude: [u32; 3],
    pub sinus_speed: u32,
    pub angle_x: u32,
    pub angle_y: u32,
    pub channel_id: Vec<u8>,
    pub primitive_parameters: PrimitiveParameters,
    pub enums: Vec<Enum>,
    pub material: Material,
}

#[derive(Debug, Clone)]
pub struct PrimitiveParameters {
    pub gfx_primitive_param: GFXPrimitiveParam,
}

#[derive(Debug, Clone)]
pub struct GFXPrimitiveParam {
    pub color_factor: Color,
    pub enums: Vec<Enum>,
}

#[derive(Debug, Clone)]
pub struct Material {
    pub gfx_material_serializable: GFXMaterialSerializable,
}

#[derive(Debug, Clone)]
pub struct GFXMaterialSerializable {
    pub atl_channel: u32,
    pub atl_path: Vec<u8>,
    pub shader_path: Vec<u8>,
    pub stencil_test: Option<u32>,
    pub alpha_test: u32,
    pub alpha_ref: u32,
    pub texture_set: TextureSet,
    pub material_params: MaterialParams,
    pub outlined_mask_params: Option<OutlinedMaskParams>,
}

#[derive(Debug, Clone)]
pub struct TextureSet {
    pub gfx_material_texture_path_set: GFXMaterialTexturePathSet,
}

#[derive(Debug, Clone, PartialEq, Eq)]
pub struct GFXMaterialTexturePathSet {
    pub diffuse: Vec<u8>,
    pub back_light: Vec<u8>,
    pub normal: Vec<u8>,
    pub separate_alpha: Vec<u8>,
    pub diffuse_2: Vec<u8>,
    pub back_light_2: Vec<u8>,
    pub anim_impostor: Vec<u8>,
    pub diffuse_3: Vec<u8>,
    pub diffuse_4: Vec<u8>,
}

#[derive(Debug, Clone, Copy)]
pub struct MaterialParams {
    pub gfx_material_serializable_param: GFXMaterialSerializableParam,
}

#[derive(Debug, Clone, Copy)]
pub struct GFXMaterialSerializableParam {
    pub reflector_factor: u32,
}

#[derive(Debug, Clone, Copy)]
pub struct OutlinedMaskParams {
    pub outline_mask_material_params: OutlinedMaskMaterialParams,
}

#[derive(Debug, Clone, Copy)]
pub struct OutlinedMaskMaterialParams {
    pub mask_color: Color,
    pub outline_color: Color,
    pub thickness: u32,
}

/// Whether `w` is a plain actor whose user-friendly name is `u`.
pub open spec fn actor_named(w: WrappedActors, u: Seq<u8>) -> bool {
    w matches WrappedActors::Actor(a) && a.actor.userfriendly@ == u
}

/// Whether `w` is a sub-scene whose user-friendly name is `u`.
pub open spec fn subscene_named(w: WrappedActors, u: Seq<u8>) -> bool {
    w matches WrappedActors::SubSceneActor(a) && a.sub_scene_actor.userfriendly@ == u
}

/// Whether the name `name` ends with `u`; where `lax`, both in lower case.
pub open spec fn name_ends(name: Seq<u8>, u: Seq<u8>, lax: bool) -> bool {
    if lax {
        ends_with(lowercase_of(name), lowercase_of(u))
    } else {
        ends_with(name, u)
    }
}

/// Whether `w` is a plain actor whose user-friendly name ends with `u`.
pub open spec fn actor_ending(w: WrappedActors, u: Seq<u8>, lax: bool) -> bool {
    w matches WrappedActors::Actor(a) && name_ends(a.actor.userfriendly@, u, lax)
}

/// Whether `w` is a sub-scene whose user-friendly name ends with `u`.
pub open spec fn subscene_ending(w: WrappedActors, u: Seq<u8>, lax: bool) -> bool {
    w matches WrappedActors::SubSceneActor(a) && name_ends(a.sub_scene_actor.userfriendly@, u, lax)
}

fn name_ends_exec(name: &Vec<u8>, u: &[u8], lower_u: &Vec<u8>, lax: bool) -> (r: bool)
    requires
        lower_u@ == lowercase_of(u@),
    ensures
        r == name_ends(name@, u@, lax),
{
    if lax {
        let lower = to_lowercase(name.as_slice());
        bytes_ends_with(lower.as_slice(), lower_u.as_slice())
    } else {
        bytes_ends_with(name.as_slice(), u)
    }
}

impl Scene {
    /// The first sub-scene among the actors whose user-friendly name is `userfriendly`; an error where there is none.
    pub fn get_subscene_by_userfriendly(&self, userfriendly: &[u8]) -> (r: Result<&SubSceneActor, ParserError>)
        ensures
            match r {
                Ok(a) => exists|k: int| 0 <= k < self.actors@.len() && #[trigger] subscene_named(self.actors@[k], userfriendly@)
                    && (self.actors@[k] matches WrappedActors::SubSceneActor(w) && *a == w.sub_scene_actor)
                    && forall|j: int| 0 <= j < k ==> !subscene_named(#[trigger] self.actors@[j], userfriendly@),
                Err(_) => forall|k: int| 0 <= k < self.actors@.len() ==> !subscene_named(#[trigger] self.actors@[k], userfriendly@),
            },
    {
        let mut i: usize = 0;
        while i < self.actors.len()
            invariant
                i <= self.actors@.len(),
                forall|j: int| 0 <= j < i ==> !subscene_named(#[trigger] self.actors@[j], userfriendly@),
            decreases self.actors@.len() - i,
        {
            if let WrappedActors::SubSceneActor(w) = &self.actors[i] {
                if bytes_eq(w.sub_scene_actor.userfriendly.as_slice(), userfriendly) {
                    assert(subscene_named(self.actors@[i as int], userfriendly@));
                    return Ok(&w.sub_scene_actor);
                }
            }
            i = i + 1;
        }
        Err(ParserError)
    }

    /// The first sub-scene among the actors whose user-friendly name ends with
    /// `userfriendly` (where `lax`, both in lower case); an error where there is none.
    pub fn get_subscene_by_userfriendly_end(&self, userfriendly: &[u8], lax: bool) -> (r: Result<&SubSceneActor, ParserError>)
        ensures
            match r {
                Ok(a) => exists|k: int| 0 <= k < self.actors@.len() && #[trigger] subscene_ending(self.actors@[k], userfriendly@, lax)
                    && (self.actors@[k] matches WrappedActors::SubSceneActor(w) && *a == w.sub_scene_actor)
                    && forall|j: int| 0 <= j < k ==> !subscene_ending(#[trigger] self.actors@[j], userfriendly@, lax),
                Err(_) => forall|k: int| 0 <= k < self.actors@.len() ==> !subscene_ending(#[trigger] self.actors@[k], userfriendly@, lax),
            },
    {
        let lower_u = to_lowercase(userfriendly);
        let mut i: usize = 0;
        while i < self.actors.len()
            invariant
                i <= self.actors@.len(),
                lower_u@ == lowercase_of(userfriendly@),
                forall|j: int| 0 <= j < i ==> !subscene_ending(#[trigger] self.actors@[j], userfriendly@, lax),
            decreases self.actors@.len() - i,
        {
            if let WrappedActors::SubSceneActor(w) = &self.actors[i] {
                if name_ends_exec(&w.sub_scene_actor.userfriendly, userfriendly, &lower_u, lax) {
                    assert(subscene_ending(self.actors@[i as int], userfriendly@, lax));
                    return Ok(&w.sub_scene_actor);
                }
            }
            i = i + 1;
        }
        Err(ParserError)
    }

    /// The first plain actor whose user-friendly name ends with `userfriendly`
    /// (where `lax`, both in lower case); an error where there is none.
    pub fn get_actor_by_userfriendly_end(&self, userfriendly: &[u8], lax: bool) -> (r: Result<&Actor, ParserError>)
        ensures
            match r {
                Ok(a) => exists|k: int| 0 <= k < self.actors@.len() && #[trigger] actor_ending(self.actors@[k], userfriendly@, lax)
                    && (self.actors@[k] matches WrappedActors::Actor(w) && *a == w.actor)
                    && forall|j: int| 0 <= j < k ==> !actor_ending(#[trigger] self.actors@[j], userfriendly@, lax),
                Err(_) => forall|k: int| 0 <= k < self.actors@.len() ==> !actor_ending(#[trigger] self.actors@[k], userfriendly@, lax),
            },
    {
        let lower_u = to_lowercase(userfriendly);
        let mut i: usize = 0;
        while i < self.actors.len()
            invariant
                i <= self.actors@.len(),
                lower_u@ == lowercase_of(userfriendly@),
                forall|j: int| 0 <= j < i ==> !actor_ending(#[trigger] self.actors@[j], userfriendly@, lax),
            decreases self.actors@.len() - i,
        {
            if let WrappedActors::Actor(w) = &self.actors[i] {
                if name_ends_exec(&w.actor.userfriendly, userfriendly, &lower_u, lax) {
                    assert(actor_ending(self.actors@[i as int], userfriendly@, lax));
                    return Ok(&w.actor);
                }
            }
            i = i + 1;
        }
        Err(ParserError)
    }

    /// The first plain actor whose user-friendly name is `userfriendly`; an error where there is none.
    pub fn get_actor_by_userfriendly(&self, userfriendly: &[u8]) -> (r: Result<&Actor, ParserError>)
        ensures
            match r {
                Ok(a) => exists|k: int| 0 <= k < self.actors@.len() && #[trigger] actor_named(self.actors@[k], userfriendly@)
                    && (self.actors@[k] matches WrappedActors::Actor(w) && *a == w.actor)
                    && forall|j: int| 0 <= j < k ==> !actor_named(#[trigger] self.actors@[j], userfriendly@),
                Err(_) => forall|k: int| 0 <= k < self.actors@.len() ==> !actor_named(#[trigger] self.actors@[k], userfriendly@),
            },
    {
        let mut i: usize = 0;
        while i < self.actors.len()
            invariant
                i <= self.actors@.len(),
                forall|j: int| 0 <= j < i ==> !actor_named(#[trigger] self.actors@[j], userfriendly@),
            decreases self.actors@.len() - i,
        {
            if let WrappedActors::Actor(w) = &self.actors[i] {
                if bytes_eq(w.actor.userfriendly.as_slice(), userfriendly) {
                    assert(actor_named(self.actors@[i as int], userfriendly@));
                    return Ok(&w.actor);
                }
            }
            i = i + 1;
        }
        Err(ParserError)
    }
}

} // verus!
