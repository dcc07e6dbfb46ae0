//! The types that describe what an actor file holds. Every `f32` of the
//! format is held as the bits of its IEEE 754 single-precision value; every
//! string as its UTF-8 bytes.
use vstd::prelude::*;
use crate::error::ParserError;
use crate::utils::{Color, InternedString, SplitPath};

verus! {

/// An actor: the path of its template and its components.
#[derive(Debug, Clone)]
pub struct Actor {
    pub lua: SplitPath,
    pub unk1: u32,
    pub unk2: u32,
    pub unk2_5: u32,
    pub unk3_5: u32,
    pub components: Vec<Component>,
}

/// One component of an actor, by the class of its template.
#[derive(Debug, Clone, PartialEq)]
pub enum Component {
    AutodanceComponent,
    BeatPulseComponent(BeatPulseComponent),
    BlockFlowComponent,
    BoxInterpolatorComponent(BoxInterpolatorComponent),
    CameraFeedComponent(CameraFeedComponent),
    CameraGraphicComponent(Box<CameraGraphicComponent>),
    Carousel(Carousel),
    ClearColorComponent(ClearColorComponent),
    ConvertedTmlTapeComponent(ConvertedTmlTapeComponent),
    CreditsComponent(CreditsComponent),
    FixedCameraComponent(FixedCameraComponent),
    FXControllerComponent(FXControllerComponent),
    GoldMoveComponent,
    MasterTape,
    MaterialGraphicComponent(MaterialGraphicComponent),
    PictoComponent,
    PictoTimeline(PictoTimeline),
    PleoComponent(PleoComponent),
    PleoTextureGraphicComponent(MaterialGraphicComponent),
    PropertyPatcher,
    RegistrationComponent(RegistrationComponent),
    SingleInstanceMesh3DComponent(Box<SingleInstanceMesh3DComponent>),
    SongDatabaseComponent,
    SongDescComponent,
    SoundComponent,
    TapeCaseComponent,
    TextureGraphicComponent(TextureGraphicComponent),
    TexturePatcherComponent(TexturePatcherComponent),
    UICarousel(UICarousel),
    UITextBox(UITextBox),
    UIWidgetGroupHUD(UIWidgetGroupHUD),
    UIWidgetGroupHUDAutodanceRecorder(UIWidgetGroupHUDAutodanceRecorder),
    UIWidgetGroupHUDLyrics(UIWidgetGroupHUDLyrics),
    UIWidgetGroupHUDPauseIcon(UIWidgetGroupHUDPauseIcon),
    Unknown77F7D66C(Unknown77F7D66C),
    UnknownA6E4EFBA(UnknownA6E4EFBA),
    Unknown2CB3C8E8(Unknown2CB3C8E8),
    UnknownA97634C7(UnknownA97634C7),
    Unknown8C76D717,
    ViewportUIComponent(ViewportUIComponent),
    AvatarDescComponent,
    SkinDescComponent,
    FxBankComponent,
    BezierTreeComponent,
    AFXPostProcessComponent,
}

/// The string id of the class name of each component's template.
pub open spec fn component_id(c: Component) -> u32 {
    match c {
        Component::AutodanceComponent => 0x67B8_BB77,
        Component::BeatPulseComponent(_) => 0x7184_37A8,
        Component::BlockFlowComponent => 0x8DA9_E375,
        Component::BoxInterpolatorComponent(_) => 0xF513_60DA,
        Component::CameraFeedComponent(_) => 0x499C_BAA4,
        Component::CameraGraphicComponent(_) => 0xC760_4FA1,
        Component::ClearColorComponent(_) => 0xAEBB_218B,
        Component::ConvertedTmlTapeComponent(_) => 0xCD07_BB76,
        Component::CreditsComponent(_) => 0x342E_A4FC,
        Component::FixedCameraComponent(_) => 0x3D5D_EBA2,
        Component::FXControllerComponent(_) => 0x8D4F_FFB6,
        Component::GoldMoveComponent => 0x5632_1EA5,
        Component::MasterTape => 0x677B_269B,
        Component::MaterialGraphicComponent(_) => 0x72B6_1FC5,
        Component::Carousel(_) => 0x27E4_80C0,
        Component::PictoComponent => 0xC316_BF34,
        Component::PictoTimeline(_) => 0xFA24_128D,
        Component::PleoComponent(_) => 0x1263_DAD9,
        Component::PleoTextureGraphicComponent(_) => 0x0579_E81B,
        Component::PropertyPatcher => 0xF719_B524,
        Component::RegistrationComponent(_) => 0xE0A2_4B6D,
        Component::SingleInstanceMesh3DComponent(_) => 0x53E3_2AF7,
        Component::SongDatabaseComponent => 0x4055_79FB,
        Component::SongDescComponent => 0xE07F_CC3F,
        Component::SoundComponent => 0x7DD8_643C,
        Component::TapeCaseComponent => 0x231F_27DE,
        Component::TextureGraphicComponent(_) => 0x7B48_A9AE,
        Component::TexturePatcherComponent(_) => 0x6F32_8BC1,
        Component::UICarousel(_) => 0x8782_FE60,
        Component::UITextBox(_) => 0xD10C_BEED,
        Component::UIWidgetGroupHUD(_) => 0x1528_D94A,
        Component::UIWidgetGroupHUDAutodanceRecorder(_) => 0x9F87_350C,
        Component::UIWidgetGroupHUDLyrics(_) => 0xF22C_9426,
        Component::UIWidgetGroupHUDPauseIcon(_) => 0x4866_6BB2,
        Component::Unknown77F7D66C(_) => 0x77F7_D66C,
        Component::UnknownA6E4EFBA(_) => 0xA6E4_EFBA,
        Component::Unknown2CB3C8E8(_) => 0x2CB3_C8E8,
        Component::UnknownA97634C7(_) => 0xA976_34C7,
        Component::Unknown8C76D717 => 0x8C76_D717,
        Component::ViewportUIComponent(_) => 0x6990_834C,
        Component::AvatarDescComponent => 0x1759_E29D,
        Component::SkinDescComponent => 0x84EA_AE82,
        Component::FxBankComponent => 0x966B_519D,
        Component::BezierTreeComponent => 0x3236_CF4C,
        Component::AFXPostProcessComponent => 0x2B34_9E69,
    }
}

impl Component {
    /// The string id of the class name of this component's template.
    pub fn to_id(&self) -> (r: u32)
        ensures
            r == component_id(*self),
    {
        match self {
            Component::AutodanceComponent => 0x67B8_BB77,
            Component::BeatPulseComponent(_) => 0x7184_37A8,
            Component::BlockFlowComponent => 0x8DA9_E375,
            Component::BoxInterpolatorComponent(_) => 0xF513_60DA,
            Component::CameraFeedComponent(_) => 0x499C_BAA4,
            Component::CameraGraphicComponent(_) => 0xC760_4FA1,
            Component::ClearColorComponent(_) => 0xAEBB_218B,
            Component::ConvertedTmlTapeComponent(_) => 0xCD07_BB76,
            Component::CreditsComponent(_) => 0x342E_A4FC,
            Component::FixedCameraComponent(_) => 0x3D5D_EBA2,
            Component::FXControllerComponent(_) => 0x8D4F_FFB6,
            Component::GoldMoveComponent => 0x5632_1EA5,
            Component::MasterTape => 0x677B_269B,
            Component::MaterialGraphicComponent(_) => 0x72B6_1FC5,
            Component::Carousel(_) => 0x27E4_80C0,
            Component::PictoComponent => 0xC316_BF34,
            Component::PictoTimeline(_) => 0xFA24_128D,
            Component::PleoComponent(_) => 0x1263_DAD9,
            Component::PleoTextureGraphicComponent(_) => 0x0579_E81B,
            Component::PropertyPatcher => 0xF719_B524,
            Component::RegistrationComponent(_) => 0xE0A2_4B6D,
            Component::SingleInstanceMesh3DComponent(_) => 0x53E3_2AF7,
            Component::SongDatabaseComponent => 0x4055_79FB,
            Component::SongDescComponent => 0xE07F_CC3F,
            Component::SoundComponent => 0x7DD8_643C,
            Component::TapeCaseComponent => 0x231F_27DE,
            Component::TextureGraphicComponent(_) => 0x7B48_A9AE,
            Component::TexturePatcherComponent(_) => 0x6F32_8BC1,
            Component::UICarousel(_) => 0x8782_FE60,
            Component::UITextBox(_) => 0xD10C_BEED,
            Component::UIWidgetGroupHUD(_) => 0x1528_D94A,
            Component::UIWidgetGroupHUDAutodanceRecorder(_) => 0x9F87_350C,
            Component::UIWidgetGroupHUDLyrics(_) => 0xF22C_9426,
            Component::UIWidgetGroupHUDPauseIcon(_) => 0x4866_6BB2,
            Component::Unknown77F7D66C(_) => 0x77F7_D66C,
            Component::UnknownA6E4EFBA(_) => 0xA6E4_EFBA,
            Component::Unknown2CB3C8E8(_) => 0x2CB3_C8E8,
            Component::UnknownA97634C7(_) => 0xA976_34C7,
            Component::Unknown8C76D717 => 0x8C76_D717,
            Component::ViewportUIComponent(_) => 0x6990_834C,
            Component::AvatarDescComponent => 0x1759_E29D,
            Component::SkinDescComponent => 0x84EA_AE82,
            Component::FxBankComponent => 0x966B_519D,
            Component::BezierTreeComponent => 0x3236_CF4C,
            Component::AFXPostProcessComponent => 0x2B34_9E69,
        }
    }

    /// The material graphic component that this component is; an error for any other component.
    pub fn material_graphic_component(&self) -> (r: Result<&MaterialGraphicComponent, ParserError>)
        ensures
            match *self {
                Component::MaterialGraphicComponent(m) => r == Ok::<&MaterialGraphicComponent, ParserError>(&m),
                _ => r is Err,
            },
    {
        match self {
            Component::MaterialGraphicComponent(mgc) => Ok(mgc),
            _ => Err(ParserError),
        }
    }
}

/// An axis-aligned box: its minimum and maximum corners.
#[derive(Debug, Clone, Copy, PartialEq, Eq)]
pub struct AaBb {
    pub min: [u32; 2],
    pub max: [u32; 2],
}

#[derive(Debug, Clone, PartialEq, Eq)]
pub struct BeatPulseComponent {
    pub text: Vec<u8>,
    pub loc_id: u32,
    pub model_name: InternedString,
    pub flag: Vec<u8>,
    pub elements: Vec<UIWidgetElementDesc>,
}

#[derive(Debug, Clone, Copy, PartialEq, Eq)]
pub struct BoxInterpolatorComponent {
    pub inner_box: AaBb,
    pub outer_box: AaBb,
}

#[derive(Debug, Clone, Copy, PartialEq, Eq, Structural)]
pub struct CameraFeedComponent;

#[derive(Debug, Clone, PartialEq, Eq)]
pub struct CameraGraphicComponent {
    pub primitive_parameters: GFXPrimitiveParam,
    pub color_computer_tag_id: u32,
    pub render_in_target: u32,
    pub disable_light: u32,
    pub disable_shadow: u32,
    pub atlas_index: u32,
    pub custom_anchor: [u32; 2],
    pub sinus_amplitude: [u32; 3],
    pub sinus_speed: u32,
    pub angle_x: u32,
    pub angle_y: u32,
    pub anchor: u32,
    pub old_anchor: u32,
    pub material: GFXMaterialSerializable,
}

#[derive(Debug, Clone, PartialEq, Eq)]
pub struct Carousel {
    pub main_anchor: u32,
    pub validate_action: InternedString,
    pub carousel_data_id: Vec<u8>,
    pub manage_carousel_history: u32,
    pub switch_speed: u32,
    pub shortcuts_config_default: Vec<u8>,
    pub shortcuts_config_switch: Vec<u8>,
    pub shortcuts_config_ps4: Vec<u8>,
    pub shortcuts_config_xb1: Vec<u8>,
    pub shortcuts_config_pc: Vec<u8>,
    pub shortcuts_config_ggp: Vec<u8>,
    pub shortcuts_config_prospero: Option<Vec<u8>>,
    pub shortcuts_config_scarlett: Option<Vec<u8>>,
    pub shortcuts_from_center_instead_from_left: u32,
    pub initial_behaviour: InternedString,
    pub sound_context: Vec<u8>,
    pub behaviours: Vec<CarouselBehaviour>,
    pub anim_items_desc: CarouselAnimItemsDesc,
}

#[derive(Debug, Clone, Copy, PartialEq, Eq, Structural)]
pub struct CarouselAnimItemsDesc {
    pub enable: u32,
    pub show_items_at_init: u32,
    pub enable_carousel_on_anim_ends: u32,
    pub check_items_visibility_on_anim_ends: u32,
}

#[derive(Debug, Clone, PartialEq, Eq)]
pub enum CarouselBehaviour {
    Navigation(CarouselBehaviourNavigation),
    GoToElement(CarouselBehaviourGoToElement),
}

#[derive(Debug, Clone, PartialEq, Eq)]
pub struct CarouselBehaviourNavigation {
    pub key: InternedString,
    pub sound_context: Vec<u8>,
    pub sound_notif_go_next: Vec<u8>,
    pub sound_notif_go_prev: Vec<u8>,
    pub stop_conditions: Vec<StopCondition>,
    pub decel_tape_label: InternedString,
    pub scroll_mode: u32,
    pub time_between_steps: u32,
    pub next_actions: Vec<InternedString>,
    pub prev_actions: Vec<InternedString>,
}

#[derive(Debug, Clone, PartialEq, Eq)]
pub struct CarouselBehaviourGoToElement {
    pub key: InternedString,
    pub sound_context: Vec<u8>,
    pub sound_notif_go_next: Vec<u8>,
    pub sound_notif_go_prev: Vec<u8>,
    pub stop_conditions: Vec<StopCondition>,
    pub decel_tape_label: InternedString,
    pub scroll_mode: u32,
    pub time_between_steps: u32,
}

#[derive(Debug, Clone, Copy, PartialEq, Eq)]
pub struct ClearColorComponent {
    pub clear_color: Color,
    pub clear_front_light_color: Color,
    pub clear_back_light_color: Color,
}

#[derive(Debug, Clone, PartialEq, Eq)]
pub struct ConvertedTmlTapeComponent {
    pub map_name: Vec<u8>,
}

#[derive(Debug, Clone, PartialEq, Eq)]
pub struct CreditsComponent {
    pub lines_number: u32,
    pub name_font_size: u32,
    pub title_font_size: u32,
    pub big_title_font_size: u32,
    pub very_big_title_font_size: u32,
    pub anim_duration: u32,
    pub lines_pos_offset: u32,
    pub min_anim_duration: Option<u32>,
    pub speed_steps: Option<u32>,
    pub bottom_spawn_y: Option<u32>,
    pub top_spawn_y: Option<u32>,
    pub credits_lines: Vec<Vec<u8>>,
}

#[derive(Debug, Clone, Copy, PartialEq, Eq)]
pub struct FixedCameraComponent {
    pub remote: u32,
    pub offset: [u32; 3],
    pub start_as_main_cam: u32,
}

#[derive(Debug, Clone, Copy, PartialEq, Eq, Structural)]
pub struct FXControllerComponent {
    pub allow_bus_mix_events: u32,
    pub allow_music_events: u32,
}

#[derive(Debug, Clone, PartialEq, Eq)]
pub struct GFXMaterialSerializable {
    pub atl_channel: u32,
    pub atl_path: SplitPath,
    pub shader_path: SplitPath,
    pub stencil_test: u32,
    pub alpha_test: u32,
    pub alpha_ref: u32,
    pub texture_set: GFXMaterialTexturePathSet,
    pub material_params: GFXMaterialSerializableParam,
}

#[derive(Debug, Clone, Copy, PartialEq, Eq, Structural)]
pub struct GFXMaterialSerializableParam {
    pub reflector_factor: u32,
}

#[derive(Debug, Clone, PartialEq, Eq)]
pub struct GFXMaterialTexturePathSet {
    pub diffuse: SplitPath,
    pub back_light: SplitPath,
    pub normal: SplitPath,
    pub separate_alpha: SplitPath,
    pub diffuse_2: SplitPath,
    pub back_light_2: SplitPath,
    pub anim_impostor: SplitPath,
    pub diffuse_3: SplitPath,
    pub diffuse_4: SplitPath,
}

#[derive(Debug, Clone, Copy, PartialEq, Eq)]
pub struct GFXPrimitiveParam {
    pub color_factor: Color,
    pub gfx_occlude_info: u32,
}

/// Data for textures: eleven paths (diffuse, back light, normal, separate
/// alpha, diffuse 2, back light 2, anim impostor, diffuse 3, diffuse 4, ATL
/// path, shader path) and the values that place the texture.
#[derive(Debug, Clone, PartialEq, Eq)]
pub struct MaterialGraphicComponent {
    pub files: [SplitPath; 11],
    pub unk4: u32,
    pub unk9: u32,
    /// 6 for a texture with a coach, 1 for one without
    pub anchor: i32,
    pub unk11: u32,
    pub unk12: u32,
    pub old_anchor: i32,
}

impl Default for MaterialGraphicComponent {
    /// Empty paths, `unk4` 1.0, `unk9` `u32::MAX`, anchors 1 and the other values 0.0.
    fn default() -> (r: MaterialGraphicComponent)
        ensures
            forall|i: int| 0 <= i < 11 ==> (#[trigger] r.files[i]).path@.len() == 0
                && r.files[i].filename@.len() == 0 && r.files[i].id == 0xFFFF_FFFF,
            r.unk4 == 0x3F80_0000,
            r.unk9 == 0xFFFF_FFFF,
            r.anchor == 1,
            r.unk11 == 0,
            r.unk12 == 0,
            r.old_anchor == 1,
    {
        MaterialGraphicComponent {
            files: [
                SplitPath::default(),
                SplitPath::default(),
                SplitPath::default(),
                SplitPath::default(),
                SplitPath::default(),
                SplitPath::default(),
                SplitPath::default(),
                SplitPath::default(),
                SplitPath::default(),
                SplitPath::default(),
                SplitPath::default(),
            ],
            unk4: 0x3F80_0000,
            unk9: 0xFFFF_FFFF,
            anchor: 1,
            unk11: 0,
            unk12: 0,
            old_anchor: 1,
        }
    }
}

#[derive(Debug, Clone, PartialEq, Eq)]
pub struct PictoTimeline {
    pub text: Vec<u8>,
    pub loc_id: u32,
    pub model_name: InternedString,
    pub flag: Vec<u8>,
    pub relative_start_position_solo: [u32; 3],
    pub relative_start_position_duo: [u32; 3],
    pub relative_start_position_trio: [u32; 3],
    pub relative_start_position_quatro: [u32; 3],
    pub relative_start_position_sextet: [u32; 3],
    pub shifting_position_solo: [u32; 3],
    pub shifting_position_duo: [u32; 3],
    pub shifting_position_trio: [u32; 3],
    pub shifting_position_quatro: [u32; 3],
    pub shifting_position_sextet: [u32; 3],
    pub picto_track_offset: u32,
    pub picto_scale: [u32; 2],
}

/// The data for the main video player.
#[derive(Debug, Clone, PartialEq, Eq)]
pub struct PleoComponent {
    /// The file name of the video to play
    pub video: SplitPath,
    /// The manifest of the video
    pub dash_mpd: SplitPath,
    /// The channel, empty where there is none
    pub channel_id: Vec<u8>,
}

#[derive(Debug, Clone, PartialEq, Eq)]
pub struct RegistrationComponent {
    pub tag: InternedString,
    pub user_data: Vec<u8>,
}

#[derive(Debug, Clone, PartialEq, Eq)]
pub struct SingleInstanceMesh3DComponent {
    pub color_computer_tag_id: u32,
    pub render_in_target: u32,
    pub disable_light: u32,
    pub disable_shadow: u32,
    pub scale_z: u32,
    pub mesh_3d: SplitPath,
    pub skeleton_3d: SplitPath,
    pub animation_3d: SplitPath,
    pub animation_node: SplitPath,
    pub orientation: [Color; 4],
    pub primitive_parameters: GFXPrimitiveParam,
    pub material: GFXMaterialSerializable,
    pub animation_player_mode: u32,
}

#[derive(Debug, Clone, Copy, PartialEq, Eq, Structural)]
pub struct SoundComponent;

#[derive(Debug, Clone, Copy, PartialEq, Eq)]
pub struct StopCondition {
    pub waiting_time: u32,
    pub count_to_reach: u32,
    pub next_behaviour: InternedString,
    pub condition: u32,
    pub anim_state: u32,
}

#[derive(Debug, Clone, PartialEq, Eq)]
pub struct TextureGraphicComponent {
    pub primitive_parameters: GFXPrimitiveParam,
    pub color_computer_tag_id: u32,
    pub render_in_target: u32,
    pub disable_light: u32,
    pub disable_shadow: u32,
    pub sprite_index: u32,
    pub anchor: u32,
    pub material: GFXMaterialSerializable,
}

#[derive(Debug, Clone, PartialEq, Eq)]
pub struct TexturePatcherComponent {
    pub unk1: SplitPath,
    pub unk2: SplitPath,
}

/// A carousel of the user interface, in the shape of the game it comes from.
#[derive(Debug, Clone, PartialEq, Eq)]
pub enum UICarousel {
    V16(UICarouselV16),
    V1718(UICarouselV1718),
    V1922(UICarouselV1922),
}

/// A carousel as Just Dance 2016 has it.
#[derive(Debug, Clone, PartialEq, Eq)]
pub struct UICarouselV16 {
    pub acceleration: u32,
    pub deceleration: u32,
    pub min_speed: u32,
    pub max_speed: u32,
    pub main_anchor: u32,
    pub min_deceleration_start_ratio: u32,
    pub max_deceleration_start_ratio: u32,
    pub validate_action: InternedString,
    pub carousel_data_id: Vec<u8>,
    pub time_between_step: u32,
    pub sound_notif_go_next: Vec<u8>,
    pub sound_notif_go_prev: Vec<u8>,
    pub force_loop: u32,
    pub focus_anims_on_disabled_items: u32,
    pub manage_carousel_history: u32,
    pub min_nb_items_to_loop: u32,
    pub auto_scroll: u32,
    pub auto_scroll_pause_time: u32,
    pub auto_scroll_max_speed_ratio: u32,
    pub sound_context: Vec<u8>,
    pub mode: i32,
    pub next_actions: Vec<InternedString>,
    pub prev_actions: Vec<InternedString>,
    pub anim_items_desc: CarouselAnimItemsDesc,
}

/// A carousel as Just Dance 2017 and 2018 have it.
#[derive(Debug, Clone, PartialEq, Eq)]
pub struct UICarouselV1718 {
    pub main_anchor: u32,
    pub validate_action: InternedString,
    pub carousel_data_id: Vec<u8>,
    pub force_loop: u32,
    pub manage_carousel_history: u32,
    pub min_nb_items_to_loop: u32,
    pub initial_behaviour: InternedString,
    pub sound_context: Vec<u8>,
    pub behaviours: Vec<CarouselBehaviour>,
    pub anim_items_desc: CarouselAnimItemsDesc,
}

/// A carousel as Just Dance 2019 to 2022 have it.
#[derive(Debug, Clone, PartialEq, Eq)]
pub struct UICarouselV1922 {
    pub main_anchor: u32,
    pub validate_action: InternedString,
    pub carousel_data_id: Vec<u8>,
    pub manage_carousel_history: u32,
    pub initial_behaviour: InternedString,
    pub sound_context: Vec<u8>,
    pub behaviours: Vec<CarouselBehaviour>,
    pub anim_items_desc: CarouselAnimItemsDesc,
}

#[derive(Debug, Clone, PartialEq, Eq)]
pub struct UITextBox {
    pub style: u32,
    pub overriding_font_size: u32,
    pub offset: [u32; 2],
    pub scale: [u32; 2],
    pub alpha: u32,
    pub max_width: u32,
    pub max_height: u32,
    pub area: [u32; 2],
    pub raw_text: Vec<u8>,
    pub use_lines_max_count: u32,
    pub lines_max_count: u32,
    pub loc_id: u32,
    pub auto_scroll_speed: u32,
    pub auto_scroll_speed_y: u32,
    pub auto_scroll_wait_time: u32,
    pub auto_scroll_wait_time_y: u32,
    pub auto_scroll_font_effect_name: Vec<u8>,
    pub auto_scroll_reset_on_inactive: u32,
    pub scroll_once: u32,
    pub overriding_shadow_color: [u32; 4],
    pub overriding_shadow_offset: [u32; 2],
    pub overriding_line_spacing: u32,
    pub overriding_font_size_min: u32,
    pub ending_dots: u32,
    /// Not in 2019 and earlier
    pub colorize_icons: Option<u32>,
    pub overriding_anchor: i32,
}

#[derive(Debug, Clone, PartialEq, Eq)]
pub struct UIWidgetElementDesc {
    pub element_path: SplitPath,
    pub name: Vec<u8>,
    pub flag: Vec<u8>,
    pub parent_index: i32,
    pub bind_mode: u32,
}

#[derive(Debug, Clone, PartialEq, Eq)]
pub struct UIWidgetGroupHUD {
    pub text: Vec<u8>,
    pub loc_id: u32,
    pub model_name: InternedString,
    pub flag: Vec<u8>,
    pub elements: Vec<UIWidgetElementDesc>,
}

#[derive(Debug, Clone, PartialEq, Eq)]
pub struct UIWidgetGroupHUDAutodanceRecorder {
    pub text: Vec<u8>,
    pub loc_id: u32,
    pub model_name: InternedString,
    pub flag: Vec<u8>,
    pub icon_default_position: [u32; 3],
    pub icon_relative_start_position_solo: [u32; 3],
    pub icon_relative_start_position_duo: [u32; 3],
    pub icon_relative_start_position_trio: [u32; 3],
    pub icon_relative_start_position_quatro: [u32; 3],
    pub icon_relative_start_position_sextet: [u32; 3],
    pub icon_shifting_position_solo: [u32; 3],
    pub icon_shifting_position_duo: [u32; 3],
    pub icon_shifting_position_trio: [u32; 3],
    pub icon_shifting_position_quatro: [u32; 3],
    pub icon_shifting_position_sextet: [u32; 3],
    pub elements: Vec<UIWidgetElementDesc>,
}

#[derive(Debug, Clone, PartialEq, Eq)]
pub struct UIWidgetGroupHUDLyrics {
    pub text: Vec<u8>,
    pub loc_id: u32,
    pub model_name: InternedString,
    pub flag: Vec<u8>,
    pub elements: Vec<UIWidgetElementDesc>,
}

#[derive(Debug, Clone, PartialEq, Eq)]
pub struct UIWidgetGroupHUDPauseIcon {
    pub text: Vec<u8>,
    pub loc_id: u32,
    pub model_name: InternedString,
    pub flag: Vec<u8>,
    pub elements: Vec<UIWidgetElementDesc>,
}

#[derive(Debug, Clone, PartialEq, Eq)]
pub struct Unknown77F7D66C {
    pub map_name: Vec<u8>,
    pub jd_version: u32,
    pub unk2: u32,
    pub unk3: Vec<u8>,
    pub unk4: u32,
}

#[derive(Debug, Clone, Copy, PartialEq, Eq, Structural)]
pub struct UnknownA6E4EFBA;

#[derive(Debug, Clone, Copy, PartialEq, Eq, Structural)]
pub struct Unknown2CB3C8E8;

#[derive(Debug, Clone, Copy, PartialEq, Eq, Structural)]
pub struct UnknownA97634C7;

#[derive(Debug, Clone, Copy, PartialEq, Eq)]
pub struct ViewportUIComponent {
    pub active: u32,
    pub focale: u32,
    pub far_plane: u32,
    pub position: [u32; 2],
    pub size: [u32; 2],
    pub view_mask: u32,
}

} // verus!
