//! Components of the user interface that only the XML scenes hold. Every
//! string is held as its UTF-8 bytes.
use vstd::prelude::*;
use super::types::Enum;

verus! {

/// A text field of the user interface.
#[derive(Debug, Clone)]
pub struct UIItemTextField {
    pub is_password: bool,
    pub dialog_max_char: u32,
    pub dialog_name_raw: Vec<u8>,
    pub dialog_name_loc: u32,
    pub enums: Vec<Enum>,
}

/// A binding of a key to a value.
#[derive(Debug, Clone)]
pub struct DataBindings {
    pub key: Vec<u8>,
    pub value: Vec<u8>,
}

/// One line of the credits.
#[derive(Debug, Clone)]
pub struct CreditsLine {
    pub value: Vec<u8>,
}

/// A component that spawns a scene.
#[derive(Debug, Clone)]
pub struct SceneSpawnerComponent {
    pub editor_scene_path: Vec<u8>,
}

/// The presentation of a World Dance Floor theme.
#[derive(Debug, Clone)]
pub struct WDFThemePresentationComponent {
    pub sound_context: Vec<u8>,
}

/// The presentation of a World Dance Floor team battle.
#[derive(Debug, Clone)]
pub struct WDFTeamBattlePresentationComponent {
    pub sound_context: Vec<u8>,
}

/// The spawner of a World Dance Floor boss.
#[derive(Debug, Clone)]
pub struct WDFBossSpawnerComponent {
    pub editor_only: bool,
    pub editor_boss_id: Vec<u8>,
}

/// The transition of a World Dance Floor team battle.
#[derive(Debug, Clone)]
pub struct WDFTeamBattleTransitionComponent {
    pub sound_context: Vec<u8>,
}

/// A slot of the user interface.
#[derive(Debug, Clone, Copy)]
pub struct UIItemSlot {
    pub slot: u32,
}

/// The sweat counter of the heads-up display.
#[derive(Debug, Clone)]
pub struct UIHudSweatCounter {
    pub enums: Vec<Enum>,
}

/// A player of the versus mode on the heads-up display.
#[derive(Debug, Clone)]
pub struct UIHudVersusPlayerComponent {
    pub enums: Vec<Enum>,
}

/// A set of 3D animations, which holds nothing.
#[derive(Debug, Clone, Copy)]
pub struct Animation3DSet {
    pub animation_3d_set: (),
}

/// A control of the user interface and where the directional pad leads from it.
#[derive(Debug, Clone)]
pub struct UIControl {
    pub is_dpad_sensitive: bool,
    pub is_cursor_sensitive: bool,
    pub validate_action: Vec<u8>,
    pub cursor_dpad_left: Vec<u8>,
    pub cursor_dpad_right: Vec<u8>,
    pub cursor_dpad_up: Vec<u8>,
    pub cursor_dpad_down: Vec<u8>,
}

/// A control of the user interface that changes the page.
#[derive(Debug, Clone)]
pub struct UIChangePage {
    pub is_dpad_sensitive: bool,
    pub is_cursor_sensitive: bool,
    pub validate_action: Vec<u8>,
    pub cursor_dpad_left: Vec<u8>,
    pub cursor_dpad_right: Vec<u8>,
    pub cursor_dpad_up: Vec<u8>,
    pub cursor_dpad_down: Vec<u8>,
    pub destination: Vec<u8>,
    pub is_back: bool,
}

/// What the phone controller shows.
#[derive(Debug, Clone)]
pub struct UIPhoneData {
    pub phone_loc_id: u32,
    pub phone_image: Vec<u8>,
}

/// A post-processing effect.
#[derive(Debug, Clone, Copy)]
pub struct AFXPostProcessComponent {
    pub blur: Blur,
}

/// A blur effect.
#[derive(Debug, Clone, Copy)]
pub struct Blur {
    pub afx_blur_param: AFXBlurParam,
}

/// The parameters of a blur effect.
#[derive(Debug, Clone, Copy)]
pub struct AFXBlurParam {
    pub to_use: bool,
    pub pixel_size: u32,
    pub quality: u32,
}

/// A screen of the user interface.
#[derive(Debug, Clone)]
pub struct UIScreenComponent {
    pub sound_context: Vec<u8>,
    pub allow_dpad_navigation: bool,
    pub shortcuts_config_default: Option<Vec<u8>>,
    pub shortcuts_config_switch: Option<Vec<u8>>,
    pub shortcuts_config_ps4: Option<Vec<u8>>,
    pub shortcuts_config_xb1: Option<Vec<u8>>,
    pub shortcuts_config_pc: Option<Vec<u8>>,
    pub shortcuts_config_ggp: Option<Vec<u8>>,
    pub shortcuts_config_prospero: Option<Vec<u8>>,
    pub shortcuts_config_scarlett: Option<Vec<u8>>,
    pub shortcuts_from_center_instead_from_left: Option<bool>,
    pub shortcuts_horizontal_shift: Option<i32>,
    pub shortcuts: Option<Vec<u8>>,
    pub shortcut_shift: Option<u32>,
    pub enums: Vec<Enum>,
    pub phone_setup_ui_data: PhoneSetupUIData,
}

/// The phone controller's setup for a screen.
#[derive(Debug, Clone)]
pub struct PhoneSetupUIData {
    pub phone_setup_data: PhoneSetupData,
}

/// The phone controller's setup: whether it is a popup, whether it shows actions, and its bindings.
#[derive(Debug, Clone)]
pub struct PhoneSetupData {
    pub is_popup: bool,
    pub has_visible_actions: bool,
    pub enums: Vec<Enum>,
    pub user_friendly_bindings: Vec<UserFriendlyBindings>,
}

/// The name of an actor bound to the phone controller.
#[derive(Debug, Clone)]
pub struct UserFriendlyBindings {
    pub value: Vec<u8>,
}

/// How the items of a browser or a carousel are animated.
#[derive(Debug, Clone)]
pub struct WrappedAnimItemsDesc {
    pub inner: AnimItemsDesc,
}

/// How the items of a browser or a carousel are animated.
#[derive(Debug, Clone)]
pub enum AnimItemsDesc {
    Browser(BrowserAnimItemsDesc),
    Carousel(CarouselAnimItemsDesc),
}

/// How the items of a browser are animated.
#[derive(Debug, Clone, Copy)]
pub struct WrappedBrowserAnimItemsDesc {
    pub browser: BrowserAnimItemsDesc,
}

/// How the items of a browser are animated.
#[derive(Debug, Clone, Copy)]
pub struct BrowserAnimItemsDesc {
    pub enable: bool,
    pub show_items_at_init: bool,
    pub enable_browser_on_anim_ends: bool,
    pub check_items_visibility_on_anim_ends: bool,
}

/// How the items of a carousel are animated.
#[derive(Debug, Clone)]
pub struct WrappedCarouselAnimItemsDesc {
    pub browser: CarouselAnimItemsDesc,
}

/// How the items of a carousel are animated, and the animations they wait for.
#[derive(Debug, Clone)]
pub struct CarouselAnimItemsDesc {
    pub enable: bool,
    pub show_items_at_init: bool,
    pub enable_carousel_on_anim_ends: bool,
    pub check_items_visibility_on_anim_ends: bool,
    pub anims_to_listen: Vec<AnimsToListen>,
}

/// An animation that a carousel waits for.
#[derive(Debug, Clone)]
pub struct AnimsToListen {
    pub val: Vec<u8>,
}

/// Where an element of the user interface is anchored.
#[derive(Debug, Clone, Copy)]
pub struct UIAnchor {
    pub anchor_idx: u32,
}

/// A controller of sound effects.
#[derive(Debug, Clone, Copy)]
pub struct FXControllerComponent {
    pub allow_bus_mix_events: bool,
    pub allow_music_events: bool,
}

/// A component that replaces the textures of an actor.
#[derive(Debug, Clone)]
pub struct TexturePatcherComponent {
    pub diffuse_1: Vec<u8>,
    pub diffuse_2: Vec<u8>,
    pub diffuse_3: Vec<u8>,
    pub diffuse_4: Vec<u8>,
}

/// A post-processing effect, as a scene holds it.
#[derive(Debug, Clone, Copy)]
pub struct WrappedAFXPostProcessComponent {
    pub afxpost_process_component: AFXPostProcessComponent,
}

/// The transition of a World Dance Floor team battle, as a scene holds it.
#[derive(Debug, Clone)]
pub struct WrappedWDFTeamBattleTransitionComponent {
    pub wdf_team_battle_transition_component: WDFTeamBattleTransitionComponent,
}

/// A text field, as a scene holds it.
#[derive(Debug, Clone)]
pub struct WrappedUIItemTextField {
    pub ui_item_text_field: UIItemTextField,
}

/// A controller of sound effects, as a scene holds it.
#[derive(Debug, Clone, Copy)]
pub struct WrappedFXControllerComponent {
    pub fx_controller_component: FXControllerComponent,
}

/// A scene spawner, as a scene holds it.
#[derive(Debug, Clone)]
pub struct WrappedSceneSpawnerComponent {
    pub scene_spawner_component: SceneSpawnerComponent,
}

/// A texture patcher, as a scene holds it.
#[derive(Debug, Clone)]
pub struct WrappedTexturePatcherComponent {
    pub texture_patcher_component: TexturePatcherComponent,
}

/// An anchor, as a scene holds it.
#[derive(Debug, Clone, Copy)]
pub struct WrappedUIAnchor {
    pub ui_anchor: UIAnchor,
}

/// A page change control, as a scene holds it.
#[derive(Debug, Clone)]
pub struct WrappedUIChangePage {
    pub ui_change_page: UIChangePage,
}

/// A control, as a scene holds it.
#[derive(Debug, Clone)]
pub struct WrappedUIControl {
    pub ui_control: UIControl,
}

/// A sweat counter, as a scene holds it.
#[derive(Debug, Clone)]
pub struct WrappedUIHudSweatCounter {
    pub ui_hud_sweat_counter: UIHudSweatCounter,
}

/// A versus player, as a scene holds it.
#[derive(Debug, Clone)]
pub struct WrappedUIHudVersusPlayerComponent {
    pub ui_hud_versus_player_component: UIHudVersusPlayerComponent,
}

/// What the phone controller shows, as a scene holds it.
#[derive(Debug, Clone)]
pub struct WrappedUIPhoneData {
    pub ui_phone_data: UIPhoneData,
}

/// A screen, as a scene holds it.
#[derive(Debug, Clone)]
pub struct WrappedUIScreenComponent {
    pub ui_screen_component: UIScreenComponent,
}

/// A boss spawner, as a scene holds it.
#[derive(Debug, Clone)]
pub struct WrappedWDFBossSpawnerComponent {
    pub wdf_boss_spawner_component: WDFBossSpawnerComponent,
}

/// A team battle presentation, as a scene holds it.
#[derive(Debug, Clone)]
pub struct WrappedWDFTeamBattlePresentationComponent {
    pub wdf_team_battle_presentation_component: WDFTeamBattlePresentationComponent,
}

/// A theme presentation, as a scene holds it.
#[derive(Debug, Clone)]
pub struct WrappedWDFThemePresentationComponent {
    pub wdf_theme_presentation_component: WDFThemePresentationComponent,
}

/// A slot, as a scene holds it.
#[derive(Debug, Clone, Copy)]
pub struct WrappedUIItemSlot {
    pub ui_item_slot: UIItemSlot,
}

} // verus!
