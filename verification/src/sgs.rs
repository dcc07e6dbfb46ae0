//! Scene settings (`.sgs.ckd`) files: JSON between an `S` and a zero byte.
//! The library checks and builds the framing and holds the settings; the
//! JSON text itself is read and written by the application.
use vstd::prelude::*;
use crate::bytes::push_bytes;
use crate::error::{ParserError, ReadError};
use vstd::slice::slice_subrange;

verus! {

/// The bytes of a scene settings file that hold the JSON `json`.
pub open spec fn sgs_frame(json: Seq<u8>) -> Seq<u8> {
    seq![0x53u8] + json + seq![0u8]
}

/// The JSON of a scene settings file: the buffer without its leading `S` and
/// its trailing zero; an error where the buffer does not start with `S` or end with zero.
pub fn clean_buffer_sgs(buffer: &[u8]) -> (r: Result<&[u8], ReadError>)
    requires
        buffer@.len() >= 1,
    ensures
        match r {
            Ok(json) => buffer@[0] == 0x53 && buffer@.last() == 0 && buffer@.len() >= 2
                && json@ == buffer@.subrange(1, buffer@.len() - 1),
            Err(_) => buffer@[0] != 0x53 || buffer@.last() != 0 || buffer@.len() < 2,
        },
{
    let n = buffer.len();
    if buffer[0] != 0x53 || buffer[n - 1] != 0 || n < 2 {
        return Err(ReadError);
    }
    Ok(slice_subrange(buffer, 1, n - 1))
}

/// Frames the JSON `json` as a scene settings file: an `S`, the JSON, and a zero byte.
pub fn create_vec(json: &[u8]) -> (r: Vec<u8>)
    ensures
        r@ == sgs_frame(json@),
{
    let mut v: Vec<u8> = Vec::new();
    v.push(0x53);
    push_bytes(&mut v, json);
    v.push(0);
    assert(v@ =~= sgs_frame(json@));
    v
}

/// Unframing a framed JSON gives the JSON back.
pub proof fn lemma_sgs_frame_roundtrip(json: Seq<u8>)
    ensures
        sgs_frame(json).len() >= 2,
        sgs_frame(json)[0] == 0x53,
        sgs_frame(json).last() == 0,
        sgs_frame(json).subrange(1, sgs_frame(json).len() - 1) == json,
{
    assert(sgs_frame(json).subrange(1, sgs_frame(json).len() - 1) =~= json);
}

// ---------------------------------------------------------------- settings

/// The settings a scene settings file holds: the settings of one scene, or
/// the configuration manager that holds them by key.
#[derive(Debug)]
pub enum Sgs {
    SceneSettings(SceneSettings),
    SceneConfigManager(SceneConfigManager),
}

impl Sgs {
    /// The settings of one scene; an error for a configuration manager.
    pub fn into_scene_settings(self) -> (r: Result<SceneSettings, ParserError>)
        ensures
            match self {
                Sgs::SceneSettings(s) => r == Ok::<SceneSettings, ParserError>(s),
                Sgs::SceneConfigManager(_) => r is Err,
            },
    {
        match self {
            Sgs::SceneSettings(s) => Ok(s),
            Sgs::SceneConfigManager(_) => Err(ParserError),
        }
    }

    /// The configuration manager; an error for the settings of one scene.
    pub fn into_scene_config_manager(self) -> (r: Result<SceneConfigManager, ParserError>)
        ensures
            match self {
                Sgs::SceneConfigManager(m) => r == Ok::<SceneConfigManager, ParserError>(m),
                Sgs::SceneSettings(_) => r is Err,
            },
    {
        match self {
            Sgs::SceneConfigManager(m) => Ok(m),
            Sgs::SceneSettings(_) => Err(ParserError),
        }
    }
}

/// The settings of one scene.
#[derive(Debug)]
pub struct SceneSettings {
    pub settings: Settings,
}

/// The configuration manager: its version and its settings by key.
#[derive(Debug, Clone)]
pub struct SceneConfigManager {
    pub version: u8,
    pub sgs_map: SgsKey,
}

/// Settings by key, in the order the file gives them.
#[derive(Debug, Clone)]
pub struct SgsKey {
    pub class: Option<Vec<u8>>,
    pub keys: Vec<SgsEntry>,
}

/// The settings under one key.
#[derive(Debug, Clone)]
pub struct SgsEntry {
    pub key: Vec<u8>,
    pub settings: Settings,
}

/// The settings of a scene, by their kind.
#[derive(Debug, Clone)]
pub enum Settings {
    MapSceneConfig(MapSceneConfig),
    SongDatabaseSceneConfig(SongDatabaseSceneConfig),
    TransitionSceneConfig(TransitionSceneConfig),
}

/// The settings of a song's map.
#[derive(Debug, Clone)]
pub struct MapSceneConfig {
    pub class: Option<Vec<u8>>,
    pub pause_level: u8,
    pub name: Vec<u8>,
    pub typed: u8,
    pub musicscore: u8,
    pub sound_context: Vec<u8>,
    pub hud: usize,
    pub phone_title_loc_id: Option<usize>,
    pub phone_image: Option<Vec<u8>>,
}

impl Default for MapSceneConfig {
    /// The pause level 6, the type 1, the music score 2, and nothing else.
    fn default() -> (r: MapSceneConfig)
        ensures
            r.class is None && r.pause_level == 6 && r.name@.len() == 0 && r.typed == 1 && r.musicscore == 2,
            r.sound_context@.len() == 0 && r.hud == 0 && r.phone_title_loc_id is None && r.phone_image is None,
    {
        MapSceneConfig {
            class: None,
            pause_level: 6,
            name: Vec::new(),
            typed: 1,
            musicscore: 2,
            sound_context: Vec::new(),
            hud: 0,
            phone_title_loc_id: None,
            phone_image: None,
        }
    }
}

/// The settings of a transition between scenes.
#[derive(Debug, Clone)]
pub struct TransitionSceneConfig {
    pub class: Option<Vec<u8>>,
    pub pause_level: u64,
    pub name: Vec<u8>,
    pub param_bindings: Vec<ParamBinding>,
}

/// A parameter of a transition and where it comes from.
#[derive(Debug, Clone)]
pub struct ParamBinding {
    pub class: Option<Vec<u8>>,
    pub param_name: Vec<u8>,
    pub provider_class: Vec<u8>,
    pub patcher_marker: Vec<u8>,
}

/// The settings of the song database: the SKU, the territory, the rating
/// screen and the songs of the coverflow.
#[derive(Debug, Clone)]
pub struct SongDatabaseSceneConfig {
    pub class: Option<Vec<u8>>,
    pub pause_level: Option<u64>,
    pub name: Vec<u8>,
    pub sku: Vec<u8>,
    pub territory: Vec<u8>,
    pub rating_ui: Vec<u8>,
    pub coverflow_sku_songs: Vec<CoverflowSong>,
}

/// The bytes of the text `jd2022-nx-all`.
pub open spec fn text_default_sku() -> Seq<u8> {
    seq![106u8, 100, 50, 48, 50, 50, 45, 110, 120, 45, 97, 108, 108]
}

/// The bytes of the text `NCSA`.
pub open spec fn text_default_territory() -> Seq<u8> {
    seq![78u8, 67, 83, 65]
}

/// The bytes of the path `world/ui/screens/boot_warning/boot_warning_esrb.isc`.
pub open spec fn text_default_rating_ui() -> Seq<u8> {
    seq![
        119u8, 111, 114, 108, 100, 47, 117, 105, 47, 115, 99, 114, 101, 101, 110, 115, 47, 98, 111, 111, 116, 95,
        119, 97, 114, 110, 105, 110, 103, 47, 98, 111, 111, 116, 95, 119, 97, 114, 110, 105, 110, 103, 95, 101, 115,
        114, 98, 46, 105, 115, 99,
    ]
}

fn bytes_of(t: &[u8]) -> (r: Vec<u8>)
    ensures
        r@ == t@,
{
    let mut v: Vec<u8> = Vec::new();
    push_bytes(&mut v, t);
    assert(v@ =~= t@);
    v
}

impl Default for SongDatabaseSceneConfig {
    /// The pause level 6, the SKU `jd2022-nx-all`, the territory `NCSA`, the
    /// rating screen of the ESRB, and no song.
    fn default() -> (r: SongDatabaseSceneConfig)
        ensures
            r.class is None && r.pause_level == Some(6u64) && r.name@.len() == 0,
            r.sku@ == text_default_sku() && r.territory@ == text_default_territory(),
            r.rating_ui@ == text_default_rating_ui(),
            r.coverflow_sku_songs@.len() == 0,
    {
        let sku: [u8; 13] = [106u8, 100, 50, 48, 50, 50, 45, 110, 120, 45, 97, 108, 108];
        let territory: [u8; 4] = [78u8, 67, 83, 65];
        let rating: [u8; 51] = [
            119u8, 111, 114, 108, 100, 47, 117, 105, 47, 115, 99, 114, 101, 101, 110, 115, 47, 98, 111, 111, 116, 95,
            119, 97, 114, 110, 105, 110, 103, 47, 98, 111, 111, 116, 95, 119, 97, 114, 110, 105, 110, 103, 95, 101,
            115, 114, 98, 46, 105, 115, 99,
        ];
        assert(sku@ =~= text_default_sku());
        assert(territory@ =~= text_default_territory());
        assert(rating@ =~= text_default_rating_ui());
        SongDatabaseSceneConfig {
            class: None,
            pause_level: Some(6),
            name: Vec::new(),
            sku: bytes_of(sku.as_slice()),
            territory: bytes_of(territory.as_slice()),
            rating_ui: bytes_of(rating.as_slice()),
            coverflow_sku_songs: Vec::new(),
        }
    }
}

/// A song of the coverflow: its name and the path of its cover.
#[derive(Debug, Clone)]
pub struct CoverflowSong {
    pub class: Option<Vec<u8>>,
    pub name: Vec<u8>,
    pub cover_path: Vec<u8>,
}

} // verus!
