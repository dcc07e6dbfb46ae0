use ubiart_toolkit::isc::binary::{f32_within, parse};
use ubiart_toolkit::isc::types::{Root, Scene, WrappedActors, WrappedComponent, WrappedJdSceneConfig};
use ubiart_toolkit::utils::{Game, Platform, UniqueGameId};

const ACTOR: u32 = 0x97CA_628B;
const SUB_SCENE_ACTOR: u32 = 0x4FA4_0F09;
const AUTODANCE: u32 = 0x67B8_BB77;
const MUSIC_TRACK: u32 = 0x7A7C_235B;
const PLEO: u32 = 0x1263_DAD9;
const MAP_CONFIG: u32 = 0xCE01_8EDB;
const SONG_DATABASE_CONFIG: u32 = 0xF878_DC2D;
const ONE: u32 = 0x3F80_0000;

fn jd2015() -> UniqueGameId {
    UniqueGameId { game: Game::JustDance2015, platform: Platform::Wii, id: 1 }
}

fn word(v: &mut Vec<u8>, x: u32) {
    v.extend_from_slice(&x.to_be_bytes());
}

fn text(v: &mut Vec<u8>, s: &str) {
    word(v, s.len() as u32);
    v.extend_from_slice(s.as_bytes());
}

fn split_path(v: &mut Vec<u8>, dir: &str, file: &str) {
    text(v, dir);
    text(v, file);
    word(v, 0x1234_5678);
    word(v, 0);
}

/// An actor (after its class) with the given name and rotation, no record and the given components.
fn actor(v: &mut Vec<u8>, name: &str, rotation: u32, components: &[u32]) {
    word(v, 0);
    word(v, ONE);
    word(v, ONE);
    word(v, 1);
    text(v, name);
    word(v, 0x4120_0000);
    word(v, 0xC120_0000);
    word(v, rotation);
    word(v, 0);
    word(v, 0);
    word(v, 0xFFFF_FFFF);
    word(v, 0);
    split_path(v, "world/jd2015/", "actor.tpl");
    word(v, 0);
    word(v, components.len() as u32);
    for c in components {
        word(v, *c);
    }
}

fn scene_head(v: &mut Vec<u8>, version: u32, actors: u32) {
    word(v, 1);
    word(v, version);
    word(v, 0);
    word(v, 0);
    word(v, 0);
    word(v, actors);
}

fn scene_tail(v: &mut Vec<u8>, active: u32) {
    word(v, 0);
    word(v, 0);
    word(v, 1);
    word(v, MAP_CONFIG);
    for x in [0u32, 6, 1, 2, 0, 0, 0] {
        word(v, x);
    }
    word(v, active);
}

fn simple_scene(version: u32, rotation: u32, active: u32) -> Vec<u8> {
    let mut v = Vec::new();
    scene_head(&mut v, version, 1);
    word(&mut v, ACTOR);
    actor(&mut v, "player", rotation, &[AUTODANCE, MUSIC_TRACK]);
    scene_tail(&mut v, active);
    v
}

#[test]
fn parses_a_scene_with_one_actor() {
    let data = simple_scene(0x0002_6450, 0x3F00_0000, 0);
    let (root, end): (Root, usize) = Root::deserialize_at_with(&data, 0, jd2015()).unwrap();
    assert_eq!(end, data.len());
    let scene: &Scene = &root.scene;
    assert_eq!(scene.engine_version, 0x0002_6450);
    assert_eq!(scene.gridunit, 0);
    assert_eq!(scene.near_separator[0].color, (ONE, 0, 0, 0));
    assert_eq!(scene.far_separator[3].color, (0, 0, 0, ONE));
    assert_eq!(scene.actors.len(), 1);
    let a = scene.actors[0].actor().unwrap();
    assert_eq!(a.userfriendly, b"player".to_vec());
    assert_eq!(a.lua, b"world/jd2015/actor.tpl".to_vec());
    assert_eq!(a.scale, [ONE, ONE]);
    assert_eq!(a.pos2d, [0x4120_0000, 0xC120_0000]);
    assert!(a.x_flipped);
    assert_eq!(a.angle, 0);
    assert!(a.marker.is_none());
    assert_eq!(a.components.len(), 2);
    assert!(matches!(a.components[0], WrappedComponent::Autodance));
    assert!(matches!(a.components[1], WrappedComponent::MusicTrack));
    assert!(scene.actors[0].sub_scene_actor().is_err());
    let configs = &scene.scene_configs.scene_configs;
    assert_eq!(configs.active_scene_config, 0);
    assert_eq!(configs.jd_scene_config.len(), 1);
    match &configs.jd_scene_config[0] {
        WrappedJdSceneConfig::MapScene(m) => {
            let enums = &m.map_scene_config.enums;
            assert_eq!(enums.len(), 3);
            assert_eq!(enums[0].name, b"Pause_Level".to_vec());
            assert_eq!(enums[0].selection, 6);
            assert_eq!(enums[1].name, b"type".to_vec());
            assert_eq!(enums[1].selection, 1);
            assert_eq!(enums[2].name, b"musicscore".to_vec());
            assert_eq!(enums[2].selection, 2);
        }
        _ => panic!("expected a map scene configuration"),
    }
}

#[test]
fn parse_returns_the_root() {
    let data = simple_scene(0x0002_6450, 0, 1);
    let root = parse(&data, jd2015()).unwrap();
    assert_eq!(root.scene.scene_configs.scene_configs.active_scene_config, 1);
    assert!(root.scene.get_actor_by_userfriendly(b"player").is_ok());
    assert!(root.scene.get_actor_by_userfriendly(b"other").is_err());
}

#[test]
fn rejects_another_engine_version() {
    let data = simple_scene(0x0002_6451, 0, 0);
    assert!(Scene::deserialize_at_with(&data, 0, jd2015()).is_err());
    assert!(parse(&data, jd2015()).is_err());
}

#[test]
fn rejects_a_rotation_above_two_pi() {
    let data = simple_scene(0x0002_6450, 0x40E0_0000, 0);
    assert!(parse(&data, jd2015()).is_err());
}

#[test]
fn accepts_a_negative_zero_rotation() {
    let data = simple_scene(0x0002_6450, 0x8000_0000, 0);
    assert!(parse(&data, jd2015()).is_ok());
}

#[test]
fn rejects_an_active_configuration_above_one() {
    let data = simple_scene(0x0002_6450, 0, 2);
    assert!(parse(&data, jd2015()).is_err());
}

#[test]
fn rejects_truncated_data() {
    let data = simple_scene(0x0002_6450, 0, 0);
    for n in [0, 10, 24, 60, data.len() - 1] {
        assert!(parse(&data[..n], jd2015()).is_err());
    }
}

#[test]
fn rejects_an_unknown_actor_class() {
    let mut data = Vec::new();
    scene_head(&mut data, 0x0002_6450, 1);
    word(&mut data, 0xDEAD_BEEF);
    actor(&mut data, "player", 0, &[]);
    scene_tail(&mut data, 0);
    assert!(parse(&data, jd2015()).is_err());
}

#[test]
fn rejects_an_unknown_component_class() {
    let mut data = Vec::new();
    scene_head(&mut data, 0x0002_6450, 1);
    word(&mut data, ACTOR);
    actor(&mut data, "player", 0, &[0x0BAD_F00D]);
    scene_tail(&mut data, 0);
    assert!(parse(&data, jd2015()).is_err());
}

#[test]
fn parses_a_video_player_without_manifest() {
    let mut data = Vec::new();
    scene_head(&mut data, 0x0002_6450, 1);
    word(&mut data, ACTOR);
    actor(&mut data, "video", 0, &[]);
    // replace the empty component list by one video player
    data.truncate(data.len() - 4);
    word(&mut data, 1);
    word(&mut data, PLEO);
    split_path(&mut data, "videos/", "intro.webm");
    text(&mut data, "channel");
    scene_tail(&mut data, 0);
    let root = parse(&data, jd2015()).unwrap();
    let a = root.scene.actors[0].actor().unwrap();
    let pleo = a.components[0].pleo_component().unwrap();
    assert_eq!(pleo.video, b"videos/intro.webm".to_vec());
    assert!(pleo.dash_mpd.is_empty());
    assert_eq!(pleo.channel_id, b"channel".to_vec());
    assert!(a.components[0].material_graphic_component().is_err());
}

#[test]
fn parses_a_sub_scene_with_its_scene() {
    let mut data = Vec::new();
    scene_head(&mut data, 0x0002_6450, 1);
    word(&mut data, SUB_SCENE_ACTOR);
    word(&mut data, 0);
    word(&mut data, ONE);
    word(&mut data, ONE);
    word(&mut data, 0);
    text(&mut data, "sub");
    word(&mut data, 0);
    word(&mut data, 0);
    for x in [0u32, 0, 0, 0xFFFF_FFFF, 0] {
        word(&mut data, x);
    }
    split_path(&mut data, "", "");
    word(&mut data, 0);
    word(&mut data, 0);
    split_path(&mut data, "world/", "sub.isc");
    for x in [1u32, 0, 1, 1, 3] {
        word(&mut data, x);
    }
    scene_head(&mut data, 0x0002_6450, 0);
    scene_tail(&mut data, 0);
    scene_tail(&mut data, 0);
    let root = parse(&data, jd2015()).unwrap();
    let sub = root.scene.get_subscene_by_userfriendly(b"sub").unwrap();
    assert_eq!(sub.relativepath, b"world/sub.isc".to_vec());
    assert_eq!(sub.enums.len(), 1);
    assert_eq!(sub.enums[0].name, b"viewType".to_vec());
    assert_eq!(sub.enums[0].selection, 3);
    assert!(!sub.embed_scene);
    assert!(sub.wrapped_scene.scene.actors.is_empty());
    assert!(matches!(root.scene.actors[0], WrappedActors::SubSceneActor(_)));
    assert!(root.scene.get_subscene_by_userfriendly_end(b"UB", true).is_ok());
    assert!(root.scene.get_subscene_by_userfriendly_end(b"UB", false).is_err());
}

#[test]
fn parses_a_song_database_configuration() {
    let mut data = Vec::new();
    scene_head(&mut data, 0x0002_6450, 0);
    word(&mut data, 0);
    word(&mut data, 0);
    word(&mut data, 1);
    word(&mut data, SONG_DATABASE_CONFIG);
    text(&mut data, "jd2015-wii");
    text(&mut data, "NCSA");
    split_path(&mut data, "ui/", "rating.isc");
    word(&mut data, 1);
    text(&mut data, "MySong");
    split_path(&mut data, "covers/", "mysong.tga");
    word(&mut data, 0);
    word(&mut data, 0);
    let root = parse(&data, jd2015()).unwrap();
    match &root.scene.scene_configs.scene_configs.jd_scene_config[0] {
        WrappedJdSceneConfig::SongDatabase(d) => {
            let d = &d.song_database_scene_config;
            assert_eq!(d.sku, b"jd2015-wii".to_vec());
            assert_eq!(d.territory, b"NCSA".to_vec());
            assert_eq!(d.rating_ui, b"ui/rating.isc".to_vec());
            assert_eq!(d.coverflow_sku_songs.len(), 1);
            assert_eq!(d.coverflow_sku_songs[0].coverflow_song.name, b"MySong".to_vec());
            assert_eq!(d.coverflow_sku_songs[0].coverflow_song.cover_path, b"covers/mysong.tga".to_vec());
        }
        _ => panic!("expected a song database configuration"),
    }
}

#[test]
fn compares_f32_bits_by_value() {
    assert!(f32_within(0, 0, 0x40C9_0FDB));
    assert!(f32_within(0x8000_0000, 0, 0x40C9_0FDB));
    assert!(f32_within(0x40C9_0FDB, 0, 0x40C9_0FDB));
    assert!(!f32_within(0x40C9_0FDC, 0, 0x40C9_0FDB));
    assert!(f32_within(0xBDF5_C28F, 0xBDF5_C28F, 0));
    assert!(!f32_within(0xBE00_0000, 0xBDF5_C28F, 0));
    assert!(!f32_within(0x7FC0_0000, 0, 0x40C9_0FDB));
}
