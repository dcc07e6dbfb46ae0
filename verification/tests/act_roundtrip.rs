use ubiart_toolkit::act::types::{Actor, Component, MaterialGraphicComponent, PleoComponent};
use ubiart_toolkit::act::writer::create_vec;
use ubiart_toolkit::utils::{SplitPath, UniqueGameId};

fn path(dir: &str, file: &str, id: u32) -> SplitPath {
    SplitPath { path: dir.as_bytes().to_vec(), filename: file.as_bytes().to_vec(), id }
}

fn sample_actor() -> Actor {
    let mut mgc = MaterialGraphicComponent::default();
    mgc.files[0] = path("world/maps/song/", "cover.tga", 0x1111_2222);
    mgc.anchor = 6;
    Actor {
        lua: path("world/maps/song/", "actor.tpl", 0xABCD_EF01),
        unk1: 0,
        unk2: 0x3F80_0000,
        unk2_5: 0x3F80_0000,
        unk3_5: 0,
        components: vec![
            Component::AutodanceComponent,
            Component::PleoComponent(PleoComponent {
                video: path("videos/", "song.webm", 7),
                dash_mpd: path("videos/", "song.mpd", 8),
                channel_id: b"main".to_vec(),
            }),
            Component::MaterialGraphicComponent(mgc),
        ],
    }
}

#[test]
fn written_actor_reads_back() {
    let actor = sample_actor();
    let bytes = create_vec(&actor).unwrap();
    let back = Actor::deserialize_at_with(&bytes, 0, UniqueGameId::nx2020()).unwrap();
    assert_eq!(back.lua, actor.lua);
    assert_eq!(back.unk1, actor.unk1);
    assert_eq!(back.unk2, actor.unk2);
    assert_eq!(back.unk2_5, actor.unk2_5);
    assert_eq!(back.unk3_5, 0);
    assert_eq!(back.components, actor.components);
}

#[test]
fn written_actor_starts_with_its_header() {
    let bytes = create_vec(&sample_actor()).unwrap();
    assert_eq!(&bytes[0..4], &[0, 0, 0, 1]);
    assert_eq!(&bytes[4..8], &[0, 0, 0, 0]);
    assert_eq!(&bytes[8..12], &[0x3F, 0x80, 0, 0]);
}

#[test]
fn unk3_5_is_written_as_zero() {
    let mut actor = sample_actor();
    actor.unk3_5 = 0xFFFF_FFFF;
    let bytes = create_vec(&actor).unwrap();
    let back = Actor::deserialize_at_with(&bytes, 0, UniqueGameId::nx2020()).unwrap();
    assert_eq!(back.unk3_5, 0);
}

#[test]
fn actor_with_trailing_bytes_is_refused() {
    let mut bytes = create_vec(&sample_actor()).unwrap();
    bytes.extend_from_slice(&[1, 2, 3]);
    assert!(Actor::deserialize_at_with(&bytes, 0, UniqueGameId::nx2020()).is_err());
}

#[test]
fn truncated_actor_is_refused() {
    let bytes = create_vec(&sample_actor()).unwrap();
    assert!(Actor::deserialize_at_with(&bytes[..bytes.len() - 1], 0, UniqueGameId::nx2020()).is_err());
}

#[test]
fn path_that_is_not_utf8_does_not_read_back() {
    let mut actor = sample_actor();
    actor.lua.filename = vec![0xFF, 0xFE];
    let bytes = create_vec(&actor).unwrap();
    assert!(Actor::deserialize_at_with(&bytes, 0, UniqueGameId::nx2020()).is_err());
}

#[test]
fn default_material_graphic_component() {
    let mgc = MaterialGraphicComponent::default();
    assert_eq!(mgc.unk4, 0x3F80_0000);
    assert_eq!(mgc.unk9, u32::MAX);
    assert_eq!(mgc.anchor, 1);
    assert_eq!(mgc.old_anchor, 1);
    assert_eq!(mgc.unk11, 0);
    assert_eq!(mgc.unk12, 0);
    assert!(mgc.files.iter().all(|f| f.path.is_empty() && f.filename.is_empty()));
}

#[test]
fn default_split_path_is_empty() {
    let sp = SplitPath::default();
    assert!(sp.is_empty());
    assert_eq!(sp.id, 0xFFFF_FFFF);
    assert!(!path("a/", "", 0).is_empty());
}

#[test]
fn component_ids_and_accessors() {
    let actor = sample_actor();
    assert_eq!(actor.components[0].to_id(), 0x67B8_BB77);
    assert_eq!(actor.components[1].to_id(), 0x1263_DAD9);
    assert_eq!(actor.components[2].to_id(), 0x72B6_1FC5);
    assert!(actor.components[2].material_graphic_component().is_ok());
    assert!(actor.components[0].material_graphic_component().is_err());
}

#[test]
fn failed_write_keeps_what_was_written() {
    let mut actor = sample_actor();
    actor.components = vec![Component::AutodanceComponent, Component::SoundComponent, Component::MasterTape];
    let mut out = vec![0xAA];
    assert!(actor.serialize_at_with_ctx(&mut out).is_err());
    let mut ok_actor = sample_actor();
    ok_actor.components = vec![Component::AutodanceComponent];
    let ok = create_vec(&ok_actor).unwrap();
    // the old byte, then the header, path and count (3 components), the first component, and the failing id
    let count_at = ok.len() - 8;
    let mut expected = vec![0xAA];
    expected.extend_from_slice(&ok[..count_at]);
    expected.extend_from_slice(&3u32.to_be_bytes());
    expected.extend_from_slice(&0x67B8_BB77u32.to_be_bytes());
    expected.extend_from_slice(&0x7DD8_643Cu32.to_be_bytes());
    assert_eq!(out, expected);
    assert_eq!(&out[1..5], &[0, 0, 0, 1]);
}

#[test]
fn payload_free_actor_reads_back_on_switch_2019() {
    let mut actor = sample_actor();
    actor.components = vec![Component::AutodanceComponent, Component::MasterTape, Component::SongDescComponent];
    let bytes = create_vec(&actor).unwrap();
    let back = Actor::deserialize_at_with(&bytes, 0, UniqueGameId::nx2019v1()).unwrap();
    assert_eq!(back.lua, actor.lua);
    assert_eq!(back.unk2, actor.unk2);
    assert_eq!(back.components, actor.components);
}

#[test]
fn path_with_multibyte_utf8_reads_back() {
    let mut actor = sample_actor();
    actor.lua.filename = "café_😀.tpl".as_bytes().to_vec();
    let bytes = create_vec(&actor).unwrap();
    let back = Actor::deserialize_at_with(&bytes, 0, UniqueGameId::nx2020()).unwrap();
    assert_eq!(back.lua, actor.lua);
}

#[test]
fn path_with_overlong_or_surrogate_bytes_does_not_read_back() {
    for bad in [vec![0xC0, 0x80], vec![0xED, 0xA0, 0x80], vec![0xF4, 0x90, 0x80, 0x80]] {
        let mut actor = sample_actor();
        actor.lua.filename = bad;
        let bytes = create_vec(&actor).unwrap();
        assert!(Actor::deserialize_at_with(&bytes, 0, UniqueGameId::nx2020()).is_err());
    }
}
