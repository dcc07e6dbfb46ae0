use ubiart_toolkit::dlcdescriptor::DlcDescriptor;
use ubiart_toolkit::gtx::types::{Format, GfdHeader, Gtx, GFD_MAGIC};
use ubiart_toolkit::json::{clean_buffer_tpl, create_vec as create_json_vec, Rarity};
use ubiart_toolkit::png::{create_vec as create_png_vec, Png, Texture};
use ubiart_toolkit::sgs::{
    clean_buffer_sgs, create_vec as create_sgs_vec, MapSceneConfig, SceneConfigManager, SceneSettings, Settings, Sgs,
    SgsKey, SongDatabaseSceneConfig,
};
use ubiart_toolkit::utils::{Game, Platform, UniqueGameId};

fn nx() -> UniqueGameId {
    UniqueGameId { game: Game::JustDance2022, platform: Platform::Nx, id: 1 }
}

fn word(v: &mut Vec<u8>, x: u32) {
    v.extend_from_slice(&x.to_be_bytes());
}

#[test]
fn png_reads_back_what_it_writes() {
    let png = Png {
        width: 256,
        height: 128,
        unk2: 0x1_0080,
        unk5: 0x2000,
        unk8: 3,
        unk9: 4,
        unk10: 0x0202,
        texture: Texture::Xtx(vec![1, 2, 3, 4, 5]),
    };
    let bytes = create_png_vec(&png).unwrap();
    assert_eq!(bytes.len(), 44 + 5);
    assert_eq!(&bytes[0..8], &[0, 0, 0, 0x09, 0x54, 0x45, 0x58, 0]);
    let back = Png::deserialize_at_with_ctx(&bytes, 0, nx()).unwrap();
    assert_eq!(back.width, 256);
    assert_eq!(back.height, 128);
    assert_eq!(back.unk2, 0x1_0080);
    assert_eq!(back.unk5, 0x2000);
    assert_eq!(back.unk8, 3);
    assert_eq!(back.unk9, 4);
    assert_eq!(back.unk10, 0x0202);
    match back.texture {
        Texture::Xtx(b) => assert_eq!(b, vec![1, 2, 3, 4, 5]),
        Texture::Gtx(_) => panic!("expected an XTX texture"),
    }
}

#[test]
fn png_default_and_refusals() {
    let png = Png::default();
    assert_eq!(png.unk5, 0x2000);
    let bytes = create_png_vec(&png).unwrap();
    assert_eq!(bytes.len(), 44);
    let mut bad = bytes.clone();
    bad[13] = 0x2D;
    assert!(Png::deserialize_at_with_ctx(&bad, 0, nx()).is_err());
    let mut bad_unk5 = create_png_vec(&Png { unk5: 0x1234, ..Png::default() }).unwrap();
    assert!(Png::deserialize_at_with_ctx(&bad_unk5, 0, nx()).is_err());
    bad_unk5.truncate(20);
    assert!(Png::deserialize_at_with_ctx(&bad_unk5, 0, nx()).is_err());
}

#[test]
fn gtx_texture_cannot_be_written() {
    let png = Png { texture: Texture::Gtx(Gtx { gfd: GfdHeader { align_mode: 0 }, images: vec![] }), ..Png::default() };
    assert!(create_png_vec(&png).is_err());
}

#[test]
fn json_framing() {
    let framed = create_json_vec(b"{\"a\":1}");
    assert_eq!(framed, b"{\"a\":1}\0".to_vec());
    assert_eq!(clean_buffer_tpl(&framed, false).unwrap(), b"{\"a\":1}");
    assert!(clean_buffer_tpl(b"{}", false).is_err());
    assert_eq!(clean_buffer_tpl(b"{}", true).unwrap(), b"{}");
}

#[test]
fn sgs_framing() {
    let framed = create_sgs_vec(b"{}");
    assert_eq!(framed, b"S{}\0".to_vec());
    assert_eq!(clean_buffer_sgs(&framed).unwrap(), b"{}");
    assert!(clean_buffer_sgs(b"X{}\0").is_err());
    assert!(clean_buffer_sgs(b"S{}").is_err());
    assert!(clean_buffer_sgs(b"\0").is_err());
}

#[test]
fn rarity_numbers_and_texts() {
    assert_eq!(Rarity::from_u64(0), Some(Rarity::Common));
    assert_eq!(Rarity::from_u64(5), Some(Rarity::Exotic));
    assert_eq!(Rarity::from_u64(6), None);
    assert_eq!(Rarity::Epic.code(), 3);
    assert_eq!(Rarity::from_text(b"2"), Some(Rarity::Rare));
    assert_eq!(Rarity::from_text(b"7"), None);
    assert_eq!(Rarity::from_text(b"12"), None);
    assert_eq!(Rarity::Legendary.to_text(), b"4".to_vec());
    for r in [Rarity::Common, Rarity::Uncommon, Rarity::Rare, Rarity::Epic, Rarity::Legendary, Rarity::Exotic] {
        assert_eq!(Rarity::from_text(&r.to_text()), Some(r));
    }
}

#[test]
fn dlc_descriptor_name() {
    let mut data = Vec::new();
    word(&mut data, 0x4A44_4C43);
    word(&mut data, 1);
    word(&mut data, 0x07DF);
    word(&mut data, 1);
    word(&mut data, 5);
    data.extend_from_slice(b"dlc01");
    let (d, end) = DlcDescriptor::deserialize_at_with(&data, 0, nx()).unwrap();
    assert_eq!(d.name, b"dlc01".to_vec());
    assert_eq!(end, data.len());
    data[3] = 0x44;
    assert!(DlcDescriptor::deserialize_at_with(&data, 0, nx()).is_err());
}

#[test]
fn gtx_formats() {
    assert_eq!(Format::try_from(0x01A).unwrap(), Format::TcsR8G8B8A8Unorm);
    assert_eq!(Format::TcsR8G8B8A8Unorm.value(), 0x01A);
    assert!(Format::try_from(0x999).is_err());
    assert!(Format::TBc1Unorm.is_bcn());
    assert!(!Format::TcsR8G8B8A8Unorm.is_bcn());
    assert_eq!(Format::TBc1Unorm.get_bpp(), 64);
    assert_eq!(Format::TcsR8G8B8A8Srgb.get_bpp(), 32);
}

#[test]
fn gfd_header_alone_has_no_image() {
    let mut data = Vec::new();
    for x in [GFD_MAGIC, 0x20, 7, 1, 2, 0, 0, 0] {
        word(&mut data, x);
    }
    let (g, end) = Gtx::deserialize_at(&data, 0).unwrap();
    assert_eq!(end, 32);
    assert!(g.images.is_empty());
    data[0] = 0;
    assert!(Gtx::deserialize_at(&data, 0).is_err());
}

#[test]
fn scene_settings_accessors_and_defaults() {
    let map = MapSceneConfig::default();
    assert_eq!((map.pause_level, map.typed, map.musicscore, map.hud), (6, 1, 2, 0));
    let db = SongDatabaseSceneConfig::default();
    assert_eq!(db.sku, b"jd2022-nx-all".to_vec());
    assert_eq!(db.territory, b"NCSA".to_vec());
    assert_eq!(db.rating_ui, b"world/ui/screens/boot_warning/boot_warning_esrb.isc".to_vec());
    assert_eq!(db.pause_level, Some(6));
    let settings = Sgs::SceneSettings(SceneSettings { settings: Settings::MapSceneConfig(map) });
    assert!(settings.into_scene_settings().is_ok());
    let manager = Sgs::SceneConfigManager(SceneConfigManager { version: 1, sgs_map: SgsKey { class: None, keys: vec![] } });
    assert!(Sgs::SceneConfigManager(SceneConfigManager { version: 1, sgs_map: SgsKey { class: None, keys: vec![] } })
        .into_scene_settings()
        .is_err());
    assert_eq!(manager.into_scene_config_manager().unwrap().version, 1);
}
