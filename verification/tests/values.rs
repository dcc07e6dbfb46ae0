use ubiart_toolkit::isc::types::{
    Actor, GFXMaterialSerializable, MaterialGraphicComponent, Scene, SongDatabaseSceneConfig, SubSceneActor,
    WrappedActor, WrappedActors,
};
use ubiart_toolkit::isg::{
    u32_max, ObjectiveDescriptor, ObjectiveDescriptorAccumulateXCal, ObjectiveDescriptorBase,
    ObjectiveDescriptorComponent, ObjectiveDescriptorComponentBase, ObjectiveDescriptorComponentMapScoreRequirement,
};
use ubiart_toolkit::utils::{Game, InternedString, LocaleId, Platform, UniqueGameId};

fn base(description: u32, raw: &str) -> ObjectiveDescriptorBase {
    ObjectiveDescriptorBase {
        class: None,
        description: LocaleId(description),
        description_raw: raw.as_bytes().to_vec(),
        components: vec![],
        is_static: true,
        exclude_from_upload: false,
    }
}

#[test]
fn objective_accessors_read_every_kind() {
    let simple = ObjectiveDescriptor::ActivateCoopMode(base(12, "Play together"));
    assert_eq!(simple.description(), LocaleId(12));
    assert_eq!(simple.description_raw(), b"Play together".to_vec());
    assert!(simple.is_static());
    assert!(!simple.exclude_from_upload());
    let cal = ObjectiveDescriptor::AccumulateXCal(ObjectiveDescriptorAccumulateXCal {
        class: None,
        description: LocaleId(99),
        description_raw: b"Burn".to_vec(),
        components: vec![],
        is_static: false,
        exclude_from_upload: true,
        calories_amount: 500,
        in_one_session: false,
    });
    assert_eq!(cal.description(), LocaleId(99));
    assert_eq!(cal.description_raw(), b"Burn".to_vec());
    assert!(!cal.is_static());
    assert!(cal.exclude_from_upload());
}

#[test]
fn requirement_accessor_reads_every_kind() {
    let online = ObjectiveDescriptorComponent::OnlyOnline(ObjectiveDescriptorComponentBase { class: None, only_diff_values: true });
    assert!(online.only_diff_values());
    let score = ObjectiveDescriptorComponent::MapScoreRequirement(ObjectiveDescriptorComponentMapScoreRequirement {
        class: None,
        only_diff_values: false,
        score: 1000,
        better_than_dancer_of_the_week: false,
    });
    assert!(!score.only_diff_values());
    assert_eq!(u32_max(), u32::MAX);
}

#[test]
fn interned_strings_read_back() {
    for x in [InternedString::NavigationDefault, InternedString::Decel, InternedString::Empty] {
        assert_eq!(InternedString::from_id(x.id()), Some(x));
    }
    assert_eq!(InternedString::Empty.id(), 0xFFFF_FFFF);
    assert_eq!(InternedString::from_id(0x1234_5678), None);
    assert_eq!(InternedString::NavigationDefault.as_str(), "navigation_default");
}

#[test]
fn builds_are_ordered() {
    let wiiu = UniqueGameId::wiiu2016();
    let nx19 = UniqueGameId::nx2019v1();
    assert!(nx19.is_at_least(&wiiu));
    assert!(!wiiu.is_at_least(&nx19));
    assert!(UniqueGameId::nx2019v2().is_at_least(&nx19));
    assert!(!nx19.is_at_least(&UniqueGameId::nx2019v2()));
    assert!(UniqueGameId::nx2020().is_at_least(&UniqueGameId::nx2019v2()));
    let wii = UniqueGameId { game: Game::JustDance2016, platform: Platform::Wii, id: 9 };
    assert!(wiiu.is_at_least(&wii));
    assert_eq!(Game::JustDance2022.rank(), 8);
}

#[test]
fn default_scene_values() {
    let scene = Scene::default();
    assert_eq!(scene.engine_version, 326_704);
    assert_eq!(scene.gridunit, 0x3F00_0000);
    assert_eq!(scene.near_separator[1].color, (0, 0x3F80_0000, 0, 0));
    assert!(scene.actors.is_empty());
    let actor = Actor::default();
    assert_eq!(actor.scale, [0x3F80_0000, 0x3F80_0000]);
    assert_eq!(actor.defaultenable, Some(true));
    assert_eq!(actor.marker, Some(vec![]));
    let sub = SubSceneActor::default();
    assert!(sub.embed_scene && sub.zforced && sub.direct_picking);
    assert!(!sub.is_single_piece && !sub.ignore_save);
    let mgc = MaterialGraphicComponent::default();
    assert_eq!(mgc.disable_shadow, u32::MAX);
    assert_eq!(mgc.sinus_speed, 0x3F80_0000);
    assert_eq!(mgc.enums[0].name, b"anchor".to_vec());
    assert_eq!(mgc.enums[1].name, b"oldAnchor".to_vec());
    assert_eq!(mgc.primitive_parameters.gfx_primitive_param.enums[0].name, b"gfxOccludeInfo".to_vec());
    let material = GFXMaterialSerializable::default();
    assert_eq!(material.alpha_test, u32::MAX);
    assert_eq!(material.outlined_mask_params.unwrap().outline_mask_material_params.thickness, 0x3F80_0000);
    let db = SongDatabaseSceneConfig::default();
    assert_eq!(db.territory, b"NCSA".to_vec());
    assert_eq!(db.enums[0].name, b"Pause_Level".to_vec());
    assert_eq!(db.enums[0].selection, 6);
}

#[test]
fn lookups_find_the_first_match() {
    let mut scene = Scene::default();
    let mut a = Actor::default();
    a.userfriendly = b"Coach_1".to_vec();
    a.lua = b"first".to_vec();
    let mut b = Actor::default();
    b.userfriendly = b"coach_1".to_vec();
    b.lua = b"second".to_vec();
    scene.actors.push(WrappedActors::Actor(WrappedActor { actor: a }));
    scene.actors.push(WrappedActors::Actor(WrappedActor { actor: b }));
    assert_eq!(scene.get_actor_by_userfriendly(b"coach_1").unwrap().lua, b"second".to_vec());
    assert_eq!(scene.get_actor_by_userfriendly_end(b"ACH_1", true).unwrap().lua, b"first".to_vec());
    assert_eq!(scene.get_actor_by_userfriendly_end(b"ach_1", false).unwrap().lua, b"first".to_vec());
    assert_eq!(scene.get_actor_by_userfriendly_end(b"coach_1", false).unwrap().lua, b"second".to_vec());
    assert!(scene.get_actor_by_userfriendly_end(b"ACH_2", true).is_err());
    assert!(scene.get_subscene_by_userfriendly(b"Coach_1").is_err());
}
