use std::collections::HashMap;

use rocat_deploy::config::{
    AvatarTypeConfig, ExperienceTemplateConfig, GenreConfig, PlaceTemplateConfig,
    PlayabilityConfig, ServerFillConfig, TemplateConfig,
};
use rocat_deploy::model::{
    DeployMode, ExperienceAnimationType, ExperienceAvatarType, ExperienceCollisionType,
    ExperienceConfigurationModel, ExperienceGenre, ExperiencePermissionsModel,
    ExperiencePlayableDevice, PlaceConfigurationModel, SocialSlotType,
};

fn empty_experience() -> ExperienceTemplateConfig {
    ExperienceTemplateConfig {
        genre: None,
        playable_devices: None,
        icon: None,
        thumbnails: None,
        playability: None,
        paid_access_price: None,
        private_server_price: None,
        enable_studio_access_to_apis: None,
        allow_third_party_sales: None,
        allow_third_party_teleports: None,
        avatar_type: None,
        avatar_animation_type: None,
        avatar_collision_type: None,
    }
}

fn empty_place() -> PlaceTemplateConfig {
    PlaceTemplateConfig {
        name: None,
        description: None,
        max_player_count: None,
        allow_copying: None,
        server_fill: None,
    }
}

#[test]
fn empty_experience_template_changes_nothing() {
    let model = ExperienceConfigurationModel::from(&empty_experience());
    assert_eq!(model.genre, None);
    assert!(model.playable_devices.is_none());
    assert_eq!(model.is_friends_only, None);
    assert_eq!(model.allow_private_servers, None);
    assert_eq!(model.private_server_price, None);
    assert_eq!(model.is_for_sale, None);
    assert_eq!(model.price, None);
    assert_eq!(model.studio_access_to_apis_allowed, None);
    assert_eq!(model.permissions, None);
    assert_eq!(model.universe_avatar_type, None);
    assert_eq!(model.universe_animation_type, None);
    assert_eq!(model.universe_collision_type, None);
}

#[test]
fn every_genre_is_translated() {
    let cases = [
        (GenreConfig::All, ExperienceGenre::All),
        (GenreConfig::Adventure, ExperienceGenre::Adventure),
        (GenreConfig::Building, ExperienceGenre::Tutorial),
        (GenreConfig::Comedy, ExperienceGenre::Funny),
        (GenreConfig::Fighting, ExperienceGenre::Ninja),
        (GenreConfig::Fps, ExperienceGenre::Fps),
        (GenreConfig::Horror, ExperienceGenre::Scary),
        (GenreConfig::Medieval, ExperienceGenre::Fantasy),
        (GenreConfig::Military, ExperienceGenre::War),
        (GenreConfig::Naval, ExperienceGenre::Pirate),
        (GenreConfig::Rpg, ExperienceGenre::Rpg),
        (GenreConfig::SciFi, ExperienceGenre::SciFi),
        (GenreConfig::Sports, ExperienceGenre::Sports),
        (GenreConfig::TownAndCity, ExperienceGenre::TownAndCity),
        (GenreConfig::Western, ExperienceGenre::WildWest),
    ];
    let mut seen: Vec<ExperienceGenre> = Vec::new();
    for (config, expected) in cases {
        let mut template = empty_experience();
        template.genre = Some(config);
        let model = ExperienceConfigurationModel::from(&template);
        assert_eq!(model.genre, Some(expected));
        assert!(!seen.contains(&expected));
        seen.push(expected);
    }
}

#[test]
fn every_avatar_type_is_translated() {
    let cases = [
        (AvatarTypeConfig::R6, ExperienceAvatarType::MorphToR6),
        (AvatarTypeConfig::R15, ExperienceAvatarType::MorphToR15),
        (AvatarTypeConfig::PlayerChoice, ExperienceAvatarType::PlayerChoice),
    ];
    for (config, expected) in cases {
        let mut template = empty_experience();
        template.avatar_type = Some(config);
        assert_eq!(ExperienceConfigurationModel::from(&template).universe_avatar_type, Some(expected));
    }
}

#[test]
fn playability_decides_friends_only() {
    let cases = [
        (PlayabilityConfig::Friends, Some(true)),
        (PlayabilityConfig::Public, Some(false)),
        (PlayabilityConfig::Private, None),
    ];
    for (playability, expected) in cases {
        let mut template = empty_experience();
        template.playability = Some(playability);
        assert_eq!(ExperienceConfigurationModel::from(&template).is_friends_only, expected);
    }
}

#[test]
fn prices_turn_on_sales_and_private_servers() {
    let mut template = empty_experience();
    template.paid_access_price = Some(25);
    template.private_server_price = Some(0);
    let model = ExperienceConfigurationModel::from(&template);
    assert_eq!(model.is_for_sale, Some(true));
    assert_eq!(model.price, Some(25));
    assert_eq!(model.allow_private_servers, Some(true));
    assert_eq!(model.private_server_price, Some(0));
}

#[test]
fn one_third_party_setting_sends_permissions() {
    let mut template = empty_experience();
    template.allow_third_party_teleports = Some(false);
    let model = ExperienceConfigurationModel::from(&template);
    assert_eq!(
        model.permissions,
        Some(ExperiencePermissionsModel {
            is_third_party_purchase_allowed: None,
            is_third_party_teleport_allowed: Some(false),
        })
    );

    template.allow_third_party_sales = Some(true);
    let model = ExperienceConfigurationModel::from(&template);
    assert_eq!(
        model.permissions,
        Some(ExperiencePermissionsModel {
            is_third_party_purchase_allowed: Some(true),
            is_third_party_teleport_allowed: Some(false),
        })
    );
}

#[test]
fn devices_and_avatar_settings_pass_through() {
    let mut template = empty_experience();
    template.playable_devices = Some(vec![
        ExperiencePlayableDevice::Computer,
        ExperiencePlayableDevice::Console,
        ExperiencePlayableDevice::Phone,
    ]);
    template.enable_studio_access_to_apis = Some(true);
    template.avatar_animation_type = Some(ExperienceAnimationType::PlayerChoice);
    template.avatar_collision_type = Some(ExperienceCollisionType::InnerBox);
    template.icon = Some("icon.png".to_string());
    template.thumbnails = Some(vec!["a.png".to_string()]);
    let model = ExperienceConfigurationModel::from(&template);
    assert_eq!(
        model.playable_devices,
        Some(vec![
            ExperiencePlayableDevice::Computer,
            ExperiencePlayableDevice::Console,
            ExperiencePlayableDevice::Phone,
        ])
    );
    assert_eq!(model.studio_access_to_apis_allowed, Some(true));
    assert_eq!(model.universe_animation_type, Some(ExperienceAnimationType::PlayerChoice));
    assert_eq!(model.universe_collision_type, Some(ExperienceCollisionType::InnerBox));
}

#[test]
fn empty_device_list_stays_empty() {
    let mut template = empty_experience();
    template.playable_devices = Some(Vec::new());
    assert_eq!(ExperienceConfigurationModel::from(&template).playable_devices, Some(Vec::new()));
}

#[test]
fn empty_place_template_changes_nothing() {
    let model = PlaceConfigurationModel::from(&empty_place());
    assert_eq!(model.name, None);
    assert_eq!(model.description, None);
    assert_eq!(model.max_player_count, None);
    assert_eq!(model.allow_copying, None);
    assert_eq!(model.social_slot_type, None);
    assert_eq!(model.custom_social_slot_count, None);
}

#[test]
fn place_settings_pass_through() {
    let mut template = empty_place();
    template.name = Some("Lobby".to_string());
    template.description = Some("Where it starts".to_string());
    template.max_player_count = Some(50);
    template.allow_copying = Some(false);
    let model = PlaceConfigurationModel::from(&template);
    assert_eq!(model.name, Some("Lobby".to_string()));
    assert_eq!(model.description, Some("Where it starts".to_string()));
    assert_eq!(model.max_player_count, Some(50));
    assert_eq!(model.allow_copying, Some(false));
}

#[test]
fn server_fill_decides_social_slots() {
    let cases = [
        (ServerFillConfig::RobloxOptimized, SocialSlotType::Automatic, None),
        (ServerFillConfig::Maximum, SocialSlotType::Empty, None),
        (ServerFillConfig::ReservedSlots(7), SocialSlotType::Custom, Some(7)),
    ];
    for (fill, slot_type, count) in cases {
        let mut template = empty_place();
        template.server_fill = Some(fill);
        let model = PlaceConfigurationModel::from(&template);
        assert_eq!(model.social_slot_type, Some(slot_type));
        assert_eq!(model.custom_social_slot_count, count);
    }
}

#[test]
fn default_templates_are_empty() {
    let templates = TemplateConfig::default();
    assert!(templates.experience.is_none());
    assert!(templates.places.is_empty());
    let _: HashMap<String, PlaceTemplateConfig> = templates.places;
}

#[test]
fn deploy_mode_defaults_to_publish() {
    assert_eq!(DeployMode::default(), DeployMode::Publish);
    assert_eq!(DeployMode::Publish.name(), "Publish");
    assert_eq!(DeployMode::Save.name(), "Save");
}
