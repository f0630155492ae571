use std::collections::HashMap;
use vstd::prelude::*;

use crate::model::{
    option_string_view, option_vec_view, DeployMode, ExperienceAnimationType, ExperienceAvatarType,
    ExperienceCollisionType, ExperienceConfigurationModel, ExperienceConfigurationView,
    ExperienceGenre, ExperiencePermissionsModel, ExperiencePlayableDevice,
    PlaceConfigurationModel, PlaceConfigurationView, SocialSlotType,
};

verus! {

/// The contents of a project's `rocat.yml`.
pub struct Config {
    /// Place name to the file of the place, relative to the project directory.
    pub place_files: HashMap<String, String>,
    pub deployments: Vec<DeploymentConfig>,
    pub templates: TemplateConfig,
}

/// Where and how the project is deployed from a set of branches.
pub struct DeploymentConfig {
    pub name: String,
    /// Glob patterns of the branches that deploy here.
    pub branches: Vec<String>,
    pub deploy_mode: DeployMode,
    pub tag_commit: bool,
    pub experience_id: u64,
    /// Place name to the asset id of the place.
    pub place_ids: HashMap<String, u64>,
}

/// Settings applied to the experience and to its places.
pub struct TemplateConfig {
    pub experience: Option<ExperienceTemplateConfig>,
    pub places: HashMap<String, PlaceTemplateConfig>,
}

impl Default for TemplateConfig {
    /// No experience settings and no place settings.
    fn default() -> (r: Self)
        ensures
            r.experience is None,
            r.places@ == Map::<String, PlaceTemplateConfig>::empty(),
    {
        TemplateConfig { experience: None, places: HashMap::new() }
    }
}

/// The genre of an experience, as the project names it.
#[derive(Clone, Copy, Debug, PartialEq, Eq, Structural)]
pub enum GenreConfig {
    All,
    Adventure,
    Building,
    Comedy,
    Fighting,
    Fps,
    Horror,
    Medieval,
    Military,
    Naval,
    Rpg,
    SciFi,
    Sports,
    TownAndCity,
    Western,
}

/// Who can play an experience.
#[derive(Clone, Copy, Debug, PartialEq, Eq, Structural)]
pub enum PlayabilityConfig {
    Private,
    Public,
    Friends,
}

/// The avatar type of an experience, as the project names it.
#[derive(Clone, Copy, Debug, PartialEq, Eq, Structural)]
pub enum AvatarTypeConfig {
    R6,
    R15,
    PlayerChoice,
}

/// Settings of an experience; a field left `None` is left unchanged.
pub struct ExperienceTemplateConfig {
    pub genre: Option<GenreConfig>,
    pub playable_devices: Option<Vec<ExperiencePlayableDevice>>,
    pub icon: Option<String>,
    pub thumbnails: Option<Vec<String>>,
    pub playability: Option<PlayabilityConfig>,
    pub paid_access_price: Option<u32>,
    pub private_server_price: Option<u32>,
    pub enable_studio_access_to_apis: Option<bool>,
    pub allow_third_party_sales: Option<bool>,
    pub allow_third_party_teleports: Option<bool>,
    pub avatar_type: Option<AvatarTypeConfig>,
    pub avatar_animation_type: Option<ExperienceAnimationType>,
    pub avatar_collision_type: Option<ExperienceCollisionType>,
}

/// How the servers of a place are filled, as the project says it.
#[derive(Clone, Copy, Debug, PartialEq, Eq, Structural)]
pub enum ServerFillConfig {
    RobloxOptimized,
    Maximum,
    ReservedSlots(u32),
}

/// Settings of a place; a field left `None` is left unchanged.
pub struct PlaceTemplateConfig {
    pub name: Option<String>,
    pub description: Option<String>,
    pub max_player_count: Option<u32>,
    pub allow_copying: Option<bool>,
    pub server_fill: Option<ServerFillConfig>,
}

/// The API genre that a configured genre stands for.
pub open spec fn genre_of(genre: GenreConfig) -> ExperienceGenre {
    match genre {
        GenreConfig::All => ExperienceGenre::All,
        GenreConfig::Adventure => ExperienceGenre::Adventure,
        GenreConfig::Building => ExperienceGenre::Tutorial,
        GenreConfig::Comedy => ExperienceGenre::Funny,
        GenreConfig::Fighting => ExperienceGenre::Ninja,
        GenreConfig::Fps => ExperienceGenre::Fps,
        GenreConfig::Horror => ExperienceGenre::Scary,
        GenreConfig::Medieval => ExperienceGenre::Fantasy,
        GenreConfig::Military => ExperienceGenre::War,
        GenreConfig::Naval => ExperienceGenre::Pirate,
        GenreConfig::Rpg => ExperienceGenre::Rpg,
        GenreConfig::SciFi => ExperienceGenre::SciFi,
        GenreConfig::Sports => ExperienceGenre::Sports,
        GenreConfig::TownAndCity => ExperienceGenre::TownAndCity,
        GenreConfig::Western => ExperienceGenre::WildWest,
    }
}

/// The API avatar type that a configured avatar type stands for.
pub open spec fn avatar_type_of(avatar: AvatarTypeConfig) -> ExperienceAvatarType {
    match avatar {
        AvatarTypeConfig::R6 => ExperienceAvatarType::MorphToR6,
        AvatarTypeConfig::R15 => ExperienceAvatarType::MorphToR15,
        AvatarTypeConfig::PlayerChoice => ExperienceAvatarType::PlayerChoice,
    }
}

/// Whether the experience is limited to friends: set only for the friends and
/// public playabilities; a private experience leaves it unchanged.
pub open spec fn friends_only_of(playability: Option<PlayabilityConfig>) -> Option<bool> {
    match playability {
        Some(PlayabilityConfig::Friends) => Some(true),
        Some(PlayabilityConfig::Public) => Some(false),
        _ => None,
    }
}

/// A configured price turns the priced feature on; no price leaves it unchanged.
pub open spec fn enabled_by_price(price: Option<u32>) -> Option<bool> {
    match price {
        Some(_) => Some(true),
        None => None,
    }
}

/// The third-party permissions: none when neither of them is configured.
pub open spec fn permissions_of(sales: Option<bool>, teleports: Option<bool>) -> Option<
    ExperiencePermissionsModel,
> {
    if sales is None && teleports is None {
        None
    } else {
        Some(
            ExperiencePermissionsModel {
                is_third_party_purchase_allowed: sales,
                is_third_party_teleport_allowed: teleports,
            },
        )
    }
}

/// The experience configuration that an experience template asks for.
pub open spec fn experience_configuration(config: ExperienceTemplateConfig) -> ExperienceConfigurationView {
    ExperienceConfigurationView {
        genre: match config.genre {
            Some(g) => Some(genre_of(g)),
            None => None,
        },
        playable_devices: match config.playable_devices {
            Some(d) => Some(d@),
            None => None,
        },
        is_friends_only: friends_only_of(config.playability),
        allow_private_servers: enabled_by_price(config.private_server_price),
        private_server_price: config.private_server_price,
        is_for_sale: enabled_by_price(config.paid_access_price),
        price: config.paid_access_price,
        studio_access_to_apis_allowed: config.enable_studio_access_to_apis,
        permissions: permissions_of(config.allow_third_party_sales, config.allow_third_party_teleports),
        universe_avatar_type: match config.avatar_type {
            Some(a) => Some(avatar_type_of(a)),
            None => None,
        },
        universe_animation_type: config.avatar_animation_type,
        universe_collision_type: config.avatar_collision_type,
    }
}

/// The social slot type that a server fill stands for.
pub open spec fn social_slot_type_of(fill: ServerFillConfig) -> SocialSlotType {
    match fill {
        ServerFillConfig::RobloxOptimized => SocialSlotType::Automatic,
        ServerFillConfig::Maximum => SocialSlotType::Empty,
        ServerFillConfig::ReservedSlots(_) => SocialSlotType::Custom,
    }
}

/// The place configuration that a place template asks for.
pub open spec fn place_configuration(config: PlaceTemplateConfig) -> PlaceConfigurationView {
    PlaceConfigurationView {
        name: option_string_view(config.name),
        description: option_string_view(config.description),
        max_player_count: config.max_player_count,
        allow_copying: config.allow_copying,
        social_slot_type: match config.server_fill {
            Some(f) => Some(social_slot_type_of(f)),
            None => None,
        },
        custom_social_slot_count: match config.server_fill {
            Some(ServerFillConfig::ReservedSlots(count)) => Some(count),
            _ => None,
        },
    }
}

fn copy_devices(devices: &Vec<ExperiencePlayableDevice>) -> (r: Vec<ExperiencePlayableDevice>)
    ensures
        r@ == devices@,
{
    let mut r: Vec<ExperiencePlayableDevice> = Vec::new();
    let mut i: usize = 0;
    while i < devices.len()
        invariant
            i <= devices.len(),
            r@ == devices@.subrange(0, i as int),
        decreases devices.len() - i,
    {
        r.push(devices[i]);
        i = i + 1;
    }
    assert(devices@.subrange(0, devices.len() as int) =~= devices@);
    r
}

fn copy_text(s: &Option<String>) -> (r: Option<String>)
    ensures
        option_string_view(r) == option_string_view(*s),
{
    match s {
        Some(s) => Some(s.clone()),
        None => None,
    }
}

impl ExperienceConfigurationModel {
    /// The experience configuration that an experience template asks for.
    pub fn from(config: &ExperienceTemplateConfig) -> (r: Self)
        ensures
            r@ == experience_configuration(*config),
            r.genre is Some <==> config.genre is Some,
            config.genre matches Some(g) ==> r.genre == Some(genre_of(g)),
            option_vec_view(r.playable_devices) == option_vec_view(config.playable_devices),
            r.is_friends_only == (match config.playability {
                Some(PlayabilityConfig::Friends) => Some(true),
                Some(PlayabilityConfig::Public) => Some(false),
                _ => None,
            }),
            r.is_for_sale == (if config.paid_access_price is Some {
                Some(true)
            } else {
                None
            }),
            r.price == config.paid_access_price,
            r.allow_private_servers == (if config.private_server_price is Some {
                Some(true)
            } else {
                None
            }),
            r.private_server_price == config.private_server_price,
            r.studio_access_to_apis_allowed == config.enable_studio_access_to_apis,
            r.permissions is None <==> (config.allow_third_party_sales is None
                && config.allow_third_party_teleports is None),
            r.permissions matches Some(p) ==> (p.is_third_party_purchase_allowed
                == config.allow_third_party_sales && p.is_third_party_teleport_allowed
                == config.allow_third_party_teleports),
            r.universe_avatar_type is Some <==> config.avatar_type is Some,
            config.avatar_type matches Some(a) ==> r.universe_avatar_type == Some(avatar_type_of(a)),
            r.universe_animation_type == config.avatar_animation_type,
            r.universe_collision_type == config.avatar_collision_type,
    {
        ExperienceConfigurationModel {
            genre: match config.genre {
                Some(GenreConfig::All) => Some(ExperienceGenre::All),
                Some(GenreConfig::Adventure) => Some(ExperienceGenre::Adventure),
                Some(GenreConfig::Building) => Some(ExperienceGenre::Tutorial),
                Some(GenreConfig::Comedy) => Some(ExperienceGenre::Funny),
                Some(GenreConfig::Fighting) => Some(ExperienceGenre::Ninja),
                Some(GenreConfig::Fps) => Some(ExperienceGenre::Fps),
                Some(GenreConfig::Horror) => Some(ExperienceGenre::Scary),
                Some(GenreConfig::Medieval) => Some(ExperienceGenre::Fantasy),
                Some(GenreConfig::Military) => Some(ExperienceGenre::War),
                Some(GenreConfig::Naval) => Some(ExperienceGenre::Pirate),
                Some(GenreConfig::Rpg) => Some(ExperienceGenre::Rpg),
                Some(GenreConfig::SciFi) => Some(ExperienceGenre::SciFi),
                Some(GenreConfig::Sports) => Some(ExperienceGenre::Sports),
                Some(GenreConfig::TownAndCity) => Some(ExperienceGenre::TownAndCity),
                Some(GenreConfig::Western) => Some(ExperienceGenre::WildWest),
                None => None,
            },
            playable_devices: match &config.playable_devices {
                Some(devices) => Some(copy_devices(devices)),
                None => None,
            },
            is_friends_only: match config.playability {
                Some(PlayabilityConfig::Friends) => Some(true),
                Some(PlayabilityConfig::Public) => Some(false),
                _ => None,
            },
            is_for_sale: match config.paid_access_price {
                Some(_) => Some(true),
                _ => None,
            },
            price: config.paid_access_price,
            allow_private_servers: match config.private_server_price {
                Some(_) => Some(true),
                _ => None,
            },
            private_server_price: config.private_server_price,
            studio_access_to_apis_allowed: config.enable_studio_access_to_apis,
            permissions: match (config.allow_third_party_sales, config.allow_third_party_teleports) {
                (None, None) => None,
                (allow_third_party_sales, allow_third_party_teleports) => {
                    Some(
                        ExperiencePermissionsModel {
                            is_third_party_purchase_allowed: allow_third_party_sales,
                            is_third_party_teleport_allowed: allow_third_party_teleports,
                        },
                    )
                },
            },
            universe_avatar_type: match config.avatar_type {
                Some(AvatarTypeConfig::R6) => Some(ExperienceAvatarType::MorphToR6),
                Some(AvatarTypeConfig::R15) => Some(ExperienceAvatarType::MorphToR15),
                Some(AvatarTypeConfig::PlayerChoice) => Some(ExperienceAvatarType::PlayerChoice),
                None => None,
            },
            universe_animation_type: config.avatar_animation_type,
            universe_collision_type: config.avatar_collision_type,
        }
    }
}

impl PlaceConfigurationModel {
    /// The place configuration that a place template asks for.
    pub fn from(config: &PlaceTemplateConfig) -> (r: Self)
        ensures
            r@ == place_configuration(*config),
            option_string_view(r.name) == option_string_view(config.name),
            option_string_view(r.description) == option_string_view(config.description),
            r.max_player_count == config.max_player_count,
            r.allow_copying == config.allow_copying,
            r.social_slot_type is None <==> config.server_fill is None,
            config.server_fill matches Some(f) ==> r.social_slot_type == Some(social_slot_type_of(f)),
            r.custom_social_slot_count == (match config.server_fill {
                Some(ServerFillConfig::ReservedSlots(count)) => Some(count),
                _ => None,
            }),
    {
        PlaceConfigurationModel {
            name: copy_text(&config.name),
            description: copy_text(&config.description),
            max_player_count: config.max_player_count,
            allow_copying: config.allow_copying,
            social_slot_type: match config.server_fill {
                Some(ServerFillConfig::RobloxOptimized) => Some(SocialSlotType::Automatic),
                Some(ServerFillConfig::Maximum) => Some(SocialSlotType::Empty),
                Some(ServerFillConfig::ReservedSlots(_)) => Some(SocialSlotType::Custom),
                None => None,
            },
            custom_social_slot_count: match config.server_fill {
                Some(ServerFillConfig::ReservedSlots(count)) => Some(count),
                _ => None,
            },
        }
    }
}

/// Distinct configured genres stand for distinct API genres: no genre of the
/// project is lost in translation.
pub proof fn lemma_genre_translation_injective(a: GenreConfig, b: GenreConfig)
    ensures
        genre_of(a) == genre_of(b) ==> a == b,
{
}

/// Distinct configured avatar types stand for distinct API avatar types.
pub proof fn lemma_avatar_type_translation_injective(a: AvatarTypeConfig, b: AvatarTypeConfig)
    ensures
        avatar_type_of(a) == avatar_type_of(b) ==> a == b,
{
}

/// An experience is put on sale exactly when a price for paid access is
/// configured, and private servers are allowed exactly when they are priced;
/// neither is ever switched off, and the prices are passed on as configured.
pub proof fn lemma_prices_enable_sales(config: ExperienceTemplateConfig)
    ensures
        experience_configuration(config).is_for_sale == (if config.paid_access_price is Some {
            Some(true)
        } else {
            None
        }),
        experience_configuration(config).allow_private_servers == (
        if config.private_server_price is Some {
            Some(true)
        } else {
            None
        }),
        experience_configuration(config).price == config.paid_access_price,
        experience_configuration(config).private_server_price == config.private_server_price,
{
}

/// Third-party permissions are sent exactly when one of them is configured,
/// and then carry both settings as configured.
pub proof fn lemma_permissions_follow_settings(config: ExperienceTemplateConfig)
    ensures
        experience_configuration(config).permissions is None <==> (config.allow_third_party_sales is None
            && config.allow_third_party_teleports is None),
        experience_configuration(config).permissions matches Some(p) ==> (
        p.is_third_party_purchase_allowed == config.allow_third_party_sales
            && p.is_third_party_teleport_allowed == config.allow_third_party_teleports),
{
}

/// Only the friends and public playabilities decide whether an experience is
/// limited to friends; a private experience, or none configured, leaves it as it is.
pub proof fn lemma_playability_sets_friends_only(config: ExperienceTemplateConfig)
    ensures
        experience_configuration(config).is_friends_only == Some(true) <==> config.playability
            == Some(PlayabilityConfig::Friends),
        experience_configuration(config).is_friends_only == Some(false) <==> config.playability
            == Some(PlayabilityConfig::Public),
        experience_configuration(config).is_friends_only is None <==> (config.playability is None
            || config.playability == Some(PlayabilityConfig::Private)),
{
}

/// A place gets a custom slot count exactly when its servers are filled with
/// reserved slots, and its slot type is then custom.
pub proof fn lemma_custom_slots_follow_server_fill(config: PlaceTemplateConfig)
    ensures
        place_configuration(config).custom_social_slot_count is Some <==> config.server_fill matches Some(
            ServerFillConfig::ReservedSlots(_),
        ),
        place_configuration(config).custom_social_slot_count is Some ==> place_configuration(
            config,
        ).social_slot_type == Some(SocialSlotType::Custom),
        place_configuration(config).social_slot_type is None <==> config.server_fill is None,
{
}

/// The experience settings that the API takes as they are configured are
/// passed on unchanged: devices, prices, studio access to APIs, animation and
/// collision types; genre and avatar type are sent exactly when configured.
pub proof fn lemma_experience_settings_pass_through(config: ExperienceTemplateConfig)
    ensures
        experience_configuration(config).playable_devices == option_vec_view(config.playable_devices),
        experience_configuration(config).price == config.paid_access_price,
        experience_configuration(config).private_server_price == config.private_server_price,
        experience_configuration(config).studio_access_to_apis_allowed
            == config.enable_studio_access_to_apis,
        experience_configuration(config).universe_animation_type == config.avatar_animation_type,
        experience_configuration(config).universe_collision_type == config.avatar_collision_type,
        experience_configuration(config).genre is Some <==> config.genre is Some,
        experience_configuration(config).universe_avatar_type is Some <==> config.avatar_type is Some,
{
}

/// The place settings that the API takes as they are configured are passed on
/// unchanged: name, description, player limit and whether copying is allowed;
/// a social slot type is sent exactly when a server fill is configured.
pub proof fn lemma_place_settings_pass_through(config: PlaceTemplateConfig)
    ensures
        place_configuration(config).name == option_string_view(config.name),
        place_configuration(config).description == option_string_view(config.description),
        place_configuration(config).max_player_count == config.max_player_count,
        place_configuration(config).allow_copying == config.allow_copying,
        place_configuration(config).social_slot_type is None <==> config.server_fill is None,
{
}

} // verus!
