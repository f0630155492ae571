use vstd::prelude::*;

verus! {

/// Whether an uploaded place version is published or only saved.
#[derive(Clone, Copy, Debug, PartialEq, Eq, Structural)]
pub enum DeployMode {
    Publish,
    Save,
}

impl DeployMode {
    /// The name under which the mode is shown to the user.
    pub open spec fn spec_name(self) -> Seq<char> {
        match self {
            DeployMode::Publish => "Publish"@,
            DeployMode::Save => "Save"@,
        }
    }

    /// The name under which the mode is shown to the user.
    pub fn name(&self) -> (r: &'static str)
        ensures
            r@ == self.spec_name(),
    {
        match self {
            DeployMode::Publish => "Publish",
            DeployMode::Save => "Save",
        }
    }
}

impl Default for DeployMode {
    /// A deployment publishes unless it says otherwise.
    fn default() -> (r: Self)
        ensures
            r == DeployMode::Publish,
    {
        DeployMode::Publish
    }
}

/// The genres that the Roblox API knows for an experience.
#[derive(Clone, Copy, Debug, PartialEq, Eq, Structural)]
pub enum ExperienceGenre {
    All,
    Adventure,
    Tutorial,
    Funny,
    Ninja,
    Fps,
    Scary,
    Fantasy,
    War,
    Pirate,
    Rpg,
    SciFi,
    Sports,
    TownAndCity,
    WildWest,
}

/// The devices on which an experience can be played.
#[derive(Clone, Copy, Debug, PartialEq, Eq, Structural)]
pub enum ExperiencePlayableDevice {
    Computer,
    Phone,
    Tablet,
    Console,
}

/// How avatars are presented in an experience.
#[derive(Clone, Copy, Debug, PartialEq, Eq, Structural)]
pub enum ExperienceAvatarType {
    MorphToR6,
    MorphToR15,
    PlayerChoice,
}

/// Which avatar animations an experience uses.
#[derive(Clone, Copy, Debug, PartialEq, Eq, Structural)]
pub enum ExperienceAnimationType {
    Standard,
    PlayerChoice,
}

/// How avatar collisions are computed in an experience.
#[derive(Clone, Copy, Debug, PartialEq, Eq, Structural)]
pub enum ExperienceCollisionType {
    OuterBox,
    InnerBox,
}

/// How the servers of a place are filled.
#[derive(Clone, Copy, Debug, PartialEq, Eq, Structural)]
pub enum SocialSlotType {
    Automatic,
    Empty,
    Custom,
}

/// Third-party permissions of an experience.
#[derive(Clone, Copy, Debug, PartialEq, Eq, Structural)]
pub struct ExperiencePermissionsModel {
    pub is_third_party_purchase_allowed: Option<bool>,
    pub is_third_party_teleport_allowed: Option<bool>,
}

/// The configuration of an experience as the Roblox API takes it; a field
/// left `None` is left unchanged.
#[derive(Debug)]
pub struct ExperienceConfigurationModel {
    pub genre: Option<ExperienceGenre>,
    pub playable_devices: Option<Vec<ExperiencePlayableDevice>>,
    pub is_friends_only: Option<bool>,
    pub allow_private_servers: Option<bool>,
    pub private_server_price: Option<u32>,
    pub is_for_sale: Option<bool>,
    pub price: Option<u32>,
    pub studio_access_to_apis_allowed: Option<bool>,
    pub permissions: Option<ExperiencePermissionsModel>,
    pub universe_avatar_type: Option<ExperienceAvatarType>,
    pub universe_animation_type: Option<ExperienceAnimationType>,
    pub universe_collision_type: Option<ExperienceCollisionType>,
}

/// An `ExperienceConfigurationModel` with its list of devices as a sequence.
pub struct ExperienceConfigurationView {
    pub genre: Option<ExperienceGenre>,
    pub playable_devices: Option<Seq<ExperiencePlayableDevice>>,
    pub is_friends_only: Option<bool>,
    pub allow_private_servers: Option<bool>,
    pub private_server_price: Option<u32>,
    pub is_for_sale: Option<bool>,
    pub price: Option<u32>,
    pub studio_access_to_apis_allowed: Option<bool>,
    pub permissions: Option<ExperiencePermissionsModel>,
    pub universe_avatar_type: Option<ExperienceAvatarType>,
    pub universe_animation_type: Option<ExperienceAnimationType>,
    pub universe_collision_type: Option<ExperienceCollisionType>,
}

/// The sequence held by an optional vector.
pub open spec fn option_vec_view<T>(v: Option<Vec<T>>) -> Option<Seq<T>> {
    match v {
        Some(v) => Some(v@),
        None => None,
    }
}

/// The text held by an optional string.
pub open spec fn option_string_view(s: Option<String>) -> Option<Seq<char>> {
    match s {
        Some(s) => Some(s@),
        None => None,
    }
}

impl View for ExperienceConfigurationModel {
    type V = ExperienceConfigurationView;

    open spec fn view(&self) -> ExperienceConfigurationView {
        ExperienceConfigurationView {
            genre: self.genre,
            playable_devices: option_vec_view(self.playable_devices),
            is_friends_only: self.is_friends_only,
            allow_private_servers: self.allow_private_servers,
            private_server_price: self.private_server_price,
            is_for_sale: self.is_for_sale,
            price: self.price,
            studio_access_to_apis_allowed: self.studio_access_to_apis_allowed,
            permissions: self.permissions,
            universe_avatar_type: self.universe_avatar_type,
            universe_animation_type: self.universe_animation_type,
            universe_collision_type: self.universe_collision_type,
        }
    }
}

/// The configuration of a place as the Roblox API takes it; a field left
/// `None` is left unchanged.
#[derive(Debug)]
pub struct PlaceConfigurationModel {
    pub name: Option<String>,
    pub description: Option<String>,
    pub max_player_count: Option<u32>,
    pub allow_copying: Option<bool>,
    pub social_slot_type: Option<SocialSlotType>,
    pub custom_social_slot_count: Option<u32>,
}

/// A `PlaceConfigurationModel` with its strings as text.
pub struct PlaceConfigurationView {
    pub name: Option<Seq<char>>,
    pub description: Option<Seq<char>>,
    pub max_player_count: Option<u32>,
    pub allow_copying: Option<bool>,
    pub social_slot_type: Option<SocialSlotType>,
    pub custom_social_slot_count: Option<u32>,
}

impl View for PlaceConfigurationModel {
    type V = PlaceConfigurationView;

    open spec fn view(&self) -> PlaceConfigurationView {
        PlaceConfigurationView {
            name: option_string_view(self.name),
            description: option_string_view(self.description),
            max_player_count: self.max_player_count,
            allow_copying: self.allow_copying,
            social_slot_type: self.social_slot_type,
            custom_social_slot_count: self.custom_social_slot_count,
        }
    }
}

} // verus!
