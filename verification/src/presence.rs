use vstd::prelude::*;

verus! {

/// What the game shows on the player's Discord profile.
pub struct PresenceConfig {
    /// The game's application id at Discord.
    pub client_id: u64,
    /// The line that says where in the game the player is.
    pub state: String,
    pub large_image: Option<String>,
    pub large_text: Option<String>,
    pub small_image: Option<String>,
    pub small_text: Option<String>,
}

/// The game's application id at Discord.
pub const DISCORD_CLIENT_ID: u64 = 498979571933380609;

/// The presence shown while the player is in the main menu.
pub fn main_menu_presence() -> (config: PresenceConfig)
    ensures
        config.client_id == DISCORD_CLIENT_ID,
        config.state@ == "Main Menu"@,
        config.large_image is Some && config.large_image.unwrap()@ == "large_image"@,
        config.large_text is Some && config.large_text.unwrap()@ == "Hoppin World"@,
        config.small_image is None,
        config.small_text is None,
{
    PresenceConfig {
        client_id: DISCORD_CLIENT_ID,
        state: String::from_str("Main Menu"),
        large_image: Some(String::from_str("large_image")),
        large_text: Some(String::from_str("Hoppin World")),
        small_image: None,
        small_text: None,
    }
}

} // verus!
