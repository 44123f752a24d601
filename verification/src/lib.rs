//! Client-side logic of the Hoppin World game's online services: the
//! requests sent to the score server, how its replies update the player's
//! session, and what the game shows on the player's Discord profile.

pub mod auth;
pub mod header;
pub mod json;
pub mod laws;
pub mod presence;
pub mod request;
