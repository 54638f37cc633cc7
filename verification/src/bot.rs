//! The bot as a whole: its HTTP endpoint and command handler.

use vstd::prelude::*;
use crate::handler::InteractionHandler;
use crate::http::HttpHandler;
use crate::response::BotConfig;
use crate::signature::{InvalidKey, ed25519_public_key_valid};

verus! {

/// The parts of the bot that decide: the HTTP endpoint, the command
/// handler, and the token the command handler talks to Discord with.
pub struct App {
    pub http: HttpHandler,
    pub interaction: InteractionHandler,
    pub discord_token: String,
}

impl App {
    /// Sets the bot up; fails exactly when the public key is no valid
    /// Ed25519 public key.
    pub fn new(discord_token: String, public_key: [u8; 32], config: BotConfig) -> (res: Result<App, InvalidKey>)
        ensures
            res is Ok <==> ed25519_public_key_valid(public_key@),
            res matches Ok(app) ==> {
                &&& app.http.verification_key.key_bytes() == public_key@
                &&& app.http.config == config
                &&& app.interaction.config == config
                &&& app.discord_token@ == discord_token@
            },
    {
        let http = match HttpHandler::new(public_key, config) {
            Ok(h) => h,
            Err(e) => return Err(e),
        };
        Ok(App { http, interaction: InteractionHandler::new(config), discord_token })
    }
}

} // verus!
