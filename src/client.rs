use vstd::prelude::*;
use crate::connection::{Connection, Phase};

verus! {

/// The gateway endpoint, with the protocol version and the JSON encoding.
pub const DISCORD_GATEWAY_URL: &'static str = "wss://gateway.discord.gg/?v=10&encoding=json";

/// The credentials a client identifies with.
pub struct Client {
    pub token: String,
    pub intents: u64,
}

/// A gateway client; each connection it opens identifies with its credentials.
pub struct DiscordWsClient {
    pub client: Client,
}

impl DiscordWsClient {
    pub fn new(token: String, intents: u64) -> (r: DiscordWsClient)
        ensures
            r.client.token@ == token@,
            r.client.intents == intents,
    {
        DiscordWsClient { client: Client { token, intents } }
    }

    /// The protocol state of a new connection of this client, before its
    /// transport opens.
    pub fn new_connection(&self) -> (c: Connection)
        ensures
            c.spec_phase() == Phase::Connecting,
            c.spec_token() == self.client.token@,
            c.spec_intents() == self.client.intents as nat,
    {
        Connection::new(self.client.token.clone(), self.client.intents)
    }
}

} // verus!
