//! The chat-event handler and its gateway registration.
//!
//! The chat shell loads its bot token and guild identifier at startup,
//! failing fast when one is absent, and registers one event handler with the
//! external gateway client, asking for the guild-messages and
//! message-content intents. The handler reacts to two notifications: on
//! "ready" it emits exactly one informational log line, and on "message" it
//! faults unconditionally, since that path is deliberately unimplemented.
//! The gateway connection itself belongs to the external client; this module
//! only decides what each notification produces.

use vstd::prelude::*;

use crate::config::ConfigError;
use crate::config::get_required;
use crate::secrets::SecretStore;

verus! {

/// The chat-event handler. It is stateless but for the guild identifier
/// captured at construction, which current logic does not read.
pub struct Bot {
    pub guild_id: String,
}

/// A fault of one handler invocation. It ends that invocation, not
/// necessarily the process.
#[derive(Debug, Clone, Copy, PartialEq, Eq, Structural)]
pub enum HandlerFault {
    /// The invoked path is deliberately unimplemented.
    Unimplemented,
}

/// The capability flags requested from the chat gateway; they restrict which
/// event categories are delivered to the handler.
#[derive(Debug, Clone, Copy, PartialEq, Eq, Structural)]
pub struct GatewayIntents {
    pub guild_messages: bool,
    pub message_content: bool,
}

/// The one log line the handler emits when the gateway reports readiness.
pub open spec fn ready_log_line() -> Seq<char> {
    "The bot has successfully started and is now listening events..."@
}

impl Bot {
    /// Reaction to the gateway's "ready" notification: exactly one
    /// informational log emission, and nothing else. The handler is borrowed
    /// immutably, so no state changes.
    pub fn ready(&self) -> (logs: Vec<String>)
        ensures
            logs@.len() == 1,
            logs@[0]@ == ready_log_line(),
    {
        let mut logs: Vec<String> = Vec::new();
        logs.push("The bot has successfully started and is now listening events...".to_owned());
        logs
    }

    /// Reaction to an inbound "message" notification: this path is
    /// deliberately unimplemented, so every invocation faults, whatever the
    /// message holds.
    pub fn message(&self, _message: &str) -> (r: Result<(), HandlerFault>)
        ensures
            r == Err::<(), HandlerFault>(HandlerFault::Unimplemented),
    {
        Err(HandlerFault::Unimplemented)
    }
}

/// The startup result of the chat shell: the bot token, the requested
/// intents, and the one registered event handler, ready to be handed to the
/// external gateway client.
pub struct ChatRegistration {
    pub token: String,
    pub intents: GatewayIntents,
    pub handler: Bot,
}

/// Startup of the chat shell.
///
/// Loads the two required secrets, the bot token first, failing fast on the
/// first absent one; only then constructs the event handler, which captures
/// the guild identifier, and requests the guild-messages and message-content
/// intents.
pub fn chat_startup(store: &SecretStore) -> (r: Result<ChatRegistration, ConfigError>)
    ensures
        (store@.contains_key("DISCORD_TOKEN"@) && store@.contains_key("GUILD_ID"@)) <==> r is Ok,
        r matches Ok(reg) ==> reg.token@ == store@["DISCORD_TOKEN"@] && reg.handler.guild_id@
            == store@["GUILD_ID"@] && reg.intents.guild_messages && reg.intents.message_content,
        r matches Err(e) ==> !store@.contains_key(e.spec_key()) && (e.spec_key()
            == "DISCORD_TOKEN"@ || (store@.contains_key("DISCORD_TOKEN"@) && e.spec_key()
            == "GUILD_ID"@)),
{
    let token = match get_required(store, "DISCORD_TOKEN") {
        Ok(value) => value,
        Err(e) => {
            return Err(e);
        },
    };
    let guild_id = match get_required(store, "GUILD_ID") {
        Ok(value) => value,
        Err(e) => {
            return Err(e);
        },
    };
    let intents = GatewayIntents { guild_messages: true, message_content: true };
    Ok(ChatRegistration { token, intents, handler: Bot { guild_id } })
}

} // verus!
