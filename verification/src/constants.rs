//! The gateway intent bitmask the bot connects with.
//!
//! Intents are a bitmask-like configuration declaring which categories of
//! platform events the process wishes to receive. Each constant below is the
//! bit the platform's gateway protocol assigns to that event category.

use vstd::prelude::*;

verus! {

/// Events about guilds (servers) themselves.
pub const INTENT_GUILDS: u64 = 0x1;

/// Events about guild membership changes.
pub const INTENT_GUILD_MEMBERS: u64 = 0x2;

/// Events about messages sent in guilds.
pub const INTENT_GUILD_MESSAGES: u64 = 0x200;

/// Access to the textual content of messages.
pub const INTENT_MESSAGE_CONTENT: u64 = 0x8000;

/// The full set of intents this bot subscribes with.
pub open spec fn spec_intents() -> u64 {
    INTENT_GUILDS | INTENT_GUILD_MEMBERS | INTENT_GUILD_MESSAGES | INTENT_MESSAGE_CONTENT
}

/// Returns the intent bitmask used when establishing the gateway connection:
/// guilds, guild members, guild messages, and message content.
pub fn get_intents() -> (r: u64)
    ensures
        r == spec_intents(),
{
    INTENT_GUILDS | INTENT_GUILD_MEMBERS | INTENT_GUILD_MESSAGES | INTENT_MESSAGE_CONTENT
}

} // verus!
