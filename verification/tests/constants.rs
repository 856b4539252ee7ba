use quotebot::constants::get_intents;
use quotebot::constants::INTENT_GUILDS;
use quotebot::constants::INTENT_GUILD_MEMBERS;
use quotebot::constants::INTENT_GUILD_MESSAGES;
use quotebot::constants::INTENT_MESSAGE_CONTENT;

#[test]
fn intent_bits_match_the_gateway_protocol() {
    assert_eq!(INTENT_GUILDS, 1u64 << 0);
    assert_eq!(INTENT_GUILD_MEMBERS, 1u64 << 1);
    assert_eq!(INTENT_GUILD_MESSAGES, 1u64 << 9);
    assert_eq!(INTENT_MESSAGE_CONTENT, 1u64 << 15);
}

#[test]
fn intents_are_the_union_of_the_four_categories() {
    let intents = get_intents();
    assert_eq!(intents, 0x8203);
    assert_eq!(intents & INTENT_GUILDS, INTENT_GUILDS);
    assert_eq!(intents & INTENT_GUILD_MEMBERS, INTENT_GUILD_MEMBERS);
    assert_eq!(intents & INTENT_GUILD_MESSAGES, INTENT_GUILD_MESSAGES);
    assert_eq!(intents & INTENT_MESSAGE_CONTENT, INTENT_MESSAGE_CONTENT);
    assert_eq!(
        intents,
        INTENT_GUILDS | INTENT_GUILD_MEMBERS | INTENT_GUILD_MESSAGES | INTENT_MESSAGE_CONTENT
    );
}
