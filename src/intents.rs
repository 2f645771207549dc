use vstd::prelude::*;

use serenity::model::gateway::GatewayIntents;

verus! {

#[verifier::external_type_specification]
#[verifier::external_body]
pub struct ExGatewayIntents(GatewayIntents);

/// The raw bits of a set of gateway intents: the flags it holds.
pub uninterp spec fn intent_bits(i: GatewayIntents) -> u64;

/// Bit of the guild metadata intent.
pub const GUILDS_BIT: u64 = 1;

/// Bit of the guild message intent.
pub const GUILD_MESSAGES_BIT: u64 = 512;

/// Relies on serenity's GatewayIntents::empty (bitflags): a set with no bits.
pub assume_specification[ GatewayIntents::empty ]() -> (r: GatewayIntents)
    ensures
        intent_bits(r) == 0,
;

/// Relies on serenity's GatewayIntents::insert (bitflags): the bits of
/// `other` are or-ed into the set.
pub assume_specification[ GatewayIntents::insert ](
    intents: &mut GatewayIntents,
    other: GatewayIntents,
)
    ensures
        intent_bits(*final(intents)) == intent_bits(*old(intents)) | intent_bits(other),
;

/// Relies on serenity's GatewayIntents::GUILDS, declared `1`.
#[verifier::external_body]
fn guilds() -> (r: GatewayIntents)
    ensures
        intent_bits(r) == GUILDS_BIT,
{
    GatewayIntents::GUILDS
}

/// Relies on serenity's GatewayIntents::GUILD_MESSAGES, declared `1 << 9`.
#[verifier::external_body]
fn guild_messages() -> (r: GatewayIntents)
    ensures
        intent_bits(r) == GUILD_MESSAGES_BIT,
{
    GatewayIntents::GUILD_MESSAGES
}

/// The gateway subscription: guild metadata and guild messages, nothing else.
pub fn get_intents() -> (r: GatewayIntents)
    ensures
        intent_bits(r) == GUILDS_BIT | GUILD_MESSAGES_BIT,
{
    let mut intents = GatewayIntents::empty();
    intents.insert(guilds());
    intents.insert(guild_messages());
    assert(0u64 | GUILDS_BIT == GUILDS_BIT) by (bit_vector);
    intents
}

} // verus!
