//! Decides which messages of a chat gateway are published ("crossposted")
//! from announcement channels, and how each attempt ends.
mod announce;
mod intents;
mod runs;
mod text;

pub use announce::{
    classify_failure, is_permission_text, next, opt_out_marker, opts_out, severity,
    should_crosspost, step, topic_opts_out, Action, ChannelFacts, ChannelKind, Event,
    MessageFacts, Outcome, Severity, Stage,
};
pub use intents::{get_intents, intent_bits, GUILDS_BIT, GUILD_MESSAGES_BIT};
pub use runs::{
    crosspost_count, lemma_at_most_one_crosspost, lemma_automated_author_never_published,
    lemma_direct_message_never_published, lemma_eligible_published_once,
    lemma_finished_is_quiet, lemma_opted_out_never_published,
    lemma_other_channel_never_published, lemma_publishing_is_quiet, lemma_run_follows_rule,
};
pub use text::{contains_seq, contains_str};
