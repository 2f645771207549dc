use vstd::prelude::*;

use crate::announce::{
    next, should_crosspost, topic_opts_out, Action, ChannelFacts, ChannelKind, Event,
    MessageFacts, Stage,
};

verus! {

/// How many publish requests the handling of a message issues when, from
/// `stage`, it is handed `events` in order.
pub open spec fn crosspost_count(stage: Stage, events: Seq<Event>) -> nat
    decreases events.len(),
{
    if events.len() == 0 {
        0
    } else {
        let (s, a) = next(stage, events[0]);
        (if a == Action::Crosspost {
            1nat
        } else {
            0nat
        }) + crosspost_count(s, events.drop_first())
    }
}

/// Unfolds one event of a run.
proof fn lemma_count_cons(stage: Stage, e: Event, rest: Seq<Event>)
    ensures
        crosspost_count(stage, seq![e] + rest) == (if next(stage, e).1 == Action::Crosspost {
            1nat
        } else {
            0nat
        }) + crosspost_count(next(stage, e).0, rest),
{
    assert((seq![e] + rest).drop_first() =~= rest);
    assert((seq![e] + rest)[0] == e);
}

/// Once finished, the handling of a message issues no publish request,
/// whatever events follow.
pub proof fn lemma_finished_is_quiet(events: Seq<Event>)
    ensures
        crosspost_count(Stage::Finished, events) == 0,
    decreases events.len(),
{
    if events.len() > 0 {
        lemma_finished_is_quiet(events.drop_first());
    }
}

/// While the publish request is pending, no further one is issued,
/// whatever events come.
pub proof fn lemma_publishing_is_quiet(events: Seq<Event>)
    ensures
        crosspost_count(Stage::Publishing, events) == 0,
    decreases events.len(),
{
    if events.len() > 0 {
        let (s, a) = next(Stage::Publishing, events[0]);
        if s == Stage::Finished {
            lemma_finished_is_quiet(events.drop_first());
        } else {
            lemma_publishing_is_quiet(events.drop_first());
        }
    }
}

/// While the channel is being resolved, at most one publish request
/// follows, whatever events come.
proof fn lemma_resolving_at_most_once(events: Seq<Event>)
    ensures
        crosspost_count(Stage::ResolvingChannel, events) <= 1,
    decreases events.len(),
{
    if events.len() > 0 {
        let (s, a) = next(Stage::ResolvingChannel, events[0]);
        if s == Stage::Finished {
            lemma_finished_is_quiet(events.drop_first());
        } else if s == Stage::Publishing {
            lemma_publishing_is_quiet(events.drop_first());
        } else {
            lemma_resolving_at_most_once(events.drop_first());
        }
    }
}

/// A message is published at most once, whatever events its handling is
/// handed, and in whatever order.
pub proof fn lemma_at_most_one_crosspost(events: Seq<Event>)
    ensures
        crosspost_count(Stage::Received, events) <= 1,
    decreases events.len(),
{
    if events.len() > 0 {
        let (s, a) = next(Stage::Received, events[0]);
        if s == Stage::Finished {
            lemma_finished_is_quiet(events.drop_first());
        } else if s == Stage::ResolvingChannel {
            lemma_resolving_at_most_once(events.drop_first());
        } else {
            lemma_at_most_one_crosspost(events.drop_first());
        }
    }
}

/// For a message and its channel, handled in order and followed by any
/// events at all, the number of publish requests is one when the filtering
/// rule admits the message and zero otherwise.
pub proof fn lemma_run_follows_rule(m: MessageFacts, c: ChannelFacts, rest: Seq<Event>)
    ensures
        crosspost_count(Stage::Received, seq![Event::Arrived(m), Event::ChannelResolved(c)] + rest)
            == if should_crosspost(m, c) {
            1nat
        } else {
            0nat
        },
{
    let e2 = Event::ChannelResolved(c);
    let tail = seq![e2] + rest;
    assert(seq![Event::Arrived(m), e2] + rest =~= seq![Event::Arrived(m)] + tail);
    lemma_count_cons(Stage::Received, Event::Arrived(m), tail);
    if m.is_private || m.author_bot {
        lemma_finished_is_quiet(tail);
    } else {
        lemma_count_cons(Stage::ResolvingChannel, e2, rest);
        if should_crosspost(m, c) {
            lemma_publishing_is_quiet(rest);
        } else {
            lemma_finished_is_quiet(rest);
        }
    }
}

/// A direct message is never published, whatever follows it.
pub proof fn lemma_direct_message_never_published(m: MessageFacts, rest: Seq<Event>)
    requires
        m.is_private,
    ensures
        crosspost_count(Stage::Received, seq![Event::Arrived(m)] + rest) == 0,
{
    lemma_count_cons(Stage::Received, Event::Arrived(m), rest);
    lemma_finished_is_quiet(rest);
}

/// A message by an automated account is never published, whatever its
/// channel and whatever follows it.
pub proof fn lemma_automated_author_never_published(m: MessageFacts, rest: Seq<Event>)
    requires
        m.author_bot,
    ensures
        crosspost_count(Stage::Received, seq![Event::Arrived(m)] + rest) == 0,
{
    lemma_count_cons(Stage::Received, Event::Arrived(m), rest);
    lemma_finished_is_quiet(rest);
}

/// A message in a channel that is not an announcement channel is never
/// published.
pub proof fn lemma_other_channel_never_published(
    m: MessageFacts,
    c: ChannelFacts,
    rest: Seq<Event>,
)
    requires
        c.kind != ChannelKind::News,
    ensures
        crosspost_count(Stage::Received, seq![Event::Arrived(m), Event::ChannelResolved(c)] + rest)
            == 0,
{
    lemma_run_follows_rule(m, c, rest);
}

/// A message in an announcement channel whose topic contains the opt-out
/// marker is never published.
pub proof fn lemma_opted_out_never_published(m: MessageFacts, c: ChannelFacts, rest: Seq<Event>)
    requires
        topic_opts_out(c.topic),
    ensures
        crosspost_count(Stage::Received, seq![Event::Arrived(m), Event::ChannelResolved(c)] + rest)
            == 0,
{
    lemma_run_follows_rule(m, c, rest);
}

/// A guild message by a human author, in an announcement channel without
/// the opt-out marker in its topic, is published exactly once.
pub proof fn lemma_eligible_published_once(m: MessageFacts, c: ChannelFacts, rest: Seq<Event>)
    requires
        !m.is_private,
        !m.author_bot,
        c.kind == ChannelKind::News,
        !topic_opts_out(c.topic),
    ensures
        crosspost_count(Stage::Received, seq![Event::Arrived(m), Event::ChannelResolved(c)] + rest)
            == 1,
{
    lemma_run_follows_rule(m, c, rest);
}

} // verus!
