use vstd::prelude::*;

use crate::text::{contains_seq, contains_str};

verus! {

/// What the handler reads of an incoming message.
#[derive(Clone, Copy, Debug, PartialEq, Eq, Structural)]
pub struct MessageFacts {
    /// The message was sent outside a guild (a direct message).
    pub is_private: bool,
    /// The author is an automated (bot) account.
    pub author_bot: bool,
}

/// The category of a guild channel, as far as publishing cares.
#[derive(Clone, Copy, Debug, PartialEq, Eq, Structural)]
pub enum ChannelKind {
    Text,
    Voice,
    Category,
    News,
    Stage,
    Other,
}

/// What the handler reads of the channel a message was posted in.
#[derive(Debug)]
pub struct ChannelFacts {
    pub kind: ChannelKind,
    /// The channel's topic, when it has one.
    pub topic: Option<String>,
}

/// How the handling of one message ended.
#[derive(Clone, Copy, Debug, PartialEq, Eq, Structural)]
pub enum Outcome {
    /// A direct message: nothing to publish.
    DirectMessage,
    /// Sent by an automated account: left alone to avoid feedback loops.
    AutomatedAuthor,
    /// The channel is not an announcement channel.
    NotAnnouncement,
    /// The channel's topic carries the opt-out marker.
    OptedOut,
    /// The channel could not be resolved to a guild channel.
    ChannelUnavailable,
    /// The message was published.
    Published,
    /// Publishing was refused for lack of permission or access.
    PermissionDenied,
    /// Publishing failed for another reason.
    Failed,
}

/// Where the handling of one message stands.
#[derive(Clone, Copy, Debug, PartialEq, Eq, Structural)]
pub enum Stage {
    /// Waiting for the message itself.
    Received,
    /// Waiting for the message's channel to be resolved.
    ResolvingChannel,
    /// Waiting for the answer to the publish request.
    Publishing,
    /// Done; later events change nothing.
    Finished,
}

/// What the gateway client reports back to the handler.
#[derive(Debug)]
pub enum Event {
    /// A message came in.
    Arrived(MessageFacts),
    /// The message's channel was resolved to a guild channel.
    ChannelResolved(ChannelFacts),
    /// The message's channel could not be resolved to a guild channel.
    ChannelUnresolved,
    /// The publish request returned; an error carries its text.
    Crossposted(Result<(), String>),
}

/// What the handler asks the gateway client to do next.
#[derive(Clone, Copy, Debug, PartialEq, Eq, Structural)]
pub enum Action {
    /// Resolve the channel of the message.
    ResolveChannel,
    /// Publish (crosspost) the message.
    Crosspost,
    /// Stop handling the message, which ended as given.
    Finish(Outcome),
    /// The event does not fit the stage; keep waiting.
    Wait,
}

/// Level at which an outcome is logged.
#[derive(Clone, Copy, Debug, PartialEq, Eq, Structural)]
pub enum Severity {
    Debug,
    Error,
}

/// The topic text by which a channel opts out of publishing.
pub open spec fn opt_out_marker() -> Seq<char> {
    "DisableAnnounce"@
}

/// A channel opts out when its topic contains the marker, case-sensitively.
/// A channel without a topic does not opt out.
pub open spec fn topic_opts_out(topic: Option<String>) -> bool {
    match topic {
        Some(t) => contains_seq(t@, opt_out_marker()),
        None => false,
    }
}

/// Error text that reports a lack of permission or access.
pub open spec fn is_permission_text(text: Seq<char>) -> bool {
    contains_seq(text, "Permissions"@) || contains_seq(text, "Access"@)
}

/// The filtering rule: a message is published exactly when it is a guild
/// message by a human author, in an announcement channel that does not opt out.
pub open spec fn should_crosspost(m: MessageFacts, c: ChannelFacts) -> bool {
    !m.is_private && !m.author_bot && c.kind == ChannelKind::News && !topic_opts_out(c.topic)
}

/// One transition of the handling of a message: the next stage and the
/// action to take. An event that does not fit the stage changes nothing.
pub open spec fn next(stage: Stage, event: Event) -> (Stage, Action) {
    match stage {
        Stage::Received => match event {
            Event::Arrived(m) => if m.is_private {
                (Stage::Finished, Action::Finish(Outcome::DirectMessage))
            } else if m.author_bot {
                (Stage::Finished, Action::Finish(Outcome::AutomatedAuthor))
            } else {
                (Stage::ResolvingChannel, Action::ResolveChannel)
            },
            _ => (stage, Action::Wait),
        },
        Stage::ResolvingChannel => match event {
            Event::ChannelResolved(c) => if c.kind != ChannelKind::News {
                (Stage::Finished, Action::Finish(Outcome::NotAnnouncement))
            } else if topic_opts_out(c.topic) {
                (Stage::Finished, Action::Finish(Outcome::OptedOut))
            } else {
                (Stage::Publishing, Action::Crosspost)
            },
            Event::ChannelUnresolved => (
                Stage::Finished,
                Action::Finish(Outcome::ChannelUnavailable),
            ),
            _ => (stage, Action::Wait),
        },
        Stage::Publishing => match event {
            Event::Crossposted(Ok(())) => (Stage::Finished, Action::Finish(Outcome::Published)),
            Event::Crossposted(Err(text)) => if is_permission_text(text@) {
                (Stage::Finished, Action::Finish(Outcome::PermissionDenied))
            } else {
                (Stage::Finished, Action::Finish(Outcome::Failed))
            },
            _ => (stage, Action::Wait),
        },
        Stage::Finished => (stage, Action::Wait),
    }
}

/// Whether a channel topic opts the channel out of publishing.
pub fn opts_out(topic: &Option<String>) -> (r: bool)
    ensures
        r == topic_opts_out(*topic),
{
    match topic {
        Some(t) => contains_str(t.as_str(), "DisableAnnounce"),
        None => false,
    }
}

/// Classifies the error text of a failed publish request: a lack of
/// permission or access is expected, anything else is a failure.
pub fn classify_failure(text: &str) -> (r: Outcome)
    ensures
        r == Outcome::PermissionDenied <==> is_permission_text(text@),
        r == Outcome::Failed <==> !is_permission_text(text@),
{
    if contains_str(text, "Permissions") || contains_str(text, "Access") {
        Outcome::PermissionDenied
    } else {
        Outcome::Failed
    }
}

/// Advances the handling of a message by one event.
pub fn step(stage: Stage, event: &Event) -> (r: (Stage, Action))
    ensures
        r == next(stage, *event),
{
    match stage {
        Stage::Received => match event {
            Event::Arrived(m) => if m.is_private {
                (Stage::Finished, Action::Finish(Outcome::DirectMessage))
            } else if m.author_bot {
                (Stage::Finished, Action::Finish(Outcome::AutomatedAuthor))
            } else {
                (Stage::ResolvingChannel, Action::ResolveChannel)
            },
            _ => (stage, Action::Wait),
        },
        Stage::ResolvingChannel => match event {
            Event::ChannelResolved(c) => if c.kind != ChannelKind::News {
                (Stage::Finished, Action::Finish(Outcome::NotAnnouncement))
            } else if opts_out(&c.topic) {
                (Stage::Finished, Action::Finish(Outcome::OptedOut))
            } else {
                (Stage::Publishing, Action::Crosspost)
            },
            Event::ChannelUnresolved => (
                Stage::Finished,
                Action::Finish(Outcome::ChannelUnavailable),
            ),
            _ => (stage, Action::Wait),
        },
        Stage::Publishing => match event {
            Event::Crossposted(Ok(())) => (Stage::Finished, Action::Finish(Outcome::Published)),
            Event::Crossposted(Err(text)) => (Stage::Finished, Action::Finish(
                classify_failure(text.as_str()),
            )),
            _ => (stage, Action::Wait),
        },
        Stage::Finished => (stage, Action::Wait),
    }
}

/// The level at which an outcome is logged, if it is logged at all: the
/// ordinary endings at debug level, the unexpected ones at error level, and
/// messages that were never candidates for publishing not at all.
pub fn severity(outcome: Outcome) -> (r: Option<Severity>)
    ensures
        r == Some(Severity::Error) <==> (outcome == Outcome::Failed || outcome
            == Outcome::ChannelUnavailable),
        r == Some(Severity::Debug) <==> (outcome == Outcome::OptedOut || outcome
            == Outcome::Published || outcome == Outcome::PermissionDenied),
        r is None <==> (outcome == Outcome::DirectMessage || outcome == Outcome::AutomatedAuthor
            || outcome == Outcome::NotAnnouncement),
{
    match outcome {
        Outcome::DirectMessage | Outcome::AutomatedAuthor | Outcome::NotAnnouncement => None,
        Outcome::OptedOut | Outcome::Published | Outcome::PermissionDenied => Some(
            Severity::Debug,
        ),
        Outcome::ChannelUnavailable | Outcome::Failed => Some(Severity::Error),
    }
}

} // verus!
