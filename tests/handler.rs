use announcer::{
    classify_failure, contains_str, get_intents, opts_out, severity, step, Action, ChannelFacts,
    ChannelKind, Event, MessageFacts, Outcome, Severity, Stage,
};

fn message(is_private: bool, author_bot: bool) -> MessageFacts {
    MessageFacts { is_private, author_bot }
}

fn channel(kind: ChannelKind, topic: &str) -> ChannelFacts {
    ChannelFacts { kind, topic: Some(topic.to_string()) }
}

/// Drives the handling of one message the way the gateway client does: each
/// action is answered by the matching event until the handling finishes.
fn drive(m: MessageFacts, c: ChannelFacts, publish: Result<(), String>) -> (usize, Outcome) {
    let mut crossposts = 0;
    let (mut stage, mut action) = step(Stage::Received, &Event::Arrived(m));
    let mut channel = Some(c);
    let mut publish = Some(publish);
    loop {
        let event = match action {
            Action::ResolveChannel => Event::ChannelResolved(channel.take().unwrap()),
            Action::Crosspost => {
                crossposts += 1;
                Event::Crossposted(publish.take().unwrap())
            }
            Action::Finish(outcome) => return (crossposts, outcome),
            Action::Wait => panic!("the handling stalled"),
        };
        let (s, a) = step(stage, &event);
        stage = s;
        action = a;
    }
}

#[test]
fn direct_message_is_never_published() {
    for bot in [false, true] {
        for kind in [ChannelKind::News, ChannelKind::Text] {
            let (n, outcome) = drive(message(true, bot), channel(kind, "general"), Ok(()));
            assert_eq!(n, 0);
            assert_eq!(outcome, Outcome::DirectMessage);
        }
    }
}

#[test]
fn automated_author_is_never_published() {
    for topic in ["", "general", "DisableAnnounce"] {
        for kind in [ChannelKind::News, ChannelKind::Text, ChannelKind::Voice] {
            let (n, outcome) = drive(message(false, true), channel(kind, topic), Ok(()));
            assert_eq!(n, 0);
            assert_eq!(outcome, Outcome::AutomatedAuthor);
        }
    }
}

#[test]
fn other_channel_kinds_are_never_published() {
    for kind in [
        ChannelKind::Text,
        ChannelKind::Voice,
        ChannelKind::Category,
        ChannelKind::Stage,
        ChannelKind::Other,
    ] {
        let (n, outcome) = drive(message(false, false), channel(kind, "general"), Ok(()));
        assert_eq!(n, 0);
        assert_eq!(outcome, Outcome::NotAnnouncement);
    }
}

#[test]
fn opt_out_marker_suppresses_publishing() {
    let (n, outcome) = drive(
        message(false, false),
        channel(ChannelKind::News, "please DisableAnnounce here"),
        Ok(()),
    );
    assert_eq!(n, 0);
    assert_eq!(outcome, Outcome::OptedOut);
}

#[test]
fn spaced_marker_does_not_opt_out() {
    let (n, outcome) =
        drive(message(false, false), channel(ChannelKind::News, "Disable Announce"), Ok(()));
    assert_eq!(n, 1);
    assert_eq!(outcome, Outcome::Published);
}

#[test]
fn opt_out_marker_is_case_sensitive() {
    assert!(!opts_out(&Some("disableannounce".to_string())));
    assert!(!opts_out(&Some("DISABLEANNOUNCE".to_string())));
    assert!(opts_out(&Some("DisableAnnounce".to_string())));
    assert!(opts_out(&Some("xDisableAnnouncex".to_string())));
    assert!(!opts_out(&Some("DisableAnnounc".to_string())));
    assert!(!opts_out(&Some(String::new())));
    assert!(!opts_out(&None));
}

#[test]
fn eligible_message_is_published_once() {
    for topic in ["", "general", "Announce", "Disable"] {
        let (n, outcome) =
            drive(message(false, false), channel(ChannelKind::News, topic), Ok(()));
        assert_eq!(n, 1);
        assert_eq!(outcome, Outcome::Published);
    }
    let (n, outcome) = drive(
        message(false, false),
        ChannelFacts { kind: ChannelKind::News, topic: None },
        Ok(()),
    );
    assert_eq!(n, 1);
    assert_eq!(outcome, Outcome::Published);
}

#[test]
fn scenario_news_general_topic_is_published() {
    let (n, outcome) =
        drive(message(false, false), channel(ChannelKind::News, "general"), Ok(()));
    assert_eq!(n, 1);
    assert_eq!(outcome, Outcome::Published);
    assert_eq!(severity(outcome), Some(Severity::Debug));
}

#[test]
fn scenario_bot_in_news_is_ignored() {
    let (n, outcome) = drive(message(false, true), channel(ChannelKind::News, ""), Ok(()));
    assert_eq!(n, 0);
    assert_eq!(outcome, Outcome::AutomatedAuthor);
    assert_eq!(severity(outcome), None);
}

#[test]
fn scenario_text_channel_is_ignored() {
    let (n, outcome) = drive(message(false, false), channel(ChannelKind::Text, ""), Ok(()));
    assert_eq!(n, 0);
    assert_eq!(outcome, Outcome::NotAnnouncement);
}

#[test]
fn scenario_opted_out_channel_is_ignored() {
    let (n, outcome) = drive(
        message(false, false),
        channel(ChannelKind::News, "DisableAnnounce for this channel"),
        Ok(()),
    );
    assert_eq!(n, 0);
    assert_eq!(outcome, Outcome::OptedOut);
    assert_eq!(severity(outcome), Some(Severity::Debug));
}

#[test]
fn scenario_missing_permissions_is_quiet() {
    let (n, outcome) = drive(
        message(false, false),
        channel(ChannelKind::News, "general"),
        Err("Missing Permissions".to_string()),
    );
    assert_eq!(n, 1);
    assert_eq!(outcome, Outcome::PermissionDenied);
    assert_eq!(severity(outcome), Some(Severity::Debug));
}

#[test]
fn scenario_network_timeout_is_an_error() {
    let (n, outcome) = drive(
        message(false, false),
        channel(ChannelKind::News, "general"),
        Err("Network timeout".to_string()),
    );
    assert_eq!(n, 1);
    assert_eq!(outcome, Outcome::Failed);
    assert_eq!(severity(outcome), Some(Severity::Error));
}

#[test]
fn classify_failure_matches_both_words() {
    assert_eq!(classify_failure("Missing Permissions"), Outcome::PermissionDenied);
    assert_eq!(classify_failure("Missing Access"), Outcome::PermissionDenied);
    assert_eq!(classify_failure("Permissions"), Outcome::PermissionDenied);
    assert_eq!(classify_failure("missing permissions"), Outcome::Failed);
    assert_eq!(classify_failure("access denied"), Outcome::Failed);
    assert_eq!(classify_failure("Network timeout"), Outcome::Failed);
    assert_eq!(classify_failure(""), Outcome::Failed);
}

#[test]
fn unresolved_channel_ends_softly() {
    let (stage, action) = step(Stage::Received, &Event::Arrived(message(false, false)));
    assert_eq!(stage, Stage::ResolvingChannel);
    assert_eq!(action, Action::ResolveChannel);
    let (stage, action) = step(stage, &Event::ChannelUnresolved);
    assert_eq!(stage, Stage::Finished);
    assert_eq!(action, Action::Finish(Outcome::ChannelUnavailable));
    assert_eq!(severity(Outcome::ChannelUnavailable), Some(Severity::Error));
}

#[test]
fn events_out_of_order_change_nothing() {
    let (stage, action) = step(Stage::Received, &Event::Crossposted(Ok(())));
    assert_eq!((stage, action), (Stage::Received, Action::Wait));
    let (stage, action) = step(Stage::Publishing, &Event::Arrived(message(false, false)));
    assert_eq!((stage, action), (Stage::Publishing, Action::Wait));
    let (stage, action) = step(Stage::Finished, &Event::Crossposted(Ok(())));
    assert_eq!((stage, action), (Stage::Finished, Action::Wait));
    let (stage, action) = step(
        Stage::Finished,
        &Event::ChannelResolved(channel(ChannelKind::News, "general")),
    );
    assert_eq!((stage, action), (Stage::Finished, Action::Wait));
}

#[test]
fn severities_of_quiet_outcomes() {
    assert_eq!(severity(Outcome::DirectMessage), None);
    assert_eq!(severity(Outcome::NotAnnouncement), None);
}

#[test]
fn substring_search_edges() {
    assert!(contains_str("abc", ""));
    assert!(contains_str("", ""));
    assert!(!contains_str("", "a"));
    assert!(contains_str("abc", "abc"));
    assert!(!contains_str("ab", "abc"));
    assert!(contains_str("xxabc", "abc"));
    assert!(!contains_str("abxc", "abc"));
    assert!(contains_str("héllo wörld", "ö"));
}

#[test]
fn intents_are_guilds_and_guild_messages() {
    let intents = get_intents();
    assert_eq!(intents.bits(), 513);
    assert!(intents.contains(serenity::model::gateway::GatewayIntents::GUILDS));
    assert!(intents.contains(serenity::model::gateway::GatewayIntents::GUILD_MESSAGES));
    assert!(!intents.contains(serenity::model::gateway::GatewayIntents::DIRECT_MESSAGES));
}
