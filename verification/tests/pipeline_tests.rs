use expander::matcher::Link;
use expander::pipeline::{
    dispatch, Dispatch, GatewayEvent, InboundMessage, MessageRecord, Outcome, Pipeline, UserRecord,
};
use expander::summary::Summary;

const LINKED: &str = "see https://discord.com/channels/1/2/3";

fn inbound(content: &str, bot: bool) -> InboundMessage {
    InboundMessage {
        id: 10,
        channel_id: 77,
        author_id: 5,
        author_is_bot: bot,
        content: content.to_string(),
    }
}

fn record() -> MessageRecord {
    MessageRecord {
        id: 3,
        author_id: 42,
        content: "quoted words".to_string(),
        attachment_urls: vec!["https://cdn.discordapp.com/attachments/1/2/a.png".to_string()],
    }
}

fn user() -> UserRecord {
    UserRecord {
        id: 42,
        name: "ada".to_string(),
        avatar: Some("abc123".to_string()),
    }
}

fn skipped(p: Pipeline) -> bool {
    matches!(p, Pipeline::Finished { outcome: Outcome::Skipped })
}

#[test]
fn bot_author_is_skipped_even_with_link() {
    assert!(skipped(Pipeline::start(&inbound(LINKED, true))));
}

#[test]
fn text_without_link_is_skipped() {
    assert!(skipped(Pipeline::start(&inbound("nothing to expand here", false))));
}

#[test]
fn link_starts_with_snapshot_lookup() {
    match Pipeline::start(&inbound(LINKED, false)) {
        Pipeline::AwaitCachedMessage { origin_channel, link } => {
            assert_eq!(origin_channel, 77);
            assert_eq!(link, Link { channel_id: 2, message_id: 3 });
        }
        _ => panic!("expected a snapshot lookup"),
    }
}

#[test]
fn snapshot_hit_skips_remote_and_keeps_first_attachment() {
    let p = Pipeline::start(&inbound(LINKED, false));
    let p = p.on_cached_message(Some(record()));
    match &p {
        Pipeline::AwaitChannelName { channel_id, .. } => assert_eq!(*channel_id, 2),
        _ => panic!("a snapshot hit must go straight to the channel lookup"),
    }
    match p.on_channel_name(Some("general".to_string())) {
        Pipeline::AwaitCachedUser { origin_channel, resolved } => {
            assert_eq!(origin_channel, 77);
            assert_eq!(resolved.id, 3);
            assert_eq!(resolved.author_id, 42);
            assert_eq!(resolved.content, "quoted words");
            assert_eq!(resolved.channel_name, "general");
            assert_eq!(
                resolved.image_url,
                Some("https://cdn.discordapp.com/attachments/1/2/a.png".to_string())
            );
        }
        _ => panic!("expected the author lookup"),
    }
}

#[test]
fn remote_path_is_indistinguishable_from_snapshot_path() {
    let via_cache = Pipeline::start(&inbound(LINKED, false))
        .on_cached_message(Some(record()))
        .on_channel_name(Some("general".to_string()));
    let via_remote = Pipeline::start(&inbound(LINKED, false))
        .on_cached_message(None)
        .on_remote_message(Some(record()))
        .on_channel_name(Some("general".to_string()));
    match (via_cache, via_remote) {
        (
            Pipeline::AwaitCachedUser { origin_channel: o1, resolved: r1 },
            Pipeline::AwaitCachedUser { origin_channel: o2, resolved: r2 },
        ) => {
            assert_eq!(o1, o2);
            assert_eq!(r1.id, r2.id);
            assert_eq!(r1.author_id, r2.author_id);
            assert_eq!(r1.content, r2.content);
            assert_eq!(r1.channel_name, r2.channel_name);
            assert_eq!(r1.image_url, r2.image_url);
        }
        _ => panic!("both paths must reach the author lookup"),
    }
}

#[test]
fn miss_on_both_paths_ends_silently() {
    let p = Pipeline::start(&inbound(LINKED, false))
        .on_cached_message(None)
        .on_remote_message(None);
    assert!(matches!(p, Pipeline::Finished { outcome: Outcome::NotFound }));
}

#[test]
fn unknown_channel_ends_silently() {
    let p = Pipeline::start(&inbound(LINKED, false))
        .on_cached_message(Some(record()))
        .on_channel_name(None);
    assert!(matches!(p, Pipeline::Finished { outcome: Outcome::NotFound }));
}

#[test]
fn author_miss_falls_back_to_remote() {
    let p = Pipeline::start(&inbound(LINKED, false))
        .on_cached_message(Some(record()))
        .on_channel_name(Some("general".to_string()))
        .on_cached_user(None);
    assert!(matches!(p, Pipeline::AwaitRemoteUser { .. }));
}

#[test]
fn author_fetch_failure_is_a_hard_failure() {
    let p = Pipeline::start(&inbound(LINKED, false))
        .on_cached_message(Some(record()))
        .on_channel_name(Some("general".to_string()))
        .on_cached_user(None)
        .on_remote_user(None);
    assert!(matches!(p, Pipeline::Finished { outcome: Outcome::AuthorUnavailable }));
}

#[test]
fn missing_avatar_fails_before_posting() {
    let p = Pipeline::start(&inbound(LINKED, false))
        .on_cached_message(Some(record()))
        .on_channel_name(Some("general".to_string()))
        .on_cached_user(Some(UserRecord {
            id: 42,
            name: "ada".to_string(),
            avatar: None,
        }))
        .finalize();
    assert!(matches!(p, Pipeline::Finished { outcome: Outcome::MissingAvatar }));
}

fn drive_to_post(origin: u64, content: &str, rec: MessageRecord, channel: &str, u: UserRecord) -> (u64, Summary) {
    let m = InboundMessage {
        id: 1,
        channel_id: origin,
        author_id: 9,
        author_is_bot: false,
        content: content.to_string(),
    };
    let p = Pipeline::start(&m)
        .on_cached_message(Some(rec))
        .on_channel_name(Some(channel.to_string()))
        .on_cached_user(Some(u))
        .finalize();
    match p {
        Pipeline::AwaitPost { origin_channel, summary } => (origin_channel, summary),
        _ => panic!("expected to reach the post step"),
    }
}

#[test]
fn happy_path_reaches_post_with_exact_summary() {
    let (origin, s) = drive_to_post(77, LINKED, record(), "general", user());
    assert_eq!(origin, 77);
    assert_eq!(s.description, "quoted words");
    assert_eq!(s.author_name, "ada");
    assert_eq!(s.author_icon_url, "https://cdn.discordapp.com/avatars/42/abc123.png");
    assert_eq!(s.footer, "general");
    assert_eq!(s.color, 0x02CAF7);
    assert_eq!(s.timestamp_micros, 1420070400000000);
    assert_eq!(
        s.image_url,
        Some("https://cdn.discordapp.com/attachments/1/2/a.png".to_string())
    );
}

#[test]
fn delivered_post_finishes_as_posted() {
    let p = Pipeline::start(&inbound(LINKED, false))
        .on_cached_message(Some(record()))
        .on_channel_name(Some("general".to_string()))
        .on_cached_user(Some(user()))
        .finalize()
        .on_posted(true);
    assert!(matches!(p, Pipeline::Finished { outcome: Outcome::Posted }));
}

#[test]
fn refused_post_finishes_as_post_failed() {
    let p = Pipeline::start(&inbound(LINKED, false))
        .on_cached_message(Some(record()))
        .on_channel_name(Some("general".to_string()))
        .on_cached_user(Some(user()))
        .finalize()
        .on_posted(false);
    assert!(matches!(p, Pipeline::Finished { outcome: Outcome::PostFailed }));
}

#[test]
fn dispatch_ready_announces() {
    assert!(matches!(dispatch(GatewayEvent::Ready), Dispatch::Announce));
}

#[test]
fn dispatch_unknown_event_is_ignored() {
    assert!(matches!(dispatch(GatewayEvent::Other), Dispatch::Ignore));
}

#[test]
fn dispatch_message_runs_a_pipeline() {
    let d = dispatch(GatewayEvent::MessageCreate(inbound(LINKED, false)));
    match d {
        Dispatch::Run(Pipeline::AwaitCachedMessage { origin_channel, link }) => {
            assert_eq!(origin_channel, 77);
            assert_eq!(link, Link { channel_id: 2, message_id: 3 });
        }
        _ => panic!("a user message with a link must run a pipeline"),
    }
}

#[test]
fn interleaved_pipelines_stay_independent() {
    let rec_a = record();
    let rec_b = MessageRecord {
        id: 30,
        author_id: 43,
        content: "second message".to_string(),
        attachment_urls: vec![],
    };
    let user_b = UserRecord {
        id: 43,
        name: "grace".to_string(),
        avatar: Some("ffff00".to_string()),
    };
    let a0 = Pipeline::start(&inbound(LINKED, false));
    let b0 = Pipeline::start(&InboundMessage {
        id: 11,
        channel_id: 88,
        author_id: 6,
        author_is_bot: false,
        content: "https://discord.com/channels/9/20/30".to_string(),
    });
    let a1 = a0.on_cached_message(Some(rec_a));
    let b1 = b0.on_cached_message(Some(rec_b));
    let a2 = a1.on_channel_name(Some("general".to_string()));
    let b2 = b1.on_channel_name(Some("random".to_string()));
    let a3 = a2.on_cached_user(Some(user()));
    let b3 = b2.on_cached_user(Some(user_b));
    let a4 = a3.finalize();
    let b4 = b3.finalize();
    match (a4, b4) {
        (
            Pipeline::AwaitPost { origin_channel: oa, summary: sa },
            Pipeline::AwaitPost { origin_channel: ob, summary: sb },
        ) => {
            assert_eq!(oa, 77);
            assert_eq!(ob, 88);
            assert_eq!(sa.description, "quoted words");
            assert_eq!(sb.description, "second message");
            assert_eq!(sa.footer, "general");
            assert_eq!(sb.footer, "random");
            assert_eq!(sa.author_name, "ada");
            assert_eq!(sb.author_name, "grace");
            assert!(sa.image_url.is_some());
            assert!(sb.image_url.is_none());
        }
        _ => panic!("both pipelines must reach their own post step"),
    }
}
