use vstd::prelude::*;

verus! {

use vstd::pervasive::unreached;
use crate::matcher::{Link, spec_scan, scan_text, first_match_from};
use crate::summary::{ResolvedMessage, ResolvedAuthor, Summary, summary_matches, build_summary};

/// An inbound message as the event stream delivers it, consumed once per
/// dispatch.
pub struct InboundMessage {
    pub id: u64,
    pub channel_id: u64,
    pub author_id: u64,
    pub author_is_bot: bool,
    pub content: String,
}

/// A referenced message as either lookup path hands it back: the snapshot
/// store and the remote resolver are normalized to this one record.
pub struct MessageRecord {
    pub id: u64,
    pub author_id: u64,
    pub content: String,
    pub attachment_urls: Vec<String>,
}

/// A user as either lookup path hands it back.
pub struct UserRecord {
    pub id: u64,
    pub name: String,
    pub avatar: Option<String>,
}

/// How one event's handling ended.
#[derive(Clone, Copy, PartialEq, Eq, Structural, Debug)]
pub enum Outcome {
    /// Bot author or no link in the text: nothing to do, by design.
    Skipped,
    /// The referenced message was found neither locally nor remotely, or its
    /// channel could not be identified: dropped silently.
    NotFound,
    /// The author could not be fetched: a hard failure, worth surfacing.
    AuthorUnavailable,
    /// The author has no avatar hash: the pipeline fails rather than posting
    /// with a substitute avatar.
    MissingAvatar,
    /// The outbound post was attempted and refused.
    PostFailed,
    /// The summary was posted.
    Posted,
}

/// The resolution pipeline for one inbound message, as a state machine.
/// Each `Await` state names the single lookup or post the caller must perform
/// next; the caller hands the outcome back through the matching transition.
/// The decisions all live here; the caller only moves values.
pub enum Pipeline {
    /// Ask the snapshot store for the referenced message.
    AwaitCachedMessage { origin_channel: u64, link: Link },
    /// The store had no entry: ask the remote resolver, one attempt.
    AwaitRemoteMessage { origin_channel: u64, link: Link },
    /// Ask the snapshot store for the owning channel's name.
    AwaitChannelName { origin_channel: u64, channel_id: u64, message: MessageRecord },
    /// Ask the snapshot store for the author.
    AwaitCachedUser { origin_channel: u64, resolved: ResolvedMessage },
    /// The store had no entry: ask the remote resolver for the author.
    AwaitRemoteUser { origin_channel: u64, resolved: ResolvedMessage },
    /// Both halves are resolved; the summary can be built.
    ReadyToBuild { origin_channel: u64, resolved: ResolvedMessage, author: ResolvedAuthor },
    /// Post the summary into the channel where the link appeared.
    AwaitPost { origin_channel: u64, summary: Summary },
    /// Nothing further: the event's handling ended with this outcome.
    Finished { outcome: Outcome },
}

/// The state a new inbound message starts in: already finished for a
/// bot-authored message or a text without a link, else awaiting the snapshot
/// lookup of the linked message.
pub open spec fn spec_start(m: InboundMessage) -> Pipeline {
    if m.author_is_bot {
        Pipeline::Finished { outcome: Outcome::Skipped }
    } else {
        match spec_scan(m.content@) {
            Some(link) => Pipeline::AwaitCachedMessage { origin_channel: m.channel_id, link },
            None => Pipeline::Finished { outcome: Outcome::Skipped },
        }
    }
}

/// The normalized result of locating a referenced message, whichever path
/// found it: first attachment's URL as the image, if any.
pub open spec fn resolved_of(m: MessageRecord, name: String) -> ResolvedMessage {
    ResolvedMessage {
        id: m.id,
        content: m.content,
        author_id: m.author_id,
        channel_name: name,
        image_url: if m.attachment_urls@.len() > 0 {
            Some(m.attachment_urls@[0])
        } else {
            None
        },
    }
}

/// The author record, normalized.
pub open spec fn author_of(u: UserRecord) -> ResolvedAuthor {
    ResolvedAuthor { id: u.id, display_name: u.name, avatar_hash: u.avatar }
}

pub open spec fn spec_on_cached_message(p: Pipeline, found: Option<MessageRecord>) -> Pipeline
    recommends
        p is AwaitCachedMessage,
{
    match found {
        Some(m) => Pipeline::AwaitChannelName {
            origin_channel: p->AwaitCachedMessage_origin_channel,
            channel_id: p->AwaitCachedMessage_link.channel_id,
            message: m,
        },
        None => Pipeline::AwaitRemoteMessage {
            origin_channel: p->AwaitCachedMessage_origin_channel,
            link: p->AwaitCachedMessage_link,
        },
    }
}

pub open spec fn spec_on_remote_message(p: Pipeline, fetched: Option<MessageRecord>) -> Pipeline
    recommends
        p is AwaitRemoteMessage,
{
    match fetched {
        Some(m) => Pipeline::AwaitChannelName {
            origin_channel: p->AwaitRemoteMessage_origin_channel,
            channel_id: p->AwaitRemoteMessage_link.channel_id,
            message: m,
        },
        None => Pipeline::Finished { outcome: Outcome::NotFound },
    }
}

pub open spec fn spec_on_channel_name(p: Pipeline, name: Option<String>) -> Pipeline
    recommends
        p is AwaitChannelName,
{
    match name {
        Some(n) => Pipeline::AwaitCachedUser {
            origin_channel: p->AwaitChannelName_origin_channel,
            resolved: resolved_of(p->AwaitChannelName_message, n),
        },
        None => Pipeline::Finished { outcome: Outcome::NotFound },
    }
}

pub open spec fn spec_on_cached_user(p: Pipeline, found: Option<UserRecord>) -> Pipeline
    recommends
        p is AwaitCachedUser,
{
    match found {
        Some(u) => Pipeline::ReadyToBuild {
            origin_channel: p->AwaitCachedUser_origin_channel,
            resolved: p->AwaitCachedUser_resolved,
            author: author_of(u),
        },
        None => Pipeline::AwaitRemoteUser {
            origin_channel: p->AwaitCachedUser_origin_channel,
            resolved: p->AwaitCachedUser_resolved,
        },
    }
}

pub open spec fn spec_on_remote_user(p: Pipeline, fetched: Option<UserRecord>) -> Pipeline
    recommends
        p is AwaitRemoteUser,
{
    match fetched {
        Some(u) => Pipeline::ReadyToBuild {
            origin_channel: p->AwaitRemoteUser_origin_channel,
            resolved: p->AwaitRemoteUser_resolved,
            author: author_of(u),
        },
        None => Pipeline::Finished { outcome: Outcome::AuthorUnavailable },
    }
}

impl Pipeline {
    /// Start handling one inbound message.
    pub fn start(m: &InboundMessage) -> (p: Pipeline)
        ensures
            p == spec_start(*m),
    {
        if m.author_is_bot {
            return Pipeline::Finished { outcome: Outcome::Skipped };
        }
        match scan_text(m.content.as_str()) {
            Some(link) => Pipeline::AwaitCachedMessage { origin_channel: m.channel_id, link },
            None => Pipeline::Finished { outcome: Outcome::Skipped },
        }
    }

    /// Hand back the snapshot store's answer for the referenced message.
    /// A hit goes on to the channel lookup; a miss falls back to the remote
    /// resolver — the one place a remote message fetch can ever be requested.
    pub fn on_cached_message(self, found: Option<MessageRecord>) -> (p: Pipeline)
        requires
            self is AwaitCachedMessage,
        ensures
            p == spec_on_cached_message(self, found),
    {
        match self {
            Pipeline::AwaitCachedMessage { origin_channel, link } => match found {
                Some(m) => Pipeline::AwaitChannelName {
                    origin_channel,
                    channel_id: link.channel_id,
                    message: m,
                },
                None => Pipeline::AwaitRemoteMessage { origin_channel, link },
            },
            _ => unreached(),
        }
    }

    /// Hand back the remote resolver's answer for the referenced message.
    /// Failures of any kind are one silent not-found outcome.
    pub fn on_remote_message(self, fetched: Option<MessageRecord>) -> (p: Pipeline)
        requires
            self is AwaitRemoteMessage,
        ensures
            p == spec_on_remote_message(self, fetched),
    {
        match self {
            Pipeline::AwaitRemoteMessage { origin_channel, link } => match fetched {
                Some(m) => Pipeline::AwaitChannelName {
                    origin_channel,
                    channel_id: link.channel_id,
                    message: m,
                },
                None => Pipeline::Finished { outcome: Outcome::NotFound },
            },
            _ => unreached(),
        }
    }

    /// Hand back the snapshot store's answer for the owning channel's name.
    /// An unnamed or unknown channel ends the pipeline silently: the record
    /// invariant demands a populated channel name.
    pub fn on_channel_name(self, name: Option<String>) -> (p: Pipeline)
        requires
            self is AwaitChannelName,
        ensures
            p == spec_on_channel_name(self, name),
    {
        match self {
            Pipeline::AwaitChannelName { origin_channel, channel_id: _, message } => match name {
                Some(n) => {
                    let image_url = first_url(&message.attachment_urls);
                    Pipeline::AwaitCachedUser {
                        origin_channel,
                        resolved: ResolvedMessage {
                            id: message.id,
                            content: message.content,
                            author_id: message.author_id,
                            channel_name: n,
                            image_url,
                        },
                    }
                },
                None => Pipeline::Finished { outcome: Outcome::NotFound },
            },
            _ => unreached(),
        }
    }

    /// Hand back the snapshot store's answer for the author.
    pub fn on_cached_user(self, found: Option<UserRecord>) -> (p: Pipeline)
        requires
            self is AwaitCachedUser,
        ensures
            p == spec_on_cached_user(self, found),
    {
        match self {
            Pipeline::AwaitCachedUser { origin_channel, resolved } => match found {
                Some(u) => Pipeline::ReadyToBuild {
                    origin_channel,
                    resolved,
                    author: ResolvedAuthor {
                        id: u.id,
                        display_name: u.name,
                        avatar_hash: u.avatar,
                    },
                },
                None => Pipeline::AwaitRemoteUser { origin_channel, resolved },
            },
            _ => unreached(),
        }
    }

    /// Hand back the remote resolver's answer for the author. A failed author
    /// fetch is a hard failure of the whole pipeline for this event.
    pub fn on_remote_user(self, fetched: Option<UserRecord>) -> (p: Pipeline)
        requires
            self is AwaitRemoteUser,
        ensures
            p == spec_on_remote_user(self, fetched),
    {
        match self {
            Pipeline::AwaitRemoteUser { origin_channel, resolved } => match fetched {
                Some(u) => Pipeline::ReadyToBuild {
                    origin_channel,
                    resolved,
                    author: ResolvedAuthor {
                        id: u.id,
                        display_name: u.name,
                        avatar_hash: u.avatar,
                    },
                },
                None => Pipeline::Finished { outcome: Outcome::AuthorUnavailable },
            },
            _ => unreached(),
        }
    }

    /// Build the summary. An author without an avatar hash fails the pipeline
    /// here, before anything is posted; otherwise the built summary is exact.
    pub fn finalize(self) -> (p: Pipeline)
        requires
            self is ReadyToBuild,
        ensures
            self->ReadyToBuild_author.avatar_hash is None <==> p == (Pipeline::Finished {
                outcome: Outcome::MissingAvatar,
            }),
            self->ReadyToBuild_author.avatar_hash is Some ==> (p matches Pipeline::AwaitPost {
                origin_channel,
                summary,
            } && origin_channel == self->ReadyToBuild_origin_channel && summary_matches(
                summary,
                self->ReadyToBuild_resolved,
                self->ReadyToBuild_author,
            )),
    {
        match self {
            Pipeline::ReadyToBuild { origin_channel, resolved, author } => {
                match build_summary(&resolved, &author) {
                    Some(summary) => Pipeline::AwaitPost { origin_channel, summary },
                    None => Pipeline::Finished { outcome: Outcome::MissingAvatar },
                }
            },
            _ => unreached(),
        }
    }

    /// Hand back whether the outbound post was delivered.
    pub fn on_posted(self, delivered: bool) -> (p: Pipeline)
        requires
            self is AwaitPost,
        ensures
            delivered ==> p == (Pipeline::Finished { outcome: Outcome::Posted }),
            !delivered ==> p == (Pipeline::Finished { outcome: Outcome::PostFailed }),
    {
        if delivered {
            Pipeline::Finished { outcome: Outcome::Posted }
        } else {
            Pipeline::Finished { outcome: Outcome::PostFailed }
        }
    }
}

fn first_url(urls: &Vec<String>) -> (r: Option<String>)
    ensures
        r == (if urls@.len() > 0 {
            Some(urls@[0])
        } else {
            None::<String>
        }),
{
    if urls.len() > 0 {
        Some(urls[0].clone())
    } else {
        None
    }
}

/// An event as the transport layer delivers it, already typed and
/// discriminated. Kinds the pipeline does not consume arrive as `Other`.
pub enum GatewayEvent {
    Ready,
    MessageCreate(InboundMessage),
    Other,
}

/// What the dispatcher does with one event, after the snapshot store has been
/// updated for it: announce presence once the stream is ready, run a fresh
/// pipeline for an inbound message, or nothing.
pub enum Dispatch {
    Announce,
    Run(Pipeline),
    Ignore,
}

/// Decide one event. Every event kind is accepted; unknown kinds are a no-op.
/// The caller must apply the event to the snapshot store before acting on the
/// decision, and must run each returned pipeline independently of the others.
pub fn dispatch(ev: GatewayEvent) -> (d: Dispatch)
    ensures
        ev is Ready ==> d == Dispatch::Announce,
        ev matches GatewayEvent::MessageCreate(m) ==> d == Dispatch::Run(spec_start(m)),
        ev is Other ==> d == Dispatch::Ignore,
{
    match ev {
        GatewayEvent::Ready => Dispatch::Announce,
        GatewayEvent::MessageCreate(m) => Dispatch::Run(Pipeline::start(&m)),
        GatewayEvent::Other => Dispatch::Ignore,
    }
}

/// How many steps a pipeline can still take. Every transition strictly
/// decreases it, so a driver that performs each requested step in turn
/// finishes after boundedly many.
pub open spec fn rank(p: Pipeline) -> nat {
    match p {
        Pipeline::AwaitCachedMessage { .. } => 7,
        Pipeline::AwaitRemoteMessage { .. } => 6,
        Pipeline::AwaitChannelName { .. } => 5,
        Pipeline::AwaitCachedUser { .. } => 4,
        Pipeline::AwaitRemoteUser { .. } => 3,
        Pipeline::ReadyToBuild { .. } => 2,
        Pipeline::AwaitPost { .. } => 1,
        Pipeline::Finished { .. } => 0,
    }
}

/// Each lookup transition moves strictly down the rank, whatever answer came
/// back: a pipeline can never loop.
pub proof fn lemma_pipeline_terminates(
    p: Pipeline,
    mr: Option<MessageRecord>,
    ur: Option<UserRecord>,
    name: Option<String>,
)
    ensures
        p is AwaitCachedMessage ==> rank(spec_on_cached_message(p, mr)) < rank(p),
        p is AwaitRemoteMessage ==> rank(spec_on_remote_message(p, mr)) < rank(p),
        p is AwaitChannelName ==> rank(spec_on_channel_name(p, name)) < rank(p),
        p is AwaitCachedUser ==> rank(spec_on_cached_user(p, ur)) < rank(p),
        p is AwaitRemoteUser ==> rank(spec_on_remote_user(p, ur)) < rank(p),
{
}

/// A message whose text holds no link starts a pipeline that is already
/// finished: no lookup is ever requested and nothing is posted.
pub proof fn lemma_no_link_means_no_action(m: InboundMessage)
    requires
        first_match_from(m.content@, 0) is None,
    ensures
        spec_start(m) == (Pipeline::Finished { outcome: Outcome::Skipped }),
{
}

/// Bot-authored messages never start resolution, whatever their text holds.
pub proof fn lemma_bot_never_resolves(m: InboundMessage)
    requires
        m.author_is_bot,
    ensures
        spec_start(m) == (Pipeline::Finished { outcome: Outcome::Skipped }),
{
}

/// A snapshot hit proceeds straight to the channel lookup — never to a remote
/// fetch — and the resolved image is exactly the first attachment's URL.
pub proof fn lemma_cache_hit_stays_local(o: u64, l: Link, m: MessageRecord, name: String)
    requires
        m.attachment_urls@.len() >= 1,
    ensures
        ({
            let p1 = spec_on_cached_message(
                Pipeline::AwaitCachedMessage { origin_channel: o, link: l },
                Some(m),
            );
            &&& p1 !is AwaitRemoteMessage
            &&& p1 is AwaitChannelName
            &&& spec_on_channel_name(p1, Some(name)) matches Pipeline::AwaitCachedUser {
                origin_channel,
                resolved,
            } && origin_channel == o && resolved.image_url == Some(m.attachment_urls@[0])
                && resolved.content == m.content
        }),
{
}

/// The snapshot path and the remote path hand the rest of the pipeline
/// identical states for identical records: the summary builder cannot tell
/// them apart.
pub proof fn lemma_cache_and_remote_agree(
    o: u64,
    l: Link,
    m: MessageRecord,
    name: Option<String>,
)
    ensures
        spec_on_channel_name(
            spec_on_cached_message(
                Pipeline::AwaitCachedMessage { origin_channel: o, link: l },
                Some(m),
            ),
            name,
        ) == spec_on_channel_name(
            spec_on_remote_message(
                Pipeline::AwaitRemoteMessage { origin_channel: o, link: l },
                Some(m),
            ),
            name,
        ),
{
}

/// When the message is found neither locally nor remotely, or its channel
/// cannot be identified, the pipeline ends in the silent not-found outcome:
/// no post state is ever reached and no error is raised to the caller.
pub proof fn lemma_not_found_is_silent(o: u64, l: Link, cn: u64, m: MessageRecord)
    ensures
        spec_on_remote_message(
            spec_on_cached_message(
                Pipeline::AwaitCachedMessage { origin_channel: o, link: l },
                None,
            ),
            None,
        ) == (Pipeline::Finished { outcome: Outcome::NotFound }),
        spec_on_channel_name(
            Pipeline::AwaitChannelName { origin_channel: o, channel_id: cn, message: m },
            None,
        ) == (Pipeline::Finished { outcome: Outcome::NotFound }),
{
}

} // verus!

