use vstd::prelude::*;

verus! {

use vstd::string::StringExecFns;
use crate::digits::{dec_rep, push_u64_dec};
use crate::snowflake::{spec_creation_ms, creation_micros};

/// The accent color of every posted summary.
pub const ACCENT_COLOR: u32 = 0x02CAF7;

/// A referenced message, normalized: the summary builder cannot tell whether it
/// came from the snapshot store or from a remote fetch.
/// `channel_name` is always populated; `image_url` is `Some` exactly when the
/// source message had at least one attachment, and then holds the first
/// attachment's URL.
pub struct ResolvedMessage {
    pub id: u64,
    pub content: String,
    pub author_id: u64,
    pub channel_name: String,
    pub image_url: Option<String>,
}

/// The referenced message's author, normalized the same way.
pub struct ResolvedAuthor {
    pub id: u64,
    pub display_name: String,
    pub avatar_hash: Option<String>,
}

/// The outbound summary, immutable once built.
pub struct Summary {
    pub description: String,
    pub author_name: String,
    pub author_icon_url: String,
    pub footer: String,
    pub color: u32,
    pub timestamp_micros: u64,
    pub image_url: Option<String>,
}

/// The avatar image URL for a user id and an avatar hash.
pub open spec fn spec_avatar_url(user_id: u64, hash: Seq<char>) -> Seq<char> {
    "https://cdn.discordapp.com/avatars/"@ + dec_rep(user_id as nat) + "/"@ + hash + ".png"@
}

/// Render the avatar image URL for a user id and an avatar hash.
pub fn avatar_url(user_id: u64, hash: &String) -> (url: String)
    ensures
        url@ == spec_avatar_url(user_id, hash@),
{
    let mut url = String::from_str("https://cdn.discordapp.com/avatars/");
    push_u64_dec(&mut url, user_id);
    url.append("/");
    url.append(hash.as_str());
    url.append(".png");
    proof {
        assert(url@ =~= spec_avatar_url(user_id, hash@));
    }
    url
}

/// What the summary builder owes: `s` is exactly the summary for resolved
/// message `m` and author `a` — content verbatim as the description, the
/// author block with the derived icon URL, the source channel's name as the
/// footer, the fixed accent color, the creation time decoded from the message
/// id, and the image present exactly when the message had one.
pub open spec fn summary_matches(s: Summary, m: ResolvedMessage, a: ResolvedAuthor) -> bool {
    &&& s.description == m.content
    &&& s.author_name == a.display_name
    &&& (a.avatar_hash matches Some(h) && s.author_icon_url@ == spec_avatar_url(a.id, h@))
    &&& s.footer == m.channel_name
    &&& s.color == 0x02CAF7
    &&& s.timestamp_micros == spec_creation_ms(m.id) * 1000
    &&& s.image_url == m.image_url
}

fn clone_opt_string(o: &Option<String>) -> (r: Option<String>)
    ensures
        r == *o,
{
    match o {
        None => None,
        Some(s) => Some(s.clone()),
    }
}

/// Build the outbound summary deterministically from a resolved message and
/// its resolved author. An author without an avatar hash yields `None`: the
/// pipeline then fails rather than posting with a substitute avatar — a
/// deliberate policy of the design, kept as stated.
pub fn build_summary(message: &ResolvedMessage, author: &ResolvedAuthor) -> (r: Option<Summary>)
    ensures
        r is Some <==> author.avatar_hash is Some,
        r matches Some(s) ==> summary_matches(s, *message, *author),
{
    match &author.avatar_hash {
        None => None,
        Some(h) => {
            let icon = avatar_url(author.id, h);
            Some(
                Summary {
                    description: message.content.clone(),
                    author_name: author.display_name.clone(),
                    author_icon_url: icon,
                    footer: message.channel_name.clone(),
                    color: ACCENT_COLOR,
                    timestamp_micros: creation_micros(message.id),
                    image_url: clone_opt_string(&message.image_url),
                },
            )
        },
    }
}

} // verus!
