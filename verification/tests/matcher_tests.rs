use expander::matcher::{scan_text, Link};

#[test]
fn extracts_channel_and_message_ids() {
    assert_eq!(
        scan_text("https://discord.com/channels/1/2/3"),
        Some(Link { channel_id: 2, message_id: 3 })
    );
}

#[test]
fn no_link_yields_none() {
    assert_eq!(scan_text("just a plain sentence, no urls at all"), None);
}

#[test]
fn empty_text_yields_none() {
    assert_eq!(scan_text(""), None);
}

#[test]
fn app_host_variant_is_accepted() {
    assert_eq!(
        scan_text("https://discordapp.com/channels/10/20/30"),
        Some(Link { channel_id: 20, message_id: 30 })
    );
}

#[test]
fn link_embedded_in_text_is_found() {
    assert_eq!(
        scan_text("look at this https://discord.com/channels/4/5/6 please"),
        Some(Link { channel_id: 5, message_id: 6 })
    );
}

#[test]
fn only_first_link_is_used() {
    let text = "a https://discord.com/channels/1/2/3 b https://discord.com/channels/7/8/9";
    assert_eq!(scan_text(text), Some(Link { channel_id: 2, message_id: 3 }));
}

#[test]
fn trailing_text_does_not_change_captures() {
    assert_eq!(
        scan_text("https://discord.com/channels/1/2/3 and then some more words"),
        Some(Link { channel_id: 2, message_id: 3 })
    );
}

#[test]
fn missing_message_segment_is_no_match() {
    assert_eq!(scan_text("https://discord.com/channels/1/2"), None);
}

#[test]
fn non_numeric_guild_segment_is_no_match() {
    assert_eq!(scan_text("https://discord.com/channels/abc/2/3"), None);
}

#[test]
fn other_host_is_no_match() {
    assert_eq!(scan_text("https://example.com/channels/1/2/3"), None);
}

#[test]
fn host_needs_literal_dot() {
    assert_eq!(scan_text("https://discordxcom/channels/1/2/3"), None);
}

#[test]
fn largest_id_is_accepted() {
    assert_eq!(
        scan_text("https://discord.com/channels/1/2/18446744073709551615"),
        Some(Link { channel_id: 2, message_id: 18446744073709551615 })
    );
}

#[test]
fn overflowing_channel_id_is_no_match() {
    assert_eq!(scan_text("https://discord.com/channels/1/18446744073709551616/3"), None);
}

#[test]
fn overflowing_message_id_is_no_match() {
    assert_eq!(scan_text("https://discord.com/channels/1/2/99999999999999999999999"), None);
}
