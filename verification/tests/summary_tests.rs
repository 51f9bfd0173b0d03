use expander::digits::u64_to_dec;
use expander::snowflake::{creation_ms, creation_micros};
use expander::summary::{avatar_url, build_summary, ResolvedAuthor, ResolvedMessage, ACCENT_COLOR};

fn resolved() -> ResolvedMessage {
    ResolvedMessage {
        id: 175928847299117063,
        content: "the quoted text".to_string(),
        author_id: 42,
        channel_name: "general".to_string(),
        image_url: Some("https://cdn.discordapp.com/attachments/9/9/a.png".to_string()),
    }
}

#[test]
fn decimal_rendering_of_zero() {
    assert_eq!(u64_to_dec(0), "0");
}

#[test]
fn decimal_rendering_of_small_number() {
    assert_eq!(u64_to_dec(42), "42");
}

#[test]
fn decimal_rendering_of_largest_number() {
    assert_eq!(u64_to_dec(18446744073709551615), "18446744073709551615");
}

#[test]
fn snowflake_example_decodes_to_documented_value() {
    assert_eq!(creation_ms(175928847299117063), 1462015105796);
    assert_eq!(creation_micros(175928847299117063), 1462015105796000);
}

#[test]
fn snowflake_zero_decodes_to_platform_epoch() {
    assert_eq!(creation_ms(0), 1420070400000);
}

#[test]
fn avatar_url_is_exact() {
    assert_eq!(
        avatar_url(42, &"abc123".to_string()),
        "https://cdn.discordapp.com/avatars/42/abc123.png"
    );
}

#[test]
fn summary_fields_are_exact() {
    let author = ResolvedAuthor {
        id: 42,
        display_name: "ada".to_string(),
        avatar_hash: Some("abc123".to_string()),
    };
    let s = build_summary(&resolved(), &author).expect("avatar present");
    assert_eq!(s.description, "the quoted text");
    assert_eq!(s.author_name, "ada");
    assert_eq!(s.author_icon_url, "https://cdn.discordapp.com/avatars/42/abc123.png");
    assert_eq!(s.footer, "general");
    assert_eq!(s.color, 0x02CAF7);
    assert_eq!(s.color, ACCENT_COLOR);
    assert_eq!(s.timestamp_micros, 1462015105796000);
    assert_eq!(
        s.image_url,
        Some("https://cdn.discordapp.com/attachments/9/9/a.png".to_string())
    );
}

#[test]
fn summary_without_attachment_has_no_image() {
    let mut m = resolved();
    m.image_url = None;
    let author = ResolvedAuthor {
        id: 42,
        display_name: "ada".to_string(),
        avatar_hash: Some("abc123".to_string()),
    };
    let s = build_summary(&m, &author).expect("avatar present");
    assert_eq!(s.image_url, None);
}

#[test]
fn missing_avatar_refuses_to_build() {
    let author = ResolvedAuthor {
        id: 42,
        display_name: "ada".to_string(),
        avatar_hash: None,
    };
    assert!(build_summary(&resolved(), &author).is_none());
}
