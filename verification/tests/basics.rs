use poet::filesystem::file_entry_kind::FileEntryKind;
use poet::is_external_link::is_external_link;
use poet::is_valid_desktop_entry_string::is_valid_desktop_entry_string;
use poet::mcp::content_block::text_content::TextContent;
use poet::mcp::jsonrpc::role::Role;
use poet::mcp::jsonrpc::role::UnknownRole;
use poet::mcp::log_level::LogLevel;

#[test]
fn detects_https_as_external() {
    assert!(is_external_link("https://example.com/script.js"));
}

#[test]
fn detects_http_as_external() {
    assert!(is_external_link("http://example.com/style.css"));
}

#[test]
fn detects_protocol_relative_as_external() {
    assert!(is_external_link("//cdn.example.com/foo.js"));
}

#[test]
fn detects_mailto_as_external() {
    assert!(is_external_link("mailto:user@example.com"));
}

#[test]
fn treats_relative_path_as_internal() {
    assert!(!is_external_link("assets/main.js"));
}

#[test]
fn treats_absolute_path_as_internal() {
    assert!(!is_external_link("/assets/main.js"));
}

#[test]
fn external_link_edge_cases() {
    assert!(!is_external_link(""));
    assert!(!is_external_link("http"));
    assert!(is_external_link("http:"));
    assert!(!is_external_link("/"));
    assert!(!is_external_link("HTTP://example.com"));
}

#[test]
fn accepts_printable_string() {
    assert!(is_valid_desktop_entry_string("My Site"));
}

#[test]
fn rejects_empty_string() {
    assert!(!is_valid_desktop_entry_string(""));
}

#[test]
fn rejects_string_with_control_character() {
    assert!(!is_valid_desktop_entry_string("line\nbreak"));
}

#[test]
fn desktop_entry_accepts_only_printable_ascii() {
    for code in 0u32..0x200 {
        if let Some(c) = char::from_u32(code) {
            let s = format!("a{c}b");
            assert_eq!(
                is_valid_desktop_entry_string(&s),
                c.is_ascii() && !c.is_control(),
                "code {code:x}"
            );
        }
    }
    assert!(!is_valid_desktop_entry_string("caf\u{e9}"));
    assert!(!is_valid_desktop_entry_string("a\u{2028}b"));
    assert!(is_valid_desktop_entry_string("~ Tilde & Co."));
}

#[test]
fn classifies_prompt_kind_exclusively() {
    let kind = FileEntryKind::Prompt;

    assert!(kind.is_prompt());
    assert!(!kind.is_author());
    assert!(!kind.is_content());
    assert!(!kind.is_shortcode());
}

#[test]
fn classifies_every_kind() {
    assert!(FileEntryKind::Author.is_author());
    assert!(FileEntryKind::Content.is_content());
    assert!(FileEntryKind::Shortcode.is_shortcode());
    let other = FileEntryKind::Other;
    assert!(!other.is_author() && !other.is_content() && !other.is_prompt() && !other.is_shortcode());
}

#[test]
fn converts_known_role_strings() -> Result<(), UnknownRole> {
    assert_eq!(Role::try_from("assistant")?, Role::Assistant);
    assert_eq!(Role::try_from("user")?, Role::User);

    Ok(())
}

#[test]
fn rejects_unknown_role_string() {
    assert!(Role::try_from("system").is_err());
}

#[test]
fn converts_from_owned_string() -> Result<(), UnknownRole> {
    assert_eq!(Role::try_from("user".to_string())?, Role::User);

    Ok(())
}

#[test]
fn unknown_role_keeps_the_name() {
    let err = Role::try_from("User").unwrap_err();
    assert_eq!(err.value, "User");
    assert!(Role::try_from("").is_err());
}

#[test]
fn log_level_severity_orders_like_the_enum() {
    let all = [
        LogLevel::Debug,
        LogLevel::Info,
        LogLevel::Notice,
        LogLevel::Warning,
        LogLevel::Error,
        LogLevel::Critical,
        LogLevel::Alert,
        LogLevel::Emergency,
    ];
    for (i, a) in all.iter().enumerate() {
        assert_eq!(a.severity() as usize, i);
        for b in all.iter() {
            assert_eq!(a.is_at_least(b), a >= b);
        }
    }
}

#[test]
fn text_content_from_str_and_string() {
    assert_eq!(TextContent::from("abc").text, "abc");
    assert_eq!(TextContent::from("d\u{e9}".to_string()).text, "d\u{e9}");
}
