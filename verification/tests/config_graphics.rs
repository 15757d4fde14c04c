use ncoxide::config::{Config, PreviewConfig};
use ncoxide::error::NcError;
use ncoxide::probe_report::{report_text, report_vars};
use ncoxide::graphics::{
    best_capability, blacklist_for, describe, images_env, is_wezterm, parse_xtversion, probe,
    protocol_override, Capability, ImageMode, PickerInfo, Probe, Protocol, QueryResult,
};

#[test]
fn test_default_config() {
    let config = Config::default();
    assert!(!config.general.show_hidden);
    assert_eq!(config.general.sort_by, "name");
    assert!(config.general.sort_ascending);
    assert!(config.bookmarks.is_empty());
}

#[test]
fn config_load_falls_back_to_defaults() {
    // No file: defaults. A file that failed to parse: defaults too.
    let missing = Config::load(None);
    assert_eq!(missing.general.sort_by, "name");
    let broken = Config::load(Some(Err(NcError::Config("bad toml".to_string()))));
    assert_eq!(broken.preview.images, "auto");
    let mut mine = Config::default();
    mine.general.sort_by = "size".to_string();
    let loaded = Config::load(Some(Ok(mine)));
    assert_eq!(loaded.general.sort_by, "size");
}

#[test]
fn preview_config_defaults() {
    let defaults = PreviewConfig::default();
    assert_eq!(defaults.images, "auto");
    assert!(defaults.image_font_size.is_none());
    assert_eq!(defaults.image_max_bytes, 64 * 1024 * 1024);
}

#[test]
fn test_parse_modes() {
    assert_eq!(ImageMode::parse("auto"), Some(ImageMode::Auto));
    assert_eq!(ImageMode::parse(" Off "), Some(ImageMode::Off));
    assert_eq!(ImageMode::parse("halfblocks"), Some(ImageMode::Halfblocks));
    assert_eq!(ImageMode::parse("SIXEL"), Some(ImageMode::Sixel));
    assert_eq!(ImageMode::parse("kitty"), Some(ImageMode::Kitty));
    assert_eq!(ImageMode::parse("iterm2"), Some(ImageMode::Iterm2));
    assert_eq!(ImageMode::parse("chafa"), None);
}

#[test]
fn test_resolve_env_wins_and_unknown_values_are_skipped() {
    assert_eq!(ImageMode::resolve("auto", Some("kitty")), ImageMode::Kitty);
    assert_eq!(ImageMode::resolve("sixel", None), ImageMode::Sixel);
    // A bad env value falls through to the config, a bad config to auto.
    assert_eq!(ImageMode::resolve("sixel", Some("bogus")), ImageMode::Sixel);
    assert_eq!(ImageMode::resolve("bogus", None), ImageMode::Auto);
}

#[test]
fn test_best_capability_prefers_kitty() {
    assert_eq!(
        best_capability(&[Capability::Sixel, Capability::Kitty]),
        Some(Protocol::Kitty)
    );
    assert_eq!(best_capability(&[Capability::Sixel]), Some(Protocol::Sixel));
    assert_eq!(best_capability(&[Capability::Other]), None);
}

#[test]
fn test_parse_xtversion() {
    assert_eq!(
        parse_xtversion(b"\x1bP>|WezTerm 20240203-110809-5046fc22\x1b\\\x1b[0n").as_deref(),
        Some("WezTerm 20240203-110809-5046fc22")
    );
    // C1 string terminator, and bytes before the reply.
    assert_eq!(
        parse_xtversion("xx\x1bP>|foot 1.16.2\u{9c}".as_bytes()).as_deref(),
        Some("foot 1.16.2")
    );
    // Only the DSR answer: the terminal ignores XTVERSION.
    assert_eq!(parse_xtversion(b"\x1b[0n"), None);
    assert_eq!(parse_xtversion(b""), None);
}

#[test]
fn test_wezterm_rules() {
    assert!(is_wezterm(Some("WezTerm 20240203-110809-5046fc22")));
    assert!(is_wezterm(Some("wezterm nightly")));
    assert!(!is_wezterm(Some("kitty(0.36.4)")));
    assert!(!is_wezterm(None));

    assert_eq!(blacklist_for(true, false), vec![Protocol::Kitty, Protocol::Sixel]);
    assert_eq!(blacklist_for(true, true), vec![Protocol::Kitty]);
    assert!(blacklist_for(false, true).is_empty());

    assert_eq!(protocol_override(true, false), Some(Protocol::Iterm2));
    assert_eq!(protocol_override(true, true), None);
    assert_eq!(protocol_override(false, false), None);
}

fn halfblocks() -> PickerInfo {
    PickerInfo { protocol: Protocol::Halfblocks, font_width: 10, font_height: 20 }
}

#[test]
fn test_describe_mentions_terminal_and_rule() {
    let probe = Probe {
        mode: ImageMode::Auto,
        picker: Some(halfblocks()),
        source: "terminal query".to_string(),
        terminal: Some("WezTerm 2024".into()),
        rule: Some("WezTerm: iTerm2 instead of Kitty/Sixel".to_string()),
    };
    let text = describe(&probe);
    assert!(text.contains("terminal WezTerm 2024"), "{text}");
    assert!(text.contains("iTerm2 instead of Kitty"), "{text}");
}

#[test]
fn test_probe_off_and_halfblocks_need_no_terminal() {
    let mut config = PreviewConfig { images: "off".into(), ..Default::default() };
    let result = probe(&config, None, false, None);
    assert!(result.picker.is_none());
    assert_eq!(result.mode, ImageMode::Off);

    config.images = "halfblocks".into();
    let result = probe(&config, None, false, None);
    assert_eq!(result.picker.as_ref().map(|p| p.protocol), Some(Protocol::Halfblocks));
    assert!(describe(&result).contains("halfblocks"));
}

#[test]
fn probe_wezterm_gets_iterm2_and_says_why() {
    let config = PreviewConfig::default();
    let queried = QueryResult {
        picker: PickerInfo { protocol: Protocol::Kitty, font_width: 8, font_height: 16 },
        capabilities: vec![Capability::Kitty, Capability::Sixel],
        terminal: Some("WezTerm 20240203".to_string()),
    };
    let result = probe(&config, None, false, Some(queried));
    assert_eq!(result.mode, ImageMode::Auto);
    assert_eq!(result.picker.map(|p| p.protocol), Some(Protocol::Iterm2));
    assert!(result.rule.is_some());
}

#[test]
fn probe_env_override_forces_protocol() {
    let config = PreviewConfig::default();
    let result = probe(&config, Some("sixel"), false, None);
    assert_eq!(result.mode, ImageMode::Sixel);
    assert_eq!(images_env(), "NCOXIDE_IMAGES");
}

#[test]
fn probe_report_hides_secrets_and_lists_notes() {
    assert_eq!(report_vars().len(), 7);
    let env = vec![
        ("TERM".to_string(), Some("xterm \"256\"".to_string())),
        ("SSH_CONNECTION".to_string(), Some("10.0.0.1 5 10.0.0.2 22 é".to_string())),
        ("TMUX".to_string(), None),
    ];
    let probe = Probe {
        mode: ImageMode::Auto,
        picker: Some(halfblocks()),
        source: "terminal query".to_string(),
        terminal: None,
        rule: None,
    };
    let text = report_text(
        &env,
        "auto",
        Some("kitty"),
        Some([10, 20]),
        &probe,
        "[Kitty]",
        &[Capability::Kitty],
        false,
    );
    let secret = "10.0.0.1 5 10.0.0.2 22 é";
    let mut expected = String::from("ncoxide terminal graphics probe\n");
    expected += &format!("  {:<20} {:?}\n", "TERM", "xterm \"256\"");
    expected += &format!("  {:<20} (set, {} chars)\n", "SSH_CONNECTION", secret.len());
    expected += &format!("  {:<20} unset\n", "TMUX");
    expected += &format!("  [preview] images = {:?}, NCOXIDE_IMAGES = {:?}\n", "auto", "kitty");
    expected += "  [preview] image_font_size = [10, 20]\n";
    expected += &format!("result: {}\n", describe(&probe));
    expected += "  terminal (XTVERSION): no reply\n";
    expected += "  capabilities: [Kitty]\n";
    expected += "  note: the terminal reported Kitty but no cell size; set [preview] image_font_size = [width_px, height_px] to use it\n";
    assert_eq!(secret.len(), 25);
    assert_eq!(text, expected);
}
