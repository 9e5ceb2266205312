use thetadata_terminal_manager::config_file::{fits_decoder_len, ConfigWrite};
use thetadata_terminal_manager::manager::ThetaApp;
use thetadata_terminal_manager::model::{AppConfig, Tab};
use thetadata_terminal_manager::state::ConfigSource;

fn with_config_path(path: &str) -> ThetaApp {
    ThetaApp::new(
        AppConfig {
            jar_path: None,
            auto_start: false,
            default_tab: Tab::Setup,
            thetadata_config_path: Some(path.to_string()),
        },
        None,
        None,
    )
}

#[test]
fn utf8_bytes_are_read_as_utf8() {
    let bytes = "port=25510\nname=z\u{fc}rich \u{20ac}\n".as_bytes().to_vec();
    assert_eq!(
        ThetaApp::read_thetadata_config_file(bytes),
        "port=25510\nname=z\u{fc}rich \u{20ac}\n"
    );
}

#[test]
fn empty_file_is_empty_text() {
    assert_eq!(ThetaApp::read_thetadata_config_file(Vec::new()), "");
}

#[test]
fn other_bytes_are_read_as_windows_1252() {
    // "café €" in windows-1252; 0xE9 alone is not UTF-8.
    let bytes = vec![0x63, 0x61, 0x66, 0xE9, 0x20, 0x80];
    assert_eq!(ThetaApp::read_thetadata_config_file(bytes), "caf\u{e9} \u{20ac}");
}

#[test]
fn windows_1252_keeps_ascii_lines() {
    let bytes = vec![b'#', b' ', 0xFC, b'\n', b'a', b'=', b'1', b'\n'];
    assert_eq!(ThetaApp::read_thetadata_config_file(bytes), "# \u{fc}\na=1\n");
}

#[test]
fn save_without_path_is_logged() {
    let mut app = ThetaApp::new(AppConfig::default(), None, None);
    app.thetadata_config_text = "a=1\n".to_string();
    assert_eq!(app.save_current_config_file(), None);
    assert_eq!(app.log_text, "No config file path set.\n");
}

#[test]
fn save_hands_out_path_and_text() {
    let mut app = with_config_path("/c.properties");
    app.thetadata_config_text = "a=1\n".to_string();
    assert_eq!(
        app.save_current_config_file(),
        Some(ConfigWrite { path: "/c.properties".to_string(), contents: "a=1\n".to_string() })
    );
    assert_eq!(app.log_text, "");
    app.config_file_written(Ok(()));
    assert_eq!(app.log_text, "Config file saved.\n");
}

#[test]
fn failed_save_is_logged_with_its_reason() {
    let mut app = with_config_path("/c.properties");
    app.config_file_written(Err("read-only file system".to_string()));
    assert_eq!(app.log_text, "Failed to write config file: read-only file system\n");
}

#[test]
fn startup_reads_the_chosen_file_silently() {
    let mut app = with_config_path("/c.properties");
    assert_eq!(app.config_file_at_startup(), Some("/c.properties".to_string()));
    app.config_file_loaded(ConfigSource::Startup, Ok("a=1\n".to_string()));
    assert_eq!(app.thetadata_config_text, "a=1\n");
    assert_eq!(app.log_text, "");
}

#[test]
fn startup_without_file_reads_nothing() {
    let app = ThetaApp::new(AppConfig::default(), None, None);
    assert_eq!(app.config_file_at_startup(), None);
}

#[test]
fn startup_with_unreadable_file_leaves_the_text_empty() {
    let mut app = with_config_path("/missing");
    app.config_file_loaded(ConfigSource::Startup, Err("not found".to_string()));
    assert_eq!(app.thetadata_config_text, "");
    assert_eq!(app.log_text, "");
}

#[test]
fn picked_file_is_chosen_and_loaded() {
    let mut app = ThetaApp::new(AppConfig::default(), None, None);
    app.config_file_picked("/picked.properties".to_string());
    assert_eq!(app.thetadata_config_path, "/picked.properties");
    app.config_file_loaded(
        ConfigSource::Browse,
        Ok(ThetaApp::decode_config_file(vec![0x61, 0xE9]).unwrap()),
    );
    assert_eq!(app.thetadata_config_text, "a\u{e9}");
    assert_eq!(app.log_text, "Config file loaded from browse.\n");
}

#[test]
fn picked_file_that_cannot_be_read_keeps_the_text() {
    let mut app = ThetaApp::new(AppConfig::default(), None, None);
    app.thetadata_config_text = "old".to_string();
    app.config_file_picked("/picked.properties".to_string());
    app.config_file_loaded(ConfigSource::Browse, Err("denied".to_string()));
    assert_eq!(app.thetadata_config_text, "old");
    assert_eq!(app.log_text, "Failed to load config from browse.\n");
}

#[test]
fn announced_file_is_taken_over() {
    let mut app = ThetaApp::new(AppConfig::default(), None, None);
    app.detect_config_file_path_in_line("Using /tmp/theta.conf as the config file");
    assert_eq!(app.config_file_from_terminal(), Some("/tmp/theta.conf".to_string()));
    assert_eq!(app.thetadata_config_path, "/tmp/theta.conf");
    app.config_file_loaded(ConfigSource::Terminal, Ok("x=2\n".to_string()));
    assert_eq!(app.thetadata_config_text, "x=2\n");
    assert_eq!(
        app.log_text,
        "Detected config file path from terminal: /tmp/theta.conf\n\
         Config file loaded from terminal detection.\n"
    );
}

#[test]
fn announced_file_that_cannot_be_read_is_logged() {
    let mut app = ThetaApp::new(AppConfig::default(), None, None);
    app.last_detected_config_path = Some("/gone".to_string());
    assert_eq!(app.config_file_from_terminal(), Some("/gone".to_string()));
    app.config_file_loaded(ConfigSource::Terminal, Err("not found".to_string()));
    assert_eq!(app.thetadata_config_path, "/gone");
    assert_eq!(app.thetadata_config_text, "");
    assert_eq!(app.log_text, "Failed to load config file: not found\n");
}

#[test]
fn nothing_announced_is_logged() {
    let mut app = ThetaApp::new(AppConfig::default(), None, None);
    assert_eq!(app.config_file_from_terminal(), None);
    assert_eq!(app.thetadata_config_path, "");
    assert_eq!(app.log_text, "No config path detected yet. Launch the terminal first.\n");
}

#[test]
fn refresh_reads_the_chosen_file_again() {
    let mut app = with_config_path("/c.properties");
    assert_eq!(app.config_file_to_refresh(), Some("/c.properties".to_string()));
    app.config_file_loaded(ConfigSource::Refresh, Ok("b=2\n".to_string()));
    assert_eq!(app.thetadata_config_text, "b=2\n");
    assert_eq!(app.log_text, "Config file refreshed from disk.\n");
}

#[test]
fn refresh_without_path_is_logged() {
    let mut app = ThetaApp::new(AppConfig::default(), None, None);
    assert_eq!(app.config_file_to_refresh(), None);
    assert_eq!(app.log_text, "No config path set to refresh.\n");
}

#[test]
fn failed_refresh_is_logged_with_its_reason() {
    let mut app = with_config_path("/c.properties");
    app.thetadata_config_text = "old".to_string();
    app.config_file_loaded(ConfigSource::Refresh, Err("denied".to_string()));
    assert_eq!(app.thetadata_config_text, "old");
    assert_eq!(app.log_text, "Failed to refresh config: denied\n");
}

#[test]
fn decoder_limit_admits_any_real_file() {
    assert!(fits_decoder_len(0));
    assert!(fits_decoder_len(1 << 20));
    assert!(fits_decoder_len((isize::MAX as usize - 64) / 6));
    assert!(!fits_decoder_len((isize::MAX as usize - 64) / 6 + 1));
    assert!(!fits_decoder_len(usize::MAX));
}

#[test]
fn loaded_text_is_taken_over_as_it_is() {
    let mut app = ThetaApp::new(AppConfig::default(), None, None);
    app.config_file_loaded(ConfigSource::Refresh, Ok("k = v\n".to_string()));
    assert_eq!(app.thetadata_config_text, "k = v\n");
    assert_eq!(app.log_text, "Config file refreshed from disk.\n");
    app.config_file_loaded(ConfigSource::Terminal, Err("gone".to_string()));
    assert_eq!(app.thetadata_config_text, "k = v\n");
    assert_eq!(
        app.log_text,
        "Config file refreshed from disk.\nFailed to load config file: gone\n"
    );
    app.config_file_loaded(ConfigSource::Startup, Err("gone".to_string()));
    assert_eq!(app.thetadata_config_text, "");
}

#[test]
fn decode_takes_what_read_takes() {
    assert_eq!(ThetaApp::decode_config_file(b"a=1\n".to_vec()), Some("a=1\n".to_string()));
    assert_eq!(ThetaApp::decode_config_file(vec![0xE9]), Some("\u{e9}".to_string()));
    assert_eq!(ThetaApp::decode_config_file(Vec::new()), Some(String::new()));
}
