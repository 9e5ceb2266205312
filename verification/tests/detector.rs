use thetadata_terminal_manager::detect::detect_config_path;
use thetadata_terminal_manager::manager::ThetaApp;
use thetadata_terminal_manager::model::AppConfig;
use thetadata_terminal_manager::text::{chars_of, find};

fn fresh() -> ThetaApp {
    ThetaApp::new(AppConfig::default(), None, None)
}

#[test]
fn announced_path_is_extracted() {
    assert_eq!(
        detect_config_path("Using /tmp/theta.conf as the config file"),
        Some("/tmp/theta.conf".to_string())
    );
}

#[test]
fn empty_content_is_no_match() {
    assert_eq!(detect_config_path("Using  as the config file"), None);
}

#[test]
fn missing_suffix_is_no_match() {
    assert_eq!(detect_config_path("Using /tmp/theta.conf as the config"), None);
}

#[test]
fn missing_prefix_is_no_match() {
    assert_eq!(detect_config_path("/tmp/theta.conf as the config file"), None);
}

#[test]
fn prefix_after_suffix_is_no_match() {
    assert_eq!(detect_config_path(" as the config file Using /tmp/theta.conf"), None);
}

#[test]
fn first_prefix_and_first_suffix_decide() {
    // The first suffix stands before the first prefix, so the later pair
    // does not count.
    assert_eq!(
        detect_config_path("x as the config file, Using /a as the config file"),
        None
    );
    assert_eq!(
        detect_config_path("Using Using /a as the config file as the config file"),
        Some("Using /a".to_string())
    );
}

#[test]
fn path_is_trimmed_on_both_sides() {
    assert_eq!(
        detect_config_path("[INFO] Using   /opt/theta/config.properties \t as the config file."),
        Some("/opt/theta/config.properties".to_string())
    );
}

#[test]
fn unicode_white_space_is_trimmed() {
    assert_eq!(
        detect_config_path(
            "Using \u{3000}/home/z\u{fc}rich/c.toml\u{a0}\u{2003} as the config file"
        ),
        Some("/home/z\u{fc}rich/c.toml".to_string())
    );
}

#[test]
fn white_space_alone_gives_an_empty_path() {
    assert_eq!(detect_config_path("Using   as the config file"), Some(String::new()));
}

#[test]
fn white_space_inside_the_path_stays() {
    assert_eq!(
        detect_config_path("Using C:\\Program Files\\theta.cfg as the config file"),
        Some("C:\\Program Files\\theta.cfg".to_string())
    );
}

#[test]
fn empty_line_is_no_match() {
    assert_eq!(detect_config_path(""), None);
}

#[test]
fn detection_is_recorded_and_logged() {
    let mut app = fresh();
    app.detect_config_file_path_in_line("Using /tmp/theta.conf as the config file");
    assert_eq!(app.last_detected_config_path, Some("/tmp/theta.conf".to_string()));
    assert_eq!(app.log_text, "Detected config file path from terminal: /tmp/theta.conf\n");
}

#[test]
fn line_without_path_changes_nothing() {
    let mut app = fresh();
    app.detect_config_file_path_in_line("Using /tmp/theta.conf as the config");
    assert_eq!(app.last_detected_config_path, None);
    assert_eq!(app.log_text, "");
}

#[test]
fn latest_detection_wins() {
    let mut app = fresh();
    app.detect_config_file_path_in_line("Using /a as the config file");
    app.detect_config_file_path_in_line("nothing to see");
    app.detect_config_file_path_in_line("Using /b as the config file");
    assert_eq!(app.last_detected_config_path, Some("/b".to_string()));
    assert_eq!(
        app.log_text,
        "Detected config file path from terminal: /a\nDetected config file path from terminal: /b\n"
    );
}

#[test]
fn find_gives_the_first_position() {
    let hay = chars_of("abcabc");
    assert_eq!(find(&hay, &chars_of("bc")), Some(1));
    assert_eq!(find(&hay, &chars_of("abcabc")), Some(0));
    assert_eq!(find(&hay, &chars_of("c")), Some(2));
    assert_eq!(find(&hay, &chars_of("ca")), Some(2));
    assert_eq!(find(&hay, &chars_of("cb")), None);
    assert_eq!(find(&hay, &chars_of("abcabca")), None);
    assert_eq!(find(&hay, &chars_of("")), Some(0));
    assert_eq!(find(&chars_of(""), &chars_of("")), Some(0));
    assert_eq!(find(&chars_of(""), &chars_of("a")), None);
}

#[test]
fn find_counts_characters_not_bytes() {
    let hay = chars_of("\u{e9}\u{e9}x");
    assert_eq!(find(&hay, &chars_of("x")), Some(2));
}

#[test]
fn chars_of_keeps_every_character() {
    assert_eq!(chars_of("a\u{e9}\u{1f600}"), vec!['a', '\u{e9}', '\u{1f600}']);
    assert_eq!(chars_of(""), Vec::<char>::new());
}
