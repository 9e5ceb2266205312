//! The settings that outlive a session, and the tabs they refer to.

use vstd::prelude::*;

verus! {

/// The name under which the settings are kept between sessions.
pub const SETTINGS_NAME: &'static str = "thetadata_terminal_manager";

/// Which tab is selected.
#[derive(Clone, Copy, Debug, PartialEq, Eq, Structural)]
pub enum Tab {
    Setup,
    Terminal,
    Config,
}

impl Default for Tab {
    fn default() -> (tab: Self)
        ensures
            tab == Tab::Setup,
    {
        Tab::Setup
    }
}

/// The settings as they are kept between sessions.
#[derive(Clone, Debug, PartialEq, Eq)]
pub struct AppConfig {
    pub jar_path: Option<String>,
    pub auto_start: bool,
    pub default_tab: Tab,
    pub thetadata_config_path: Option<String>,
}

/// `AppConfig` with its texts as sequences of characters.
pub struct Settings {
    pub jar_path: Option<Seq<char>>,
    pub auto_start: bool,
    pub default_tab: Tab,
    pub thetadata_config_path: Option<Seq<char>>,
}

/// The characters of an optional text.
pub open spec fn text_of(text: Option<String>) -> Option<Seq<char>> {
    match text {
        Some(text) => Some(text@),
        None => None,
    }
}

/// The characters of each of `lines`.
pub open spec fn texts_of(lines: Seq<String>) -> Seq<Seq<char>> {
    lines.map_values(|line: String| line@)
}

impl View for AppConfig {
    type V = Settings;

    open spec fn view(&self) -> Settings {
        Settings {
            jar_path: text_of(self.jar_path),
            auto_start: self.auto_start,
            default_tab: self.default_tab,
            thetadata_config_path: text_of(self.thetadata_config_path),
        }
    }
}

impl Settings {
    /// The settings of a first session: nothing chosen yet.
    pub open spec fn blank() -> Settings {
        Settings {
            jar_path: None,
            auto_start: false,
            default_tab: Tab::Setup,
            thetadata_config_path: None,
        }
    }
}

impl Default for AppConfig {
    fn default() -> (cfg: Self)
        ensures
            cfg@ == Settings::blank(),
    {
        AppConfig {
            jar_path: None,
            auto_start: false,
            default_tab: Tab::Setup,
            thetadata_config_path: None,
        }
    }
}

} // verus!
