//! Application configuration: the selected theme and tab, and the theme
//! table. Reading and writing the configuration file is the caller's
//! business; the defaults and lookups live here.

use vstd::prelude::*;
use vstd::string::StringExecFns;

verus! {

pub struct Config {
    pub theme_index: usize,
    pub default_tab: usize,
    pub auto_save: bool,
    pub themes: Vec<Theme>,
}

pub struct Theme {
    pub name: String,
    pub primary_color: String,
    pub secondary_color: String,
    pub background_color: String,
    pub text_color: String,
}

/// The built-in configuration, field by field: first theme and tab
/// selected, auto-save on, and the two stock themes with their colours.
pub open spec fn spec_default_config(c: Config) -> bool {
    &&& c.theme_index == 0
    &&& c.default_tab == 0
    &&& c.auto_save
    &&& c.themes@.len() == 2
    &&& c.themes@[0].name@ == "Default"@
    &&& c.themes@[0].primary_color@ == "#FF0000"@
    &&& c.themes@[0].secondary_color@ == "#00FF00"@
    &&& c.themes@[0].background_color@ == "#0000FF"@
    &&& c.themes@[0].text_color@ == "#FFFFFF"@
    &&& c.themes@[1].name@ == "Solarized"@
    &&& c.themes@[1].primary_color@ == "#268986"@
    &&& c.themes@[1].secondary_color@ == "#b58900"@
    &&& c.themes@[1].background_color@ == "#fdf6e3"@
    &&& c.themes@[1].text_color@ == "#657b83"@
}

impl Config {
    /// The current theme.
    pub fn current_theme(&self) -> (t: &Theme)
        requires
            self.theme_index < self.themes@.len(),
        ensures
            t == self.themes@[self.theme_index as int],
    {
        &self.themes[self.theme_index]
    }
}

impl Default for Config {
    /// The built-in configuration: first theme and tab selected, auto-save
    /// on, and two themes.
    fn default() -> (c: Config)
        ensures
            spec_default_config(c),
    {
        let default_theme = Theme {
            name: "Default".to_owned(),
            primary_color: "#FF0000".to_owned(),
            secondary_color: "#00FF00".to_owned(),
            background_color: "#0000FF".to_owned(),
            text_color: "#FFFFFF".to_owned(),
        };
        let solarized_theme = Theme {
            name: "Solarized".to_owned(),
            primary_color: "#268986".to_owned(),
            secondary_color: "#b58900".to_owned(),
            background_color: "#fdf6e3".to_owned(),
            text_color: "#657b83".to_owned(),
        };
        let mut themes: Vec<Theme> = Vec::new();
        themes.push(default_theme);
        themes.push(solarized_theme);
        Config { theme_index: 0, default_tab: 0, auto_save: true, themes }
    }
}

} // verus!
