//! Application configuration: the settings, their defaults, and what loading
//! the configuration file yields.
use vstd::prelude::*;

use crate::error::NcError;

verus! {

/// Application configuration.
#[derive(Debug, Clone)]
pub struct Config {
    pub general: GeneralConfig,
    pub colors: ColorConfig,
    pub preview: PreviewConfig,
    pub bookmarks: Vec<String>,
}

#[derive(Debug, Clone)]
pub struct GeneralConfig {
    pub show_hidden: bool,
    pub sort_by: String,
    pub sort_ascending: bool,
    pub left_dir: Option<String>,
    pub right_dir: Option<String>,
    pub editor: Option<String>,
}

#[derive(Debug, Clone)]
pub struct ColorConfig {
    pub directory: String,
    pub symlink: String,
    pub executable: String,
    pub selected: String,
    pub cursor: String,
    pub active_border: String,
    pub inactive_border: String,
}

/// `[preview]`: image preview settings.
#[derive(Debug, Clone)]
pub struct PreviewConfig {
    /// `auto` (query the terminal), `off`, `halfblocks`, or a forced
    /// protocol: `sixel`, `kitty`, `iterm2`. `NCOXIDE_IMAGES` overrides it
    /// for one shell.
    pub images: String,
    /// Cell size in pixels `[width, height]` for terminals that do not report
    /// one (typical over SSH or inside a multiplexer); without it a detected
    /// protocol silently degrades to half-blocks.
    pub image_font_size: Option<[u16; 2]>,
    /// Image files above this size show their header facts only.
    pub image_max_bytes: u64,
}

pub open spec fn default_preview(p: PreviewConfig) -> bool {
    &&& p.images@ == "auto"@
    &&& p.image_font_size is None
    &&& p.image_max_bytes == 64 * 1024 * 1024
}

pub open spec fn default_general(g: GeneralConfig) -> bool {
    &&& !g.show_hidden
    &&& g.sort_by@ == "name"@
    &&& g.sort_ascending
    &&& g.left_dir is None
    &&& g.right_dir is None
    &&& g.editor is None
}

pub open spec fn default_colors(c: ColorConfig) -> bool {
    &&& c.directory@ == "blue"@
    &&& c.symlink@ == "magenta"@
    &&& c.executable@ == "green"@
    &&& c.selected@ == "yellow"@
    &&& c.cursor@ == "darkgray"@
    &&& c.active_border@ == "cyan"@
    &&& c.inactive_border@ == "darkgray"@
}

pub open spec fn default_config(c: Config) -> bool {
    &&& default_general(c.general)
    &&& default_colors(c.colors)
    &&& default_preview(c.preview)
    &&& c.bookmarks@.len() == 0
}

impl Default for PreviewConfig {
    fn default() -> (r: PreviewConfig)
        ensures
            default_preview(r),
    {
        PreviewConfig {
            images: String::from_str("auto"),
            image_font_size: None,
            image_max_bytes: 67108864,
        }
    }
}

impl Default for GeneralConfig {
    fn default() -> (r: GeneralConfig)
        ensures
            default_general(r),
    {
        GeneralConfig {
            show_hidden: false,
            sort_by: String::from_str("name"),
            sort_ascending: true,
            left_dir: None,
            right_dir: None,
            editor: None,
        }
    }
}

impl Default for ColorConfig {
    fn default() -> (r: ColorConfig)
        ensures
            default_colors(r),
    {
        ColorConfig {
            directory: String::from_str("blue"),
            symlink: String::from_str("magenta"),
            executable: String::from_str("green"),
            selected: String::from_str("yellow"),
            cursor: String::from_str("darkgray"),
            active_border: String::from_str("cyan"),
            inactive_border: String::from_str("darkgray"),
        }
    }
}

impl Default for Config {
    fn default() -> (r: Config)
        ensures
            default_config(r),
    {
        Config {
            general: GeneralConfig::default(),
            colors: ColorConfig::default(),
            preview: PreviewConfig::default(),
            bookmarks: Vec::new(),
        }
    }
}

impl Config {
    /// The configuration to run with, from what looking for the file gave:
    /// `None` when there is no configuration file, else what reading and
    /// parsing it gave. A missing or broken file gives the defaults.
    pub fn load(found: Option<Result<Config, NcError>>) -> (r: Config)
        ensures
            match found {
                Some(Ok(c)) => r == c,
                _ => default_config(r),
            },
    {
        match found {
            Some(Ok(c)) => c,
            _ => Config::default(),
        }
    }
}

} // verus!
