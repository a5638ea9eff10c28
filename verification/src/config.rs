//! The settings of the screen saver and what the engine derives from them.
use vstd::prelude::*;
use vstd::string::StringExecFns;
use std::path::PathBuf;
use crate::characters::RATE_SCALE;
use crate::color::{color_of, color_or, css_rgba, parse_css, Color};
use crate::text::{plain, plain_chars, string_of};

verus! {

/// Name of the settings file inside the application directory.
pub const CONFIG_FILE: &'static str = "Config.toml";

/// The settings.
#[derive(Clone, Debug)]
pub struct Config {
    /// The alphabet, with whatever white space lays it out.
    pub characters: String,
    /// Which font to draw with: `"1"`, `"2"` or `"3"` for a built-in font,
    /// anything else for the path of a font file.
    pub font: String,
    /// Font size in pixels; also the width of a column.
    pub font_size: i32,
    /// Ink colour, as a CSS colour.
    pub color: String,
    /// Flash colour, as a CSS colour.
    pub light_color: String,
    /// Opacity the flash pass of a glyph loses per tick.
    pub light_speed: i32,
    /// Background colour, as a CSS colour.
    pub background: String,
    /// Opacity the ink pass of a glyph loses per tick.
    pub fade_speed: i32,
    /// Extra pixels between two rows.
    pub spaceing: u32,
    pub fullscreen: bool,
    pub window_width: u32,
    pub window_height: u32,
    /// Width in pixels of the picture that is rendered and then scaled to
    /// the window.
    pub logical_size: u32,
    /// Chance that a visible glyph changes its character in a tick, in
    /// parts of `RATE_SCALE`.
    pub mutation_rate: u32,
    /// Milliseconds between two ticks.
    pub frame_delay: u64,
}

/// The settings as mathematical values: every text as its characters.
pub struct ConfigView {
    pub characters: Seq<char>,
    pub font: Seq<char>,
    pub font_size: i32,
    pub color: Seq<char>,
    pub light_color: Seq<char>,
    pub light_speed: i32,
    pub background: Seq<char>,
    pub fade_speed: i32,
    pub spaceing: u32,
    pub fullscreen: bool,
    pub window_width: u32,
    pub window_height: u32,
    pub logical_size: u32,
    pub mutation_rate: u32,
    pub frame_delay: u64,
}

impl View for Config {
    type V = ConfigView;

    open spec fn view(&self) -> ConfigView {
        ConfigView {
            characters: self.characters@,
            font: self.font@,
            font_size: self.font_size,
            color: self.color@,
            light_color: self.light_color@,
            light_speed: self.light_speed,
            background: self.background@,
            fade_speed: self.fade_speed,
            spaceing: self.spaceing,
            fullscreen: self.fullscreen,
            window_width: self.window_width,
            window_height: self.window_height,
            logical_size: self.logical_size,
            mutation_rate: self.mutation_rate,
            frame_delay: self.frame_delay,
        }
    }
}

/// Where the font comes from.
#[derive(Debug)]
pub enum FontSource {
    /// The built-in bitmap font.
    Bitmap,
    /// The built-in seal-script font.
    SealScript,
    /// The built-in oracle-bone font.
    OracleBone,
    /// A font file at the given path.
    File(String),
}

impl Config {
    /// The settings a field can be built from: a font size of at least one
    /// pixel, a row pitch within `u32`, speeds of at least one so that every
    /// glyph fades out, a mutation rate on the scale, and an alphabet with
    /// at least one character.
    pub open spec fn valid(&self) -> bool {
        &&& self.font_size >= 1
        &&& self.font_size + self.spaceing <= u32::MAX
        &&& self.fade_speed >= 1
        &&& self.light_speed >= 1
        &&& self.mutation_rate <= RATE_SCALE
        &&& plain(self.characters@).len() > 0
    }

    /// The settings a fresh installation starts with.
    pub open spec fn is_default(&self) -> bool {
        &&& self.characters@ == "01"@
        &&& self.font@ == "1"@
        &&& self.font_size == 12
        &&& self.color@ == "rgb(0, 255, 70)"@
        &&& self.light_color@ == "white"@
        &&& self.light_speed == 200
        &&& self.background@ == "black"@
        &&& self.fade_speed == 10
        &&& self.spaceing == 0
        &&& self.fullscreen
        &&& self.window_width == 900
        &&& self.window_height == 600
        &&& self.logical_size == 640
        &&& self.mutation_rate == 1000
        &&& self.frame_delay == 50
    }

    /// The ink colour: what the setting parses to, or green.
    pub open spec fn spec_color(&self) -> Color {
        color_of(css_rgba(self.color@), Color { a: 255, r: 0, g: 255, b: 70 })
    }

    /// The flash colour: what the setting parses to, or white.
    pub open spec fn spec_light_color(&self) -> Color {
        color_of(css_rgba(self.light_color@), Color { a: 255, r: 255, g: 255, b: 255 })
    }

    /// The background colour: what the setting parses to, or black.
    pub open spec fn spec_background(&self) -> Color {
        color_of(css_rgba(self.background@), Color { a: 255, r: 0, g: 0, b: 0 })
    }

    /// Whether a field can be built from the settings.
    pub fn is_valid(&self) -> (ok: bool)
        ensures
            ok == self.valid(),
    {
        if self.font_size < 1 || self.fade_speed < 1 || self.light_speed < 1 {
            return false;
        }
        if self.font_size as u64 + self.spaceing as u64 > u32::MAX as u64 {
            return false;
        }
        if self.mutation_rate > RATE_SCALE {
            return false;
        }
        let letters = plain_chars(self.characters.as_str());
        letters.len() > 0
    }

    /// Reads a CSS colour, falling back to `default` where the text is none.
    pub fn parse_color(color: &str, default: Color) -> (c: Color)
        ensures
            c == color_of(css_rgba(color@), default),
    {
        color_or(parse_css(color), default)
    }

    /// The alphabet as it stands in the settings.
    pub fn characters(&self) -> (text: String)
        ensures
            text@ == self.characters@,
    {
        self.characters.clone()
    }

    /// The alphabet without its layout: leading and trailing white space
    /// dropped, then every tab, carriage return, line feed and space.
    pub fn characters_plain(&self) -> (text: String)
        ensures
            text@ == plain(self.characters@),
    {
        let letters = plain_chars(self.characters.as_str());
        string_of(&letters)
    }

    /// Replaces the alphabet and nothing else.
    pub fn set_characters(&mut self, characters: &str)
        ensures
            final(self)@ == (ConfigView { characters: characters@, ..old(self)@ }),
    {
        self.characters = characters.to_owned();
    }

    /// The ink colour.
    pub fn color(&self) -> (c: Color)
        ensures
            c == self.spec_color(),
    {
        Self::parse_color(self.color.as_str(), Color::new(255, 0, 255, 70))
    }

    /// The flash colour.
    pub fn light_color(&self) -> (c: Color)
        ensures
            c == self.spec_light_color(),
    {
        Self::parse_color(self.light_color.as_str(), Color::new(255, 255, 255, 255))
    }

    /// The background colour.
    pub fn background(&self) -> (c: Color)
        ensures
            c == self.spec_background(),
    {
        Self::parse_color(self.background.as_str(), Color::new(255, 0, 0, 0))
    }

    /// Where the font comes from: `"2"` and `"3"` name built-in fonts, any
    /// other text but `"1"` and the empty one is the path of a font file, and
    /// those two stand for the built-in bitmap font.
    pub fn font_source(&self) -> (source: FontSource)
        ensures
            match source {
                FontSource::SealScript => self.font@ == "2"@,
                FontSource::OracleBone => self.font@ == "3"@,
                FontSource::File(path) => path@ == self.font@ && self.font@ != "1"@
                    && self.font@ != "2"@ && self.font@ != "3"@ && self.font@.len() > 0,
                FontSource::Bitmap => self.font@ == "1"@ || self.font@.len() == 0,
            },
    {
        proof {
            reveal_strlit("1");
            reveal_strlit("2");
            reveal_strlit("3");
        }
        if self.font == String::from_str("2") {
            FontSource::SealScript
        } else if self.font == String::from_str("3") {
            FontSource::OracleBone
        } else if self.font != String::from_str("1") && !self.font.as_str().is_empty() {
            FontSource::File(self.font.clone())
        } else {
            FontSource::Bitmap
        }
    }
}

impl Default for Config {
    fn default() -> (c: Config)
        ensures
            c.is_default(),
    {
        Config {
            characters: String::from_str("01"),
            font: String::from_str("1"),
            font_size: 12,
            color: String::from_str("rgb(0, 255, 70)"),
            light_color: String::from_str("white"),
            light_speed: 200,
            background: String::from_str("black"),
            fade_speed: 10,
            spaceing: 0,
            fullscreen: true,
            window_width: 900,
            window_height: 600,
            logical_size: 640,
            mutation_rate: 1000,
            frame_delay: 50,
        }
    }
}

/// The settings to run with: the ones that were loaded, or the defaults
/// where none could be.
pub fn read_config(loaded: Option<Config>) -> (cfg: Config)
    ensures
        match loaded {
            Some(found) => cfg == found,
            None => cfg.is_default(),
        },
{
    match loaded {
        Some(found) => found,
        None => Config::default(),
    }
}

/// Appends a file name to a directory with `PathBuf::push`, by the path
/// rules of the platform, and reads the path back as text with
/// `Path::to_string_lossy`, which gives a text for every path. Nothing is
/// claimed about the text that comes back.
#[verifier::external_body]
fn join_path(dir: &str, name: &str) -> (path: String) {
    let mut joined = PathBuf::from(dir);
    joined.push(name);
    joined.to_string_lossy().into_owned()
}

/// The path of the settings file, given the application directory and that
/// directory joined with the file's name: there is none where there is no
/// directory or its path is empty, and else it is the joined path.
pub open spec fn config_path_of(app_dir: Option<String>, joined: String) -> Option<String> {
    match app_dir {
        Some(dir) => if dir@.len() > 0 {
            Some(joined)
        } else {
            None
        },
        None => None,
    }
}

/// Chooses the path of the settings file; see [`config_path_of`].
pub fn choose_config_path(app_dir: &Option<String>, joined: String) -> (path: Option<String>)
    ensures
        path == config_path_of(*app_dir, joined),
{
    match app_dir {
        Some(dir) => {
            if dir.as_str().is_empty() {
                None
            } else {
                Some(joined)
            }
        },
        None => None,
    }
}

/// The path of the settings file inside the application directory.
///
/// There is one exactly where there is an application directory whose path
/// is not empty: the directory joined with `CONFIG_FILE` by the platform's
/// path rules, whatever text those give.
pub fn get_config_path(app_dir: Option<String>) -> (path: Option<String>)
    ensures
        path is Some <==> app_dir is Some && app_dir->0@.len() > 0,
{
    match &app_dir {
        Some(dir) => {
            let joined = join_path(dir.as_str(), CONFIG_FILE);
            choose_config_path(&app_dir, joined)
        },
        None => None,
    }
}

} // verus!
