//! Changes to the settings, as the settings dialog asks for them.
use vstd::prelude::*;
use vstd::string::StringExecFns;
use crate::alphabets::{CHARACTERS_01, CHARACTERS_JAP, CHARACTERS_JIAGUWEN, CHARACTERS_ZHUANTI};
use crate::color::{css_rgba, parse_css};
use crate::config::{Config, ConfigView};

verus! {

/// An alphabet that the dialog offers.
#[derive(Clone, Copy, Debug, PartialEq, Eq, Structural)]
pub enum CharacterSet {
    Digits,
    Katakana,
    OracleBone,
    SealScript,
}

/// A built-in font.
#[derive(Clone, Copy, Debug, PartialEq, Eq, Structural)]
pub enum FontChoice {
    Bitmap,
    SealScript,
    OracleBone,
}

/// One request of the dialog.
#[derive(Debug)]
pub enum Setting {
    /// A new alphabet, typed in; an empty one is ignored.
    Characters(String),
    /// One of the offered alphabets, with the font that covers it.
    CharacterSet(CharacterSet),
    Font(FontChoice),
    FontSize(i32),
    Fullscreen(bool),
    Spaceing(u32),
    LogicalSize(u32),
    FadeSpeed(i32),
    LightSpeed(i32),
    MutationRate(u32),
    FrameDelay(u64),
    /// A new ink colour; what is no CSS colour gives the default green.
    Color(String),
    /// A new flash colour; what is no CSS colour gives white.
    LightColor(String),
    /// A new background; what is no CSS colour gives black.
    Background(String),
    /// Write the settings and close the dialog.
    Save,
}

/// What the dialog has to do after a request.
#[derive(Clone, Copy, Debug, PartialEq, Eq, Structural)]
pub enum Action {
    Nothing,
    /// Show the settings anew: more than the changed control has changed.
    Refresh,
    /// Write the settings to their file and close.
    Save,
}

/// The text of an offered alphabet.
pub open spec fn alphabet_of(set: CharacterSet) -> Seq<char> {
    match set {
        CharacterSet::Digits => CHARACTERS_01@,
        CharacterSet::Katakana => CHARACTERS_JAP@,
        CharacterSet::OracleBone => CHARACTERS_JIAGUWEN@,
        CharacterSet::SealScript => CHARACTERS_ZHUANTI@,
    }
}

/// The font that covers an offered alphabet.
pub open spec fn font_for(set: CharacterSet) -> FontChoice {
    match set {
        CharacterSet::Digits => FontChoice::Bitmap,
        CharacterSet::Katakana => FontChoice::Bitmap,
        CharacterSet::OracleBone => FontChoice::OracleBone,
        CharacterSet::SealScript => FontChoice::SealScript,
    }
}

/// The name of a built-in font in the settings.
pub open spec fn font_name(choice: FontChoice) -> Seq<char> {
    match choice {
        FontChoice::Bitmap => "1"@,
        FontChoice::SealScript => "2"@,
        FontChoice::OracleBone => "3"@,
    }
}

/// A colour setting as it is stored: the text itself where it is a CSS
/// colour, else the fallback.
pub open spec fn checked_color(text: Seq<char>, fallback: Seq<char>) -> Seq<char> {
    if css_rgba(text) is Some {
        text
    } else {
        fallback
    }
}

impl ConfigView {
    /// The settings after a request.
    pub open spec fn applied(self, setting: Setting) -> ConfigView {
        match setting {
            Setting::Characters(text) => if text@.len() > 0 {
                ConfigView { characters: text@, ..self }
            } else {
                self
            },
            Setting::CharacterSet(set) => ConfigView {
                characters: alphabet_of(set),
                font: font_name(font_for(set)),
                ..self
            },
            Setting::Font(choice) => ConfigView { font: font_name(choice), ..self },
            Setting::FontSize(font_size) => ConfigView { font_size, ..self },
            Setting::Fullscreen(fullscreen) => ConfigView { fullscreen, ..self },
            Setting::Spaceing(spaceing) => ConfigView { spaceing, ..self },
            Setting::LogicalSize(logical_size) => ConfigView { logical_size, ..self },
            Setting::FadeSpeed(fade_speed) => ConfigView { fade_speed, ..self },
            Setting::LightSpeed(light_speed) => ConfigView { light_speed, ..self },
            Setting::MutationRate(mutation_rate) => ConfigView { mutation_rate, ..self },
            Setting::FrameDelay(frame_delay) => ConfigView { frame_delay, ..self },
            Setting::Color(text) => ConfigView {
                color: checked_color(text@, "rgb(0, 255, 70)"@),
                ..self
            },
            Setting::LightColor(text) => ConfigView {
                light_color: checked_color(text@, "white"@),
                ..self
            },
            Setting::Background(text) => ConfigView {
                background: checked_color(text@, "black"@),
                ..self
            },
            Setting::Save => self,
        }
    }
}

/// What the dialog has to do after a request: show everything anew after
/// the choice of an alphabet, write and close after `Save`, else nothing.
pub open spec fn action_of(setting: Setting) -> Action {
    match setting {
        Setting::CharacterSet(_) => Action::Refresh,
        Setting::Save => Action::Save,
        _ => Action::Nothing,
    }
}

/// The name of a built-in font in the settings.
pub fn font_text(choice: FontChoice) -> (name: String)
    ensures
        name@ == font_name(choice),
{
    match choice {
        FontChoice::Bitmap => String::from_str("1"),
        FontChoice::SealScript => String::from_str("2"),
        FontChoice::OracleBone => String::from_str("3"),
    }
}

/// The text to store for a colour setting.
pub fn color_text(text: String, fallback: &str) -> (stored: String)
    ensures
        stored@ == checked_color(text@, fallback@),
{
    if parse_css(text.as_str()).is_some() {
        text
    } else {
        String::from_str(fallback)
    }
}

impl Config {
    /// Carries out one request of the dialog and says what the dialog has
    /// to do next.
    pub fn apply(&mut self, setting: Setting) -> (action: Action)
        ensures
            final(self)@ == old(self)@.applied(setting),
            action == action_of(setting),
    {
        match setting {
            Setting::Characters(text) => {
                if !text.as_str().is_empty() {
                    self.characters = text;
                }
                Action::Nothing
            },
            Setting::CharacterSet(set) => {
                match set {
                    CharacterSet::Digits => {
                        self.characters = String::from_str(CHARACTERS_01);
                        self.font = font_text(FontChoice::Bitmap);
                    },
                    CharacterSet::Katakana => {
                        self.characters = String::from_str(CHARACTERS_JAP);
                        self.font = font_text(FontChoice::Bitmap);
                    },
                    CharacterSet::OracleBone => {
                        self.characters = String::from_str(CHARACTERS_JIAGUWEN);
                        self.font = font_text(FontChoice::OracleBone);
                    },
                    CharacterSet::SealScript => {
                        self.characters = String::from_str(CHARACTERS_ZHUANTI);
                        self.font = font_text(FontChoice::SealScript);
                    },
                }
                Action::Refresh
            },
            Setting::Font(choice) => {
                self.font = font_text(choice);
                Action::Nothing
            },
            Setting::FontSize(font_size) => {
                self.font_size = font_size;
                Action::Nothing
            },
            Setting::Fullscreen(fullscreen) => {
                self.fullscreen = fullscreen;
                Action::Nothing
            },
            Setting::Spaceing(spaceing) => {
                self.spaceing = spaceing;
                Action::Nothing
            },
            Setting::LogicalSize(logical_size) => {
                self.logical_size = logical_size;
                Action::Nothing
            },
            Setting::FadeSpeed(fade_speed) => {
                self.fade_speed = fade_speed;
                Action::Nothing
            },
            Setting::LightSpeed(light_speed) => {
                self.light_speed = light_speed;
                Action::Nothing
            },
            Setting::MutationRate(mutation_rate) => {
                self.mutation_rate = mutation_rate;
                Action::Nothing
            },
            Setting::FrameDelay(frame_delay) => {
                self.frame_delay = frame_delay;
                Action::Nothing
            },
            Setting::Color(text) => {
                self.color = color_text(text, "rgb(0, 255, 70)");
                Action::Nothing
            },
            Setting::LightColor(text) => {
                self.light_color = color_text(text, "white");
                Action::Nothing
            },
            Setting::Background(text) => {
                self.background = color_text(text, "black");
                Action::Nothing
            },
            Setting::Save => Action::Save,
        }
    }
}

} // verus!
