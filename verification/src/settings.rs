//! The settings a user can change, and where to read them from.

use vstd::prelude::*;
use crate::json::{parse_json, parsed_json, Json};
use crate::schema::{find_member, member, read_text, required, text_of};
use crate::types::Settings;

verus! {

/// The settings of a user who has saved none.
pub fn default_settings() -> (settings: Settings)
    ensures
        settings.episode_regex@ == "\\[(\\d{2})\\]"@,
        settings.model_url@ == "http://localhost:11434/v1/chat/completions"@,
        settings.model_name@ == "qwen/qwen3-vl-8b"@,
{
    Settings {
        episode_regex: "\\[(\\d{2})\\]".to_owned(),
        model_url: "http://localhost:11434/v1/chat/completions".to_owned(),
        model_name: "qwen/qwen3-vl-8b".to_owned(),
    }
}

/// Where settings are read from.
#[derive(Clone, Copy, Debug, PartialEq, Eq, Structural)]
pub enum SettingsSource {
    /// The file in the user's configuration directory.
    Canonical,
    /// The file in the working directory, where older versions kept it.
    Legacy,
    /// No file: the defaults.
    Defaults,
}

/// Picks the place to read settings from: the canonical file where it is
/// there, else the legacy file where that is there, else the defaults.
/// Settings are always written to the canonical file.
pub fn choose_source(canonical_exists: bool, legacy_exists: bool) -> (source: SettingsSource)
    ensures
        source == if canonical_exists {
            SettingsSource::Canonical
        } else if legacy_exists {
            SettingsSource::Legacy
        } else {
            SettingsSource::Defaults
        },
{
    if canonical_exists {
        SettingsSource::Canonical
    } else if legacy_exists {
        SettingsSource::Legacy
    } else {
        SettingsSource::Defaults
    }
}

/// What a [`Settings`] holds.
pub struct SettingsView {
    pub episode_regex: Seq<char>,
    pub model_url: Seq<char>,
    pub model_name: Seq<char>,
}

impl View for Settings {
    type V = SettingsView;

    open spec fn view(&self) -> SettingsView {
        SettingsView {
            episode_regex: self.episode_regex@,
            model_url: self.model_url@,
            model_name: self.model_name@,
        }
    }
}

/// The settings that a JSON document stands for: an object whose members
/// `episode_regex`, `model_url` and `model_name` are strings.
pub open spec fn settings_of(json: Json) -> Option<SettingsView> {
    match json {
        Json::Object(members) => match (
            required(member(members@, "episode_regex"@), |j: Json| text_of(j)),
            required(member(members@, "model_url"@), |j: Json| text_of(j)),
            required(member(members@, "model_name"@), |j: Json| text_of(j)),
        ) {
            (Some(episode_regex), Some(model_url), Some(model_name)) => Some(
                SettingsView { episode_regex, model_url, model_name },
            ),
            _ => None,
        },
        _ => None,
    }
}

/// The settings that the text of a settings file holds.
pub open spec fn settings_in(text: Seq<char>) -> Option<SettingsView> {
    match parsed_json(text) {
        Some(json) => settings_of(json),
        None => None,
    }
}

/// Reads the string member called `key`.
fn read_member(members: &Vec<(String, Json)>, key: &str) -> (r: Option<String>)
    ensures
        match r {
            Some(s) => required(member(members@, key@), |j: Json| text_of(j)) == Some(s@),
            None => required(member(members@, key@), |j: Json| text_of(j)) is None,
        },
{
    match find_member(members, key) {
        Some(value) => read_text(value),
        None => None,
    }
}

/// Reads the settings that `json` stands for.
pub fn decode_settings(json: &Json) -> (r: Option<Settings>)
    ensures
        match r {
            Some(settings) => settings_of(*json) == Some(settings@),
            None => settings_of(*json) is None,
        },
{
    let members = match json {
        Json::Object(members) => members,
        _ => {
            return None;
        },
    };
    let episode_regex = match read_member(members, "episode_regex") {
        Some(v) => v,
        None => {
            return None;
        },
    };
    let model_url = match read_member(members, "model_url") {
        Some(v) => v,
        None => {
            return None;
        },
    };
    let model_name = match read_member(members, "model_name") {
        Some(v) => v,
        None => {
            return None;
        },
    };
    Some(Settings { episode_regex, model_url, model_name })
}

/// Reads the settings that the text of a settings file holds.
pub fn parse_settings(text: &str) -> (r: Option<Settings>)
    ensures
        match r {
            Some(settings) => settings_in(text@) == Some(settings@),
            None => settings_in(text@) is None,
        },
{
    match parse_json(text) {
        Some(json) => decode_settings(&json),
        None => None,
    }
}

} // verus!
