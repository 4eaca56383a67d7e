//! Where the API key comes from.
//!
//! The key is looked for in five places, in a fixed order: three environment
//! variables, the `env` table of the settings document, and a key file. The
//! caller reads those places and hands over what it found; the choice among
//! them is made here.

use crate::json::{json_parse, json_view, member, parse, string_value, Json};
use crate::segment::QuotaSegment;
use crate::text::{trim, trimmed};
use vstd::prelude::*;

verus! {

/// The environment variable that is asked first.
pub const YESCODE_API_KEY: &'static str = "YESCODE_API_KEY";

/// The environment variable that is asked second; also a member of the
/// settings document's `env` table.
pub const ANTHROPIC_API_KEY: &'static str = "ANTHROPIC_API_KEY";

/// The environment variable that is asked third; also a member of the
/// settings document's `env` table.
pub const ANTHROPIC_AUTH_TOKEN: &'static str = "ANTHROPIC_AUTH_TOKEN";

/// The member of the settings document that holds the table of variables.
pub const SETTINGS_TABLE: &'static str = "env";

/// The name of the settings document inside the user's configuration
/// directory.
pub const SETTINGS_FILE: &'static str = "settings.json";

/// The name of the key file inside the user's configuration directory.
pub const KEY_FILE: &'static str = "api_key";

/// What was found in the places a key may come from. `None` stands for a
/// variable that is not set, or a file that is not there or cannot be read.
pub struct CredentialSources {
    /// The value of the variable [`YESCODE_API_KEY`].
    pub yescode_api_key: Option<String>,
    /// The value of the variable [`ANTHROPIC_API_KEY`].
    pub anthropic_api_key: Option<String>,
    /// The value of the variable [`ANTHROPIC_AUTH_TOKEN`].
    pub anthropic_auth_token: Option<String>,
    /// The text of the settings document.
    pub settings: Option<String>,
    /// The text of the key file.
    pub key_file: Option<String>,
}

/// The text as a key: an empty text is no key.
pub open spec fn usable(text: Seq<char>) -> Option<Seq<char>> {
    if text.len() > 0 {
        Some(text)
    } else {
        None
    }
}

/// The key that an optional text gives.
pub open spec fn usable_text(value: Option<Seq<char>>) -> Option<Seq<char>> {
    match value {
        Some(text) => usable(text),
        None => None,
    }
}

/// The characters of an optional string.
pub open spec fn text_of(value: Option<String>) -> Option<Seq<char>> {
    match value {
        Some(text) => Some(text@),
        None => None,
    }
}

/// The characters of an optional string slice.
pub open spec fn slice_of(value: Option<&str>) -> Option<Seq<char>> {
    match value {
        Some(text) => Some(text@),
        None => None,
    }
}

/// The first of two optional keys that is there.
pub open spec fn first_of(first: Option<Seq<char>>, second: Option<Seq<char>>) -> Option<Seq<char>> {
    if first is Some {
        first
    } else {
        second
    }
}

/// The key that the two members of the settings table give: the auth token
/// before the API key.
pub open spec fn chosen_token(auth_token: Option<Seq<char>>, api_key: Option<Seq<char>>) -> Option<
    Seq<char>,
> {
    first_of(usable_text(auth_token), usable_text(api_key))
}

/// The key that a parsed settings document gives: the one that the two
/// members of its table give. A document without the table, and a table where
/// neither member is a non-empty string, give none.
pub open spec fn document_key(document: Json) -> Option<Seq<char>> {
    match document.member(SETTINGS_TABLE@) {
        Some(table) => chosen_token(
            table.text_member(ANTHROPIC_AUTH_TOKEN@),
            table.text_member(ANTHROPIC_API_KEY@),
        ),
        None => None,
    }
}

/// The key that the text of a settings document gives. A text that is no JSON
/// document gives none.
pub open spec fn settings_key(content: Seq<char>) -> Option<Seq<char>> {
    match json_parse(content) {
        Some(document) => document_key(document),
        None => None,
    }
}

/// The key that the key file gives: its text without the white space around
/// it, unless nothing is left.
pub open spec fn file_key(content: Seq<char>) -> Option<Seq<char>> {
    usable(trimmed(content))
}

impl CredentialSources {
    /// The key that the three variables give.
    pub open spec fn variable_key(self) -> Option<Seq<char>> {
        first_of(
            usable_text(text_of(self.yescode_api_key)),
            first_of(
                usable_text(text_of(self.anthropic_api_key)),
                usable_text(text_of(self.anthropic_auth_token)),
            ),
        )
    }

    /// The key that the settings document gives, if there is a document.
    pub open spec fn settings_key(self) -> Option<Seq<char>> {
        match self.settings {
            Some(content) => settings_key(content@),
            None => None,
        }
    }

    /// The key that the key file gives, if there is a file.
    pub open spec fn file_key(self) -> Option<Seq<char>> {
        match self.key_file {
            Some(content) => file_key(content@),
            None => None,
        }
    }

    /// The key that these sources resolve to: the first that one of them
    /// gives, the variables before the settings document and that before the
    /// key file.
    pub open spec fn resolved(self) -> Option<Seq<char>> {
        first_of(self.variable_key(), first_of(self.settings_key(), self.file_key()))
    }

    /// Sources in which nothing was found.
    pub fn new() -> (sources: CredentialSources)
        ensures
            sources.yescode_api_key is None,
            sources.anthropic_api_key is None,
            sources.anthropic_auth_token is None,
            sources.settings is None,
            sources.key_file is None,
    {
        CredentialSources {
            yescode_api_key: None,
            anthropic_api_key: None,
            anthropic_auth_token: None,
            settings: None,
            key_file: None,
        }
    }
}

/// The key that a text gives: the text itself, unless it is empty.
pub fn usable_key(value: &str) -> (key: Option<String>)
    ensures
        text_of(key) == usable(value@),
{
    if value.is_empty() {
        None
    } else {
        Some(value.to_owned())
    }
}

/// The key that the value of a variable gives.
fn variable(value: &Option<String>) -> (key: Option<String>)
    ensures
        text_of(key) == usable_text(text_of(*value)),
{
    match value {
        Some(text) => usable_key(text.as_str()),
        None => None,
    }
}

/// The text of the member `key` of `object`, where that member is a string.
fn string_of<'a>(object: &'a serde_json::Value, key: &str) -> (found: Option<&'a str>)
    ensures
        slice_of(found) == json_view(*object).text_member(key@),
{
    match member(object, key) {
        Some(value) => string_value(value),
        None => None,
    }
}

impl QuotaSegment {
    /// Chooses between the two members of the settings table: the auth token
    /// where it is a non-empty string, else the API key where that is one.
    pub fn choose_token(auth_token: Option<&str>, api_key: Option<&str>) -> (key: Option<String>)
        ensures
            text_of(key) == chosen_token(slice_of(auth_token), slice_of(api_key)),
    {
        let first = match auth_token {
            Some(token) => usable_key(token),
            None => None,
        };
        if first.is_some() {
            return first;
        }
        match api_key {
            Some(token) => usable_key(token),
            None => None,
        }
    }

    /// The key that the settings document `content` gives. A document that
    /// cannot be read as JSON gives none; that is no error.
    pub fn load_from_settings(&self, content: &str) -> (key: Option<String>)
        ensures
            text_of(key) == settings_key(content@),
    {
        match parse(content) {
            Ok(document) => match member(&document, SETTINGS_TABLE) {
                Some(table) => {
                    let auth_token = string_of(table, ANTHROPIC_AUTH_TOKEN);
                    let api_key = string_of(table, ANTHROPIC_API_KEY);
                    Self::choose_token(auth_token, api_key)
                },
                None => None,
            },
            Err(_) => None,
        }
    }

    /// The key that the key file's text gives.
    pub fn load_from_key_file(&self, content: &str) -> (key: Option<String>)
        ensures
            text_of(key) == file_key(content@),
    {
        usable_key(trim(content))
    }

    /// Resolves the API key from what was found in its sources.
    pub fn load_api_key(&self, sources: &CredentialSources) -> (key: Option<String>)
        ensures
            text_of(key) == sources.resolved(),
    {
        let from_yescode = variable(&sources.yescode_api_key);
        if from_yescode.is_some() {
            return from_yescode;
        }
        let from_api_key = variable(&sources.anthropic_api_key);
        if from_api_key.is_some() {
            return from_api_key;
        }
        let from_auth_token = variable(&sources.anthropic_auth_token);
        if from_auth_token.is_some() {
            return from_auth_token;
        }
        let from_settings = match &sources.settings {
            Some(content) => self.load_from_settings(content.as_str()),
            None => None,
        };
        if from_settings.is_some() {
            return from_settings;
        }
        match &sources.key_file {
            Some(content) => self.load_from_key_file(content.as_str()),
            None => None,
        }
    }
}

/// The variables come before everything else, and in their order: the first
/// of them that holds a non-empty value gives the key, whatever the later
/// variables, the settings document and the key file hold.
pub proof fn lemma_variables_in_order(sources: CredentialSources)
    ensures
        sources.yescode_api_key matches Some(key) ==> key@.len() > 0 ==> sources.resolved()
            == Some(key@),
        usable_text(text_of(sources.yescode_api_key)) is None && (
        sources.anthropic_api_key matches Some(key) && key@.len() > 0) ==> sources.resolved()
            == text_of(sources.anthropic_api_key),
        usable_text(text_of(sources.yescode_api_key)) is None && usable_text(
            text_of(sources.anthropic_api_key),
        ) is None && (sources.anthropic_auth_token matches Some(key) && key@.len() > 0)
            ==> sources.resolved() == text_of(sources.anthropic_auth_token),
{
}

/// Where no variable gives a key, the settings document is asked, and in its
/// table the auth token comes before the API key: a non-empty auth token is
/// the key whatever the API key holds, and the API key is the key only where
/// the auth token is missing, empty or no string.
pub proof fn lemma_settings_prefer_auth_token(
    sources: CredentialSources,
    content: String,
    document: Json,
    table: Json,
)
    requires
        sources.variable_key() is None,
        sources.settings == Some(content),
        json_parse(content@) == Some(document),
        document.member(SETTINGS_TABLE@) == Some(table),
    ensures
        table.text_member(ANTHROPIC_AUTH_TOKEN@) matches Some(token) ==> token.len() > 0
            ==> sources.resolved() == Some(token),
        usable_text(table.text_member(ANTHROPIC_AUTH_TOKEN@)) is None && usable_text(
            table.text_member(ANTHROPIC_API_KEY@),
        ) is Some ==> sources.resolved() == table.text_member(ANTHROPIC_API_KEY@),
{
}

/// The key file is asked last: where neither the variables nor the settings
/// document give a key, the key is what the key file gives, and there is no
/// key where that gives none either.
pub proof fn lemma_key_file_last(sources: CredentialSources)
    requires
        sources.variable_key() is None,
        sources.settings_key() is None,
    ensures
        sources.resolved() == sources.file_key(),
        sources.key_file is None ==> sources.resolved() is None,
{
}

/// A key is never empty: a source that holds an empty text counts as a source
/// that holds nothing, and the next one is asked.
pub proof fn lemma_key_is_never_empty(sources: CredentialSources)
    ensures
        sources.resolved() matches Some(key) ==> key.len() > 0,
        sources.resolved() is None <==> sources.variable_key() is None && sources.settings_key() is None
            && sources.file_key() is None,
{
}

/// A settings document that is no JSON is passed over in silence: the key is
/// the one that the other sources give without it.
pub proof fn lemma_malformed_settings_skipped(sources: CredentialSources, content: String)
    requires
        sources.settings == Some(content),
        json_parse(content@) is None,
    ensures
        settings_key(content@) is None,
        sources.resolved() == first_of(sources.variable_key(), sources.file_key()),
{
}

} // verus!
