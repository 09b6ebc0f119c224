//! The config store: a single persisted record `{"url": ...}` held as the text
//! of a JSON document, with a fixed fallback when the record is missing or
//! cannot be read.

use vstd::prelude::*;

verus! {

/// The server shown when no usable configuration has been saved.
pub const DEFAULT_URL: &'static str = "https://smartyapp.piltismart.com";

/// The name of the configuration file inside the per-user config directory.
pub const CONFIG_FILE_NAME: &'static str = "settings.json";

/// What serde_json writes for a string: one JSON string literal, quoted and escaped.
pub uninterp spec fn json_string_of(s: Seq<char>) -> Seq<char>;

/// The string stored under the key `url` of a JSON document, if the text is a
/// JSON object holding such a string.
pub uninterp spec fn stored_url(text: Seq<char>) -> Option<Seq<char>>;

/// The text of the config record for `url`: `{"url":` then the JSON string
/// literal of `url`, then `}`.
pub open spec fn config_frame(url: Seq<char>) -> Seq<char> {
    "{\"url\":"@ + json_string_of(url) + "}"@
}

/// The URL in force for the given file contents (`None`: no readable file).
pub open spec fn current_url(contents: Option<Seq<char>>) -> Seq<char> {
    match contents {
        Some(text) => match stored_url(text) {
            Some(u) => u,
            None => DEFAULT_URL@,
        },
        None => DEFAULT_URL@,
    }
}

/// The characters of optional file contents.
pub open spec fn text_of(contents: Option<&str>) -> Option<Seq<char>> {
    match contents {
        Some(t) => Some(t@),
        None => None,
    }
}

/// With no config file, the URL in force is the default.
pub proof fn lemma_missing_file_gives_default()
    ensures
        current_url(None) == DEFAULT_URL@,
{
}

/// A file that is not JSON, or whose JSON has no string `url`, gives the
/// default URL, not an error.
pub proof fn lemma_unusable_record_gives_default(text: Seq<char>)
    requires
        stored_url(text) is None,
    ensures
        current_url(Some(text)) == DEFAULT_URL@,
{
}

/// Relies on serde_json::to_string for a `str`: the JSON string literal of `s`.
/// A string is written into an in-memory buffer, which cannot fail, so the
/// result is always present; and serde_json reads the literal back as `s`,
/// here as the `url` of the one-key object around it.
#[verifier::external_body]
fn json_quote(s: &str) -> (r: Option<String>)
    ensures
        r is Some,
        r->Some_0@ == json_string_of(s@),
        stored_url("{\"url\":"@ + r->Some_0@ + "}"@) == Some(s@),
{
    serde_json::to_string(s).ok()
}

/// Relies on serde_json::from_str into a serde_json::Value, then Value::get
/// with the key "url" and Value::as_str: the string under `url` when the text
/// is a JSON object that holds one.
#[verifier::external_body]
fn decode_url(text: &str) -> (r: Option<String>)
    ensures
        match r {
            Some(u) => stored_url(text@) == Some(u@),
            None => stored_url(text@) is None,
        },
{
    match serde_json::from_str::<serde_json::Value>(text) {
        Ok(v) => v.get("url").and_then(serde_json::Value::as_str).map(String::from),
        Err(_) => None,
    }
}

/// The text saved for `url`: the JSON record `{"url":"..."}`.
pub fn config_text(url: &str) -> (r: String)
    ensures
        r@ == config_frame(url@),
        stored_url(r@) == Some(url@),
{
    let mut text = String::from_str("{\"url\":");
    match json_quote(url) {
        Some(quoted) => {
            text.append(quoted.as_str());
        },
        None => {},
    }
    text.append("}");
    text
}

/// The URL held in config file contents, or the default when there are none
/// (`None`) or they do not decode to a record with a string `url`.
pub fn load_url(contents: Option<&str>) -> (r: String)
    ensures
        r@ == current_url(text_of(contents)),
{
    match contents {
        Some(text) => match decode_url(text) {
            Some(u) => u,
            None => String::from_str(DEFAULT_URL),
        },
        None => String::from_str(DEFAULT_URL),
    }
}

/// The persisted configuration record, as the text of the config file.
/// `None` stands for a file that is absent or could not be read.
pub struct ConfigStore {
    pub contents: Option<String>,
}

impl View for ConfigStore {
    type V = Option<Seq<char>>;

    open spec fn view(&self) -> Option<Seq<char>> {
        match self.contents {
            Some(t) => Some(t@),
            None => None,
        }
    }
}

impl ConfigStore {
    /// A store over the given file contents.
    pub fn new(contents: Option<String>) -> (r: ConfigStore)
        ensures
            r.contents == contents,
    {
        ConfigStore { contents }
    }

    /// A store with no config file.
    pub fn empty() -> (r: ConfigStore)
        ensures
            r@ is None,
    {
        ConfigStore { contents: None }
    }

    /// The text to persist, if any.
    pub fn contents(&self) -> (r: Option<&str>)
        ensures
            text_of(r) == self@,
    {
        match &self.contents {
            Some(t) => Some(t.as_str()),
            None => None,
        }
    }

    /// The saved URL, or the default when nothing usable is saved.
    pub fn load(&self) -> (r: String)
        ensures
            r@ == current_url(self@),
    {
        load_url(self.contents())
    }

    /// Replaces the record with one that holds `url`; loading then gives `url`.
    pub fn save(&mut self, url: &str)
        ensures
            final(self)@ == Some(config_frame(url@)),
            current_url(final(self)@) == url@,
    {
        self.contents = Some(config_text(url));
    }
}

} // verus!
