//! The preferences that are kept between invocations.

use vstd::prelude::*;

verus! {

/// What an optional string holds, as a sequence of characters.
pub open spec fn text_of(field: Option<String>) -> Option<Seq<char>> {
    match field {
        Some(s) => Some(s@),
        None => None,
    }
}

/// The stored preferences. Each field can be set or unset by itself; an unset
/// field is absent, which is not the same as an empty string.
#[derive(Debug, PartialEq, Eq)]
pub struct Config {
    pub api_key: Option<String>,
    pub url: Option<String>,
    pub model: Option<String>,
    pub language: Option<String>,
    pub prompt: Option<String>,
}

/// The stored preferences as plain sequences of characters.
pub struct ConfigView {
    pub api_key: Option<Seq<char>>,
    pub url: Option<Seq<char>>,
    pub model: Option<Seq<char>>,
    pub language: Option<Seq<char>>,
    pub prompt: Option<Seq<char>>,
}

impl ConfigView {
    /// The record in which nothing is set.
    pub open spec fn unset() -> ConfigView {
        ConfigView { api_key: None, url: None, model: None, language: None, prompt: None }
    }
}

impl View for Config {
    type V = ConfigView;

    open spec fn view(&self) -> ConfigView {
        ConfigView {
            api_key: text_of(self.api_key),
            url: text_of(self.url),
            model: text_of(self.model),
            language: text_of(self.language),
            prompt: text_of(self.prompt),
        }
    }
}

impl Default for Config {
    /// The record in which nothing is set: what an invocation starts from when
    /// no preferences were stored yet.
    fn default() -> (config: Config)
        ensures
            config@ == ConfigView::unset(),
    {
        Config { api_key: None, url: None, model: None, language: None, prompt: None }
    }
}

} // verus!
