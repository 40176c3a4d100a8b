//! Merging the command line's overrides with the stored preferences.

use vstd::prelude::*;
use crate::cli::{Overrides, OverridesView};
use crate::config::{text_of, Config, ConfigView};

verus! {

/// The language of the commit message when none is given.
pub const DEFAULT_LANGUAGE: &'static str = "en";

/// The extra instructions when none are given.
pub const DEFAULT_PROMPT: &'static str = "";

/// The endpoint when none is given.
pub const DEFAULT_URL: &'static str = "https://api.openai.com/v1/chat/completions";

/// The model when none is given.
pub const DEFAULT_MODEL: &'static str = "gpt-3.5-turbo";

/// The parameters that a generation runs with, every one of them decided.
#[derive(Debug, PartialEq, Eq)]
pub struct EffectiveParameters {
    pub language: String,
    pub prompt: String,
    pub url: String,
    pub model: String,
    pub api_key: String,
}

/// The parameters as plain sequences of characters.
pub struct ParametersView {
    pub language: Seq<char>,
    pub prompt: Seq<char>,
    pub url: Seq<char>,
    pub model: Seq<char>,
    pub api_key: Seq<char>,
}

impl View for EffectiveParameters {
    type V = ParametersView;

    open spec fn view(&self) -> ParametersView {
        ParametersView {
            language: self.language@,
            prompt: self.prompt@,
            url: self.url@,
            model: self.model@,
            api_key: self.api_key@,
        }
    }
}

/// Why no parameters could be decided.
#[derive(Debug, Clone, Copy, PartialEq, Eq, Structural)]
pub enum ResolveError {
    /// No API key was given for this invocation and none is stored. There is
    /// no key to fall back on.
    MissingApiKey,
}

/// The value that wins between an override and a stored value: the override
/// where there is one.
pub open spec fn pick(flag: Option<Seq<char>>, stored: Option<Seq<char>>) -> Option<Seq<char>> {
    match flag {
        Some(value) => Some(value),
        None => stored,
    }
}

/// The value of a parameter that has a default: the override, else the stored
/// value, else the default.
pub open spec fn pick_or(flag: Option<Seq<char>>, stored: Option<Seq<char>>, fallback: Seq<char>) -> Seq<
    char,
> {
    match pick(flag, stored) {
        Some(value) => value,
        None => fallback,
    }
}

/// The parameters that the overrides and the stored preferences come to.
pub open spec fn spec_resolve(overrides: OverridesView, config: ConfigView) -> Result<
    ParametersView,
    ResolveError,
> {
    match pick(overrides.api_key, config.api_key) {
        None => Err(ResolveError::MissingApiKey),
        Some(api_key) => Ok(
            ParametersView {
                language: pick_or(overrides.language, config.language, DEFAULT_LANGUAGE@),
                prompt: pick_or(overrides.prompt, config.prompt, DEFAULT_PROMPT@),
                url: pick_or(overrides.url, config.url, DEFAULT_URL@),
                model: pick_or(overrides.model, config.model, DEFAULT_MODEL@),
                api_key,
            },
        ),
    }
}

fn choose_text(flag: Option<String>, stored: Option<String>) -> (chosen: Option<String>)
    ensures
        text_of(chosen) == pick(text_of(flag), text_of(stored)),
{
    match flag {
        Some(value) => Some(value),
        None => stored,
    }
}

fn choose_text_or(flag: Option<String>, stored: Option<String>, fallback: &str) -> (chosen: String)
    ensures
        chosen@ == pick_or(text_of(flag), text_of(stored), fallback@),
{
    match choose_text(flag, stored) {
        Some(value) => value,
        None => fallback.to_owned(),
    }
}

/// Decides the parameters of a generation. For each of them the override
/// wins over the stored value, and the stored value over the default. The
/// API key has no default: where neither side has one, there are no
/// parameters. Nothing else makes this fail.
pub fn resolve(overrides: Overrides, config: Config) -> (resolved: Result<
    EffectiveParameters,
    ResolveError,
>)
    ensures
        resolved is Err <==> overrides@.api_key is None && config@.api_key is None,
        match resolved {
            Ok(parameters) => spec_resolve(overrides@, config@) == Ok::<
                ParametersView,
                ResolveError,
            >(parameters@),
            Err(error) => spec_resolve(overrides@, config@) == Err::<ParametersView, ResolveError>(
                error,
            ),
        },
{
    match choose_text(overrides.api_key, config.api_key) {
        None => Err(ResolveError::MissingApiKey),
        Some(api_key) => Ok(
            EffectiveParameters {
                language: choose_text_or(overrides.language, config.language, DEFAULT_LANGUAGE),
                prompt: choose_text_or(overrides.prompt, config.prompt, DEFAULT_PROMPT),
                url: choose_text_or(overrides.url, config.url, DEFAULT_URL),
                model: choose_text_or(overrides.model, config.model, DEFAULT_MODEL),
                api_key,
            },
        ),
    }
}

/// Precedence, field by field: wherever there are parameters, each of them
/// is the override where one was given; where none was given, the stored
/// value if there is one; and the default where there is neither. For the
/// API key, which has no default, the first two hold.
pub proof fn law_precedence(overrides: OverridesView, config: ConfigView)
    ensures
        spec_resolve(overrides, config) matches Ok(parameters) ==> {
            &&& overrides.language is Some ==> parameters.language == overrides.language->0
            &&& overrides.language is None && config.language is Some ==> parameters.language
                == config.language->0
            &&& overrides.language is None && config.language is None ==> parameters.language
                == DEFAULT_LANGUAGE@
            &&& overrides.prompt is Some ==> parameters.prompt == overrides.prompt->0
            &&& overrides.prompt is None && config.prompt is Some ==> parameters.prompt
                == config.prompt->0
            &&& overrides.prompt is None && config.prompt is None ==> parameters.prompt
                == DEFAULT_PROMPT@
            &&& overrides.url is Some ==> parameters.url == overrides.url->0
            &&& overrides.url is None && config.url is Some ==> parameters.url == config.url->0
            &&& overrides.url is None && config.url is None ==> parameters.url == DEFAULT_URL@
            &&& overrides.model is Some ==> parameters.model == overrides.model->0
            &&& overrides.model is None && config.model is Some ==> parameters.model
                == config.model->0
            &&& overrides.model is None && config.model is None ==> parameters.model
                == DEFAULT_MODEL@
            &&& overrides.api_key is Some ==> parameters.api_key == overrides.api_key->0
            &&& overrides.api_key is None && config.api_key is Some ==> parameters.api_key
                == config.api_key->0
        },
{
}

/// There are no parameters exactly when the API key is absent on both
/// sides, and the complaint is then about the key. Nothing else stands in
/// the way: with a key on either side there are parameters.
pub proof fn law_missing_api_key(overrides: OverridesView, config: ConfigView)
    ensures
        spec_resolve(overrides, config) is Err <==> overrides.api_key is None && config.api_key
            is None,
        spec_resolve(overrides, config) is Err ==> spec_resolve(overrides, config)
            == Err::<ParametersView, ResolveError>(ResolveError::MissingApiKey),
{
}

} // verus!
