//! What one invocation was asked to do.

use vstd::prelude::*;
use crate::config::text_of;

verus! {

/// The command line, taken apart. The four override flags apply to one
/// invocation only; `command` is set when a subcommand was given.
#[derive(Debug, PartialEq, Eq)]
pub struct Cli {
    /// `--language`, `-l`: the language of the commit message.
    pub language: Option<String>,
    /// `--prompt`, `-p`: extra instructions for the model.
    pub prompt: Option<String>,
    /// `--url`: the endpoint to talk to.
    pub url: Option<String>,
    /// `--model`: the model to ask.
    pub model: Option<String>,
    /// `-m`, a hidden flag.
    pub msg: bool,
    /// `--gen-completion`, a hidden flag with an optional shell name.
    pub gen_completion: Option<Option<String>>,
    pub command: Option<SubCommand>,
}

#[derive(Debug, PartialEq, Eq)]
pub enum SubCommand {
    /// `config`: look at or change the stored preferences.
    Config(ConfigArgs),
}

#[derive(Debug, PartialEq, Eq)]
pub struct ConfigArgs {
    pub command: ConfigCmd,
}

/// The actions of the `config` subcommand.
#[derive(Debug, PartialEq, Eq)]
pub enum ConfigCmd {
    /// `set-api-key <key>`
    SetApiKey { key: String },
    /// `set-url <url>`
    SetUrl { url: String },
    /// `set-model <model>`
    SetModel { model: String },
    /// `set-language <lang>`
    SetLanguage { lang: String },
    /// `set-prompt <prompt>`
    SetPrompt { prompt: String },
    /// `show`
    Show,
}

/// What an invocation overrides: for each parameter of a generation, the
/// value given for this invocation alone, if any.
#[derive(Debug, PartialEq, Eq)]
pub struct Overrides {
    pub language: Option<String>,
    pub prompt: Option<String>,
    pub url: Option<String>,
    pub model: Option<String>,
    pub api_key: Option<String>,
}

/// The overrides as plain sequences of characters.
pub struct OverridesView {
    pub language: Option<Seq<char>>,
    pub prompt: Option<Seq<char>>,
    pub url: Option<Seq<char>>,
    pub model: Option<Seq<char>>,
    pub api_key: Option<Seq<char>>,
}

impl View for Overrides {
    type V = OverridesView;

    open spec fn view(&self) -> OverridesView {
        OverridesView {
            language: text_of(self.language),
            prompt: text_of(self.prompt),
            url: text_of(self.url),
            model: text_of(self.model),
            api_key: text_of(self.api_key),
        }
    }
}

impl Cli {
    /// What the flags override. The command line has no flag for the API key,
    /// so that one is never overridden from here.
    pub open spec fn spec_overrides(&self) -> OverridesView {
        OverridesView {
            language: text_of(self.language),
            prompt: text_of(self.prompt),
            url: text_of(self.url),
            model: text_of(self.model),
            api_key: None,
        }
    }

    /// Takes the override flags out of the command line.
    pub fn overrides(self) -> (overrides: Overrides)
        ensures
            overrides@ == self.spec_overrides(),
    {
        Overrides {
            language: self.language,
            prompt: self.prompt,
            url: self.url,
            model: self.model,
            api_key: None,
        }
    }
}

} // verus!
