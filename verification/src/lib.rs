//! Turning staged changes into a commit message with the help of a
//! chat-completion endpoint: the stored preferences, how they merge with the
//! command line, the request that is sent and what is made of the reply.

use vstd::prelude::*;
use crate::cli::{Cli, ConfigCmd};
use crate::config::{text_of, Config, ConfigView};
use crate::resolve::resolve;
use crate::session::{start_of, Action, Outcome, Session};
use crate::text::{join2, join4, push_line, texts};

pub mod ai_commit;
pub mod chat;
pub mod cli;
pub mod config;
pub mod error;
pub mod http;
pub mod json;
pub mod resolve;
pub mod session;
pub mod sink;
pub mod text;

verus! {

/// What a `config` action comes to: the preferences after it, whether they
/// have to be written back, and the lines to print.
#[derive(Debug, PartialEq, Eq)]
pub struct ConfigReport {
    pub config: Config,
    pub persist: bool,
    pub lines: Vec<String>,
}

/// The line that `show` prints for a field other than the API key: nothing
/// when the field is unset.
pub open spec fn field_lines(name: Seq<char>, field: Option<Seq<char>>) -> Seq<Seq<char>> {
    match field {
        Some(value) => seq![name + " = \""@ + value + "\""@],
        None => seq![],
    }
}

/// The line that `show` prints for the API key. It says whether a key is
/// set, and nothing else about it.
pub open spec fn api_key_line(api_key: Option<Seq<char>>) -> Seq<char> {
    if api_key is Some {
        "api_key = [set]"@
    } else {
        "api_key = [not set]"@
    }
}

/// What `show` prints for the preferences kept at `path`.
pub open spec fn show_lines(config: ConfigView, path: Seq<char>) -> Seq<Seq<char>> {
    seq!["Current configuration file path: "@ + path, "---"@, api_key_line(config.api_key)]
        + field_lines("url"@, config.url)
        + field_lines("model"@, config.model)
        + field_lines("language"@, config.language)
        + field_lines("prompt"@, config.prompt)
        + seq!["---"@]
}

/// The preferences after a `config` action.
pub open spec fn config_after(cmd: ConfigCmd, config: ConfigView) -> ConfigView {
    match cmd {
        ConfigCmd::SetApiKey { key } => ConfigView { api_key: Some(key@), ..config },
        ConfigCmd::SetUrl { url } => ConfigView { url: Some(url@), ..config },
        ConfigCmd::SetModel { model } => ConfigView { model: Some(model@), ..config },
        ConfigCmd::SetLanguage { lang } => ConfigView { language: Some(lang@), ..config },
        ConfigCmd::SetPrompt { prompt } => ConfigView { prompt: Some(prompt@), ..config },
        ConfigCmd::Show => config,
    }
}

/// The lines that a `config` action prints.
pub open spec fn config_lines(cmd: ConfigCmd, config: ConfigView, path: Seq<char>) -> Seq<
    Seq<char>,
> {
    match cmd {
        ConfigCmd::SetApiKey { key } => seq!["API key set successfully."@],
        ConfigCmd::SetUrl { url } => seq!["API URL set to: "@ + url@],
        ConfigCmd::SetModel { model } => seq!["Default model set to: "@ + model@],
        ConfigCmd::SetLanguage { lang } => seq!["Default language set to: "@ + lang@],
        ConfigCmd::SetPrompt { prompt } => seq!["Default prompt set."@],
        ConfigCmd::Show => show_lines(config, path),
    }
}

fn show_field(lines: &mut Vec<String>, name: &str, field: &Option<String>)
    ensures
        texts(final(lines)@) == texts(old(lines)@) + field_lines(name@, text_of(*field)),
{
    match field {
        Some(value) => {
            push_line(lines, join4(name, " = \"", value.as_str(), "\""));
        },
        None => {},
    }
}

/// The lines of `show`.
pub fn show(config: &Config, path: &str) -> (lines: Vec<String>)
    ensures
        texts(lines@) == show_lines(config@, path@),
{
    let mut lines: Vec<String> = Vec::new();
    assert(texts(lines@) =~= Seq::<Seq<char>>::empty());
    push_line(&mut lines, join2("Current configuration file path: ", path));
    push_line(&mut lines, "---".to_owned());
    match &config.api_key {
        Some(_) => push_line(&mut lines, "api_key = [set]".to_owned()),
        None => push_line(&mut lines, "api_key = [not set]".to_owned()),
    }
    assert(texts(lines@) =~= seq![
        "Current configuration file path: "@ + path@,
        "---"@,
        api_key_line(config@.api_key),
    ]);
    show_field(&mut lines, "url", &config.url);
    show_field(&mut lines, "model", &config.model);
    show_field(&mut lines, "language", &config.language);
    show_field(&mut lines, "prompt", &config.prompt);
    push_line(&mut lines, "---".to_owned());
    lines
}

/// `show` tells of the API key only whether there is one: preferences that
/// differ in nothing but the key that is set are shown in the same lines.
pub proof fn law_show_hides_api_key(first: ConfigView, second: ConfigView, path: Seq<char>)
    requires
        first.api_key is Some <==> second.api_key is Some,
        first.url == second.url,
        first.model == second.model,
        first.language == second.language,
        first.prompt == second.prompt,
    ensures
        show_lines(first, path) == show_lines(second, path),
{
}

/// Carries out a `config` action on the stored preferences, which are kept
/// in the file at `path`. A `set-...` action sets its one field, leaves the
/// others alone and asks for the preferences to be written back; `show`
/// changes nothing and lists the preferences.
pub fn handle_config_command(cmd: ConfigCmd, config: Config, path: &str) -> (report: ConfigReport)
    ensures
        report.config@ == config_after(cmd, config@),
        report.persist == !(cmd is Show),
        texts(report.lines@) == config_lines(cmd, config@, path@),
{
    let mut config = config;
    let mut lines: Vec<String> = Vec::new();
    assert(texts(lines@) =~= Seq::<Seq<char>>::empty());
    match cmd {
        ConfigCmd::SetApiKey { key } => {
            config.api_key = Some(key);
            push_line(&mut lines, "API key set successfully.".to_owned());
            ConfigReport { config, persist: true, lines }
        },
        ConfigCmd::SetUrl { url } => {
            push_line(&mut lines, join2("API URL set to: ", url.as_str()));
            config.url = Some(url);
            ConfigReport { config, persist: true, lines }
        },
        ConfigCmd::SetModel { model } => {
            push_line(&mut lines, join2("Default model set to: ", model.as_str()));
            config.model = Some(model);
            ConfigReport { config, persist: true, lines }
        },
        ConfigCmd::SetLanguage { lang } => {
            push_line(&mut lines, join2("Default language set to: ", lang.as_str()));
            config.language = Some(lang);
            ConfigReport { config, persist: true, lines }
        },
        ConfigCmd::SetPrompt { prompt } => {
            config.prompt = Some(prompt);
            push_line(&mut lines, "Default prompt set.".to_owned());
            ConfigReport { config, persist: true, lines }
        },
        ConfigCmd::Show => {
            let lines = show(&config, path);
            ConfigReport { config, persist: false, lines }
        },
    }
}

/// Begins an invocation that generates a commit message: decides the
/// parameters from the command line and the stored preferences, and says
/// what to do first. Without an API key that is to stop; nothing is read
/// or sent then.
pub fn run_generate(args: Cli, config: Config) -> (begun: (Session, Action))
    ensures
        (begun.0@, begun.1@) == start_of(args.spec_overrides(), config@),
{
    match resolve(args.overrides(), config) {
        Err(_) => (Session::Done, Action::Finish(Outcome::MissingApiKey)),
        Ok(parameters) => (Session::AwaitingDiff(parameters), Action::ReadDiff),
    }
}

} // verus!
