//! Desktop shortcuts that start the shell straight into one app: the run
//! of the script host that creates one, and what that run amounts to.
//!
//! The script handed to the host is the same for every app. What differs
//! from app to app travels beside it, in the environment of the host's
//! process, where the host reads it as text and never as script. Double
//! quotes are taken out of the app's name and address on the way; the path
//! of the executable goes as it is.

use crate::failure::ShortcutFailure;
use crate::text::{lemma_without_char, remove_char, without_char};
use vstd::prelude::*;
use vstd::string::*;

verus! {

/// The environment variable that carries the shortcut's file name, without
/// its extension: the app's name less its double quotes.
pub open spec fn link_name_var() -> Seq<char> {
    "APP_SHORTCUT_NAME"@
}

/// The environment variable that carries the path of the executable the
/// shortcut starts.
pub open spec fn target_path_var() -> Seq<char> {
    "APP_SHORTCUT_TARGET"@
}

/// The environment variable that carries the arguments the shortcut starts
/// the executable with.
pub open spec fn arguments_var() -> Seq<char> {
    "APP_SHORTCUT_ARGUMENTS"@
}

/// The script that creates a shortcut on the desktop. It names the link,
/// its target and its arguments only through the three environment
/// variables, so its text holds nothing of any app.
pub open spec fn script_text() -> Seq<char> {
    "$ws = New-Object -ComObject WScript.Shell; $desktop = [Environment]::GetFolderPath('Desktop'); $s = $ws.CreateShortcut((Join-Path $desktop ($env:"@
        + link_name_var() + " + '.lnk'))); $s.TargetPath = $env:"@ + target_path_var()
        + "; $s.Arguments = $env:"@ + arguments_var() + "; $s.Save()"@
}

/// The arguments a shortcut starts the shell with: the flags that open
/// `url` under `name`. Double quotes are taken out of both before they are
/// placed between double quotes.
pub open spec fn relaunch_arguments_of(url: Seq<char>, name: Seq<char>) -> Seq<char> {
    "--app-url \""@ + without_char(url, '"') + "\" --app-name \""@ + without_char(name, '"')
        + "\""@
}

/// One entry of a process environment.
#[derive(Clone, Debug, PartialEq, Eq)]
pub struct EnvEntry {
    pub name: String,
    pub value: String,
}

impl View for EnvEntry {
    type V = (Seq<char>, Seq<char>);

    open spec fn view(&self) -> (Seq<char>, Seq<char>) {
        (self.name@, self.value@)
    }
}

/// The program to run to create a shortcut, with its arguments and the
/// entries to add to its environment.
#[derive(Clone, Debug, PartialEq, Eq)]
pub struct ShortcutCommand {
    pub program: String,
    pub args: Vec<String>,
    pub environment: Vec<EnvEntry>,
}

/// A [`ShortcutCommand`] as plain values.
pub struct ShortcutCommandView {
    pub program: Seq<char>,
    pub args: Seq<Seq<char>>,
    pub environment: Seq<(Seq<char>, Seq<char>)>,
}

impl View for ShortcutCommand {
    type V = ShortcutCommandView;

    open spec fn view(&self) -> ShortcutCommandView {
        ShortcutCommandView {
            program: self.program@,
            args: self.args.deep_view(),
            environment: self.environment@.map_values(|entry: EnvEntry| entry@),
        }
    }
}

/// The run that creates the shortcut of the app `name` at `url`, started
/// by the executable at `exe_path`: the script host, without a profile, on
/// the fixed script; the link's name, which is the app's name less its
/// double quotes, the path and the relaunch arguments each in an
/// environment entry of its own.
pub open spec fn shortcut_command_of(
    name: Seq<char>,
    url: Seq<char>,
    exe_path: Seq<char>,
) -> ShortcutCommandView {
    ShortcutCommandView {
        program: "powershell"@,
        args: seq!["-NoProfile"@, "-Command"@, script_text()],
        environment: seq![
            (link_name_var(), without_char(name, '"')),
            (target_path_var(), exe_path),
            (arguments_var(), relaunch_arguments_of(url, name)),
        ],
    }
}

/// The program and its arguments are the same for every app: no name,
/// address or path has any part in the script text.
pub proof fn lemma_script_is_the_same_for_every_app(
    name: Seq<char>,
    url: Seq<char>,
    exe_path: Seq<char>,
    other_name: Seq<char>,
    other_url: Seq<char>,
    other_exe_path: Seq<char>,
)
    ensures
        shortcut_command_of(name, url, exe_path).program == shortcut_command_of(
            other_name,
            other_url,
            other_exe_path,
        ).program,
        shortcut_command_of(name, url, exe_path).args == shortcut_command_of(
            other_name,
            other_url,
            other_exe_path,
        ).args,
        shortcut_command_of(name, url, exe_path).args[2] == script_text(),
{
}

/// Each value reaches the script host as the value of an environment
/// entry of its own: the link's name is the app's name less its double
/// quotes, so every other character of the name is kept in place and a
/// name without double quotes arrives as it is; the executable's path
/// arrives unchanged; the third entry holds the relaunch arguments.
pub proof fn lemma_values_travel_as_data(name: Seq<char>, url: Seq<char>, exe_path: Seq<char>)
    ensures
        shortcut_command_of(name, url, exe_path).environment.len() == 3,
        shortcut_command_of(name, url, exe_path).environment[0] == (
            link_name_var(),
            without_char(name, '"'),
        ),
        !shortcut_command_of(name, url, exe_path).environment[0].1.contains('"'),
        !name.contains('"') ==> shortcut_command_of(name, url, exe_path).environment[0].1 == name,
        shortcut_command_of(name, url, exe_path).environment[1] == (target_path_var(), exe_path),
        shortcut_command_of(name, url, exe_path).environment[2] == (
            arguments_var(),
            relaunch_arguments_of(url, name),
        ),
{
    lemma_without_char(name, '"');
}

/// What stands between the double quotes of the relaunch arguments holds
/// no double quote, so neither the address nor the name can end its
/// argument early; and an address or a name without double quotes stands
/// there as it is.
pub proof fn lemma_relaunch_arguments_stay_quoted(url: Seq<char>, name: Seq<char>)
    ensures
        !without_char(url, '"').contains('"'),
        !without_char(name, '"').contains('"'),
        !url.contains('"') && !name.contains('"') ==> relaunch_arguments_of(url, name)
            == "--app-url \""@ + url + "\" --app-name \""@ + name + "\""@,
{
    lemma_without_char(url, '"');
    lemma_without_char(name, '"');
}

/// Writes the script that creates a desktop shortcut.
pub fn shortcut_script() -> (script: String)
    ensures
        script@ == script_text(),
{
    let mut script = String::from_str(
        "$ws = New-Object -ComObject WScript.Shell; $desktop = [Environment]::GetFolderPath('Desktop'); $s = $ws.CreateShortcut((Join-Path $desktop ($env:",
    );
    script.append("APP_SHORTCUT_NAME");
    script.append(" + '.lnk'))); $s.TargetPath = $env:");
    script.append("APP_SHORTCUT_TARGET");
    script.append("; $s.Arguments = $env:");
    script.append("APP_SHORTCUT_ARGUMENTS");
    script.append("; $s.Save()");
    script
}

/// Writes the arguments that a shortcut starts the shell with.
pub fn relaunch_arguments(url: &str, name: &str) -> (arguments: String)
    ensures
        arguments@ == relaunch_arguments_of(url@, name@),
{
    let safe_url = remove_char(url, '"');
    let safe_name = remove_char(name, '"');
    let mut arguments = String::from_str("--app-url \"");
    arguments.append(safe_url.as_str());
    arguments.append("\" --app-name \"");
    arguments.append(safe_name.as_str());
    arguments.append("\"");
    arguments
}

/// Prepares the run of the script host that creates the shortcut of an
/// app.
pub fn shortcut_command(name: &str, url: &str, exe_path: &str) -> (command: ShortcutCommand)
    ensures
        command@ == shortcut_command_of(name@, url@, exe_path@),
{
    let mut args: Vec<String> = Vec::new();
    args.push(String::from_str("-NoProfile"));
    args.push(String::from_str("-Command"));
    args.push(shortcut_script());
    let mut environment: Vec<EnvEntry> = Vec::new();
    environment.push(
        EnvEntry { name: String::from_str("APP_SHORTCUT_NAME"), value: remove_char(name, '"') },
    );
    environment.push(
        EnvEntry {
            name: String::from_str("APP_SHORTCUT_TARGET"),
            value: String::from_str(exe_path),
        },
    );
    environment.push(
        EnvEntry {
            name: String::from_str("APP_SHORTCUT_ARGUMENTS"),
            value: relaunch_arguments(url, name),
        },
    );
    let command = ShortcutCommand { program: String::from_str("powershell"), args, environment };
    proof {
        let model = shortcut_command_of(name@, url@, exe_path@);
        assert(command@.args =~= model.args);
        assert(command@.environment =~= model.environment);
    }
    command
}

/// How the run of the script host ended.
#[derive(Clone, Debug, PartialEq, Eq)]
pub enum ScriptRun {
    /// The host could not be started, with the system's message.
    NotStarted(String),
    /// The host ran and reported success.
    Succeeded,
    /// The host ran and reported failure; this is what it wrote to its
    /// error stream.
    Failed(String),
}

/// The message of a shortcut that could not be created, if the run was no
/// success.
pub open spec fn shortcut_failure_of(run: ScriptRun) -> Option<Seq<char>> {
    match run {
        ScriptRun::NotStarted(message) => Some(message@),
        ScriptRun::Succeeded => None,
        ScriptRun::Failed(stderr) => Some("Powershell error: "@ + stderr@),
    }
}

/// What the run of the script host amounts to: a failure to start is
/// passed on as it is, a failed run is reported with everything the host
/// wrote to its error stream.
pub fn shortcut_outcome(run: ScriptRun) -> (outcome: Result<(), ShortcutFailure>)
    ensures
        match outcome {
            Ok(_) => shortcut_failure_of(run) is None,
            Err(failure) => shortcut_failure_of(run) == Some(failure@),
        },
{
    match run {
        ScriptRun::NotStarted(message) => Err(ShortcutFailure { message }),
        ScriptRun::Succeeded => Ok(()),
        ScriptRun::Failed(stderr) => {
            let mut message = String::from_str("Powershell error: ");
            message.append(stderr.as_str());
            Err(ShortcutFailure { message })
        },
    }
}

} // verus!
