//! The commands of the front end: what each asks of the storage, and what
//! is shown once the storage has answered.
//!
//! The front end parses a command, asks `plan` for the request to carry
//! out, carries it out on the storage, and hands the outcome to the
//! matching `finish_` function, which gives the text to print or the
//! failure to report.

use crate::error::{BriefcaseError, Fault, IoFailure};
use crate::location::{
    briefcase_dir_of, dir_name_of, get_briefcase_dir, get_briefcase_dir_name, get_temp_dir,
    temp_path_of, temp_source_of, Environment, StorePath,
};
use crate::table::pairs_of;
use crate::validate::{is_valid_entry, is_valid_name};
use vstd::prelude::*;

verus! {

/// A parsed command.
#[derive(Clone, Debug, PartialEq, Eq)]
pub enum Command {
    Version,
    Info,
    SetEntry { name: String, value: String },
    GetEntry { name: String },
    Purge { force: bool },
    RemoveEntry { name: String },
    List,
}

/// A command as contracts speak of it.
pub enum CommandView {
    Version,
    Info,
    SetEntry { name: Seq<char>, value: Seq<char> },
    GetEntry { name: Seq<char> },
    Purge { force: bool },
    RemoveEntry { name: Seq<char> },
    List,
}

impl View for Command {
    type V = CommandView;

    open spec fn view(&self) -> CommandView {
        match self {
            Command::Version => CommandView::Version,
            Command::Info => CommandView::Info,
            Command::SetEntry { name, value } => CommandView::SetEntry { name: name@, value: value@ },
            Command::GetEntry { name } => CommandView::GetEntry { name: name@ },
            Command::Purge { force } => CommandView::Purge { force: *force },
            Command::RemoveEntry { name } => CommandView::RemoveEntry { name: name@ },
            Command::List => CommandView::List,
        }
    }
}

/// What the front end has to do next.
#[derive(Clone, Debug, PartialEq, Eq)]
pub enum Request {
    /// Print the text; nothing else is left to do.
    Print { text: String },
    /// Create the directory if need be and write the value to the file
    /// `name` in it, replacing what the file held.
    Write { dir: StorePath, name: String, value: String },
    /// Read the file `name` in the directory.
    Read { dir: StorePath, name: String },
    /// Delete the file `name` in the directory.
    Delete { dir: StorePath, name: String },
    /// Read every file of the directory.
    List { dir: StorePath },
    /// Show the prompt and read one line of the answer.
    Confirm { prompt: String, dir: StorePath },
    /// Delete the directory with all it holds.
    Destroy { dir: StorePath },
}

/// A request as contracts speak of it.
pub enum RequestView {
    Print { text: Seq<char> },
    Write { dir: Seq<Seq<char>>, name: Seq<char>, value: Seq<char> },
    Read { dir: Seq<Seq<char>>, name: Seq<char> },
    Delete { dir: Seq<Seq<char>>, name: Seq<char> },
    List { dir: Seq<Seq<char>> },
    Confirm { prompt: Seq<char>, dir: Seq<Seq<char>> },
    Destroy { dir: Seq<Seq<char>> },
}

impl View for Request {
    type V = RequestView;

    open spec fn view(&self) -> RequestView {
        match self {
            Request::Print { text } => RequestView::Print { text: text@ },
            Request::Write { dir, name, value } => RequestView::Write {
                dir: dir@,
                name: name@,
                value: value@,
            },
            Request::Read { dir, name } => RequestView::Read { dir: dir@, name: name@ },
            Request::Delete { dir, name } => RequestView::Delete { dir: dir@, name: name@ },
            Request::List { dir } => RequestView::List { dir: dir@ },
            Request::Confirm { prompt, dir } => RequestView::Confirm {
                prompt: prompt@,
                dir: dir@,
            },
            Request::Destroy { dir } => RequestView::Destroy { dir: dir@ },
        }
    }
}

/// The line that `version` gives.
pub open spec fn version_text() -> Seq<char> {
    "Briefcase 0.5.0\n"@
}

/// The lines that `info` gives under `env`.
pub open spec fn info_text(env: Map<Seq<char>, Seq<char>>) -> Seq<char> {
    "\tTemp Dir: "@ + temp_path_of(env) + "\n\tSourced From: "@ + temp_source_of(env)
        + "\n\tBriefcase Directory Name: "@ + dir_name_of(env) + "\n"@
}

/// The question asked before a purge that was not forced.
pub open spec fn purge_prompt() -> Seq<char> {
    "Are you sure you want to delete all briefcase data? (y/n) "@
}

/// The request that a command leads to under `env`, or the failure that
/// ends it before the storage is touched.
pub open spec fn plan_of(command: CommandView, env: Map<Seq<char>, Seq<char>>) -> Result<
    RequestView,
    Fault,
> {
    let dir = briefcase_dir_of(env);
    match command {
        CommandView::Version => Ok(RequestView::Print { text: version_text() }),
        CommandView::Info => Ok(RequestView::Print { text: info_text(env) }),
        CommandView::SetEntry { name, value } => if is_valid_name(name) {
            Ok(RequestView::Write { dir, name, value })
        } else {
            Err(Fault::InvalidEntry(name))
        },
        CommandView::GetEntry { name } => if is_valid_name(name) {
            Ok(RequestView::Read { dir, name })
        } else {
            Err(Fault::InvalidEntry(name))
        },
        CommandView::RemoveEntry { name } => if is_valid_name(name) {
            Ok(RequestView::Delete { dir, name })
        } else {
            Err(Fault::InvalidEntry(name))
        },
        CommandView::List => Ok(RequestView::List { dir }),
        CommandView::Purge { force } => if force {
            Ok(RequestView::Destroy { dir })
        } else {
            Ok(RequestView::Confirm { prompt: purge_prompt(), dir })
        },
    }
}

/// A planned request or failure, taken by its view.
pub open spec fn planned(result: Result<Request, BriefcaseError>) -> Result<RequestView, Fault> {
    match result {
        Ok(request) => Ok(request@),
        Err(error) => Err(error@),
    }
}

/// The line that names the program and its version.
pub fn version() -> (text: String)
    ensures
        text@ == version_text(),
{
    "Briefcase 0.5.0\n".to_owned()
}

/// The lines that say where the store lives and which variable decided it.
pub fn info(env: &Environment) -> (text: String)
    ensures
        text@ == info_text(env@),
{
    let temp = get_temp_dir(env);
    let dir_name = get_briefcase_dir_name(env);
    let mut text = "\tTemp Dir: ".to_owned();
    text.append(temp.path.as_str());
    text.append("\n\tSourced From: ");
    text.append(temp.env_var.as_str());
    text.append("\n\tBriefcase Directory Name: ");
    text.append(dir_name.as_str());
    text.append("\n");
    text
}

/// What `command` asks of the storage under `env`. A command that names
/// an entry is refused here, before the storage is touched, where the
/// name is ill-formed.
pub fn plan(command: &Command, env: &Environment) -> (result: Result<Request, BriefcaseError>)
    ensures
        planned(result) == plan_of(command@, env@),
{
    match command {
        Command::Version => Ok(Request::Print { text: version() }),
        Command::Info => Ok(Request::Print { text: info(env) }),
        Command::SetEntry { name, value } => {
            if !is_valid_entry(name.as_str()) {
                return Err(BriefcaseError::InvalidEntry(name.clone()));
            }
            Ok(
                Request::Write {
                    dir: get_briefcase_dir(env),
                    name: name.clone(),
                    value: value.clone(),
                },
            )
        },
        Command::GetEntry { name } => {
            if !is_valid_entry(name.as_str()) {
                return Err(BriefcaseError::InvalidEntry(name.clone()));
            }
            Ok(Request::Read { dir: get_briefcase_dir(env), name: name.clone() })
        },
        Command::RemoveEntry { name } => {
            if !is_valid_entry(name.as_str()) {
                return Err(BriefcaseError::InvalidEntry(name.clone()));
            }
            Ok(Request::Delete { dir: get_briefcase_dir(env), name: name.clone() })
        },
        Command::List => Ok(Request::List { dir: get_briefcase_dir(env) }),
        Command::Purge { force } => {
            if *force {
                Ok(Request::Destroy { dir: get_briefcase_dir(env) })
            } else {
                Ok(
                    Request::Confirm {
                        prompt: "Are you sure you want to delete all briefcase data? (y/n) ".to_owned(),
                        dir: get_briefcase_dir(env),
                    },
                )
            }
        },
    }
}

/// What `str::trim` returns: the text without the white space at its two
/// ends.
pub uninterp spec fn trimmed(text: Seq<char>) -> Seq<char>;

/// Calls `str::trim`. Trusted: the result is a function of the text alone.
#[verifier::external_body]
fn trim(text: &str) -> (inner: &str)
    ensures
        inner@ == trimmed(text@),
{
    text.trim()
}

/// What `str::to_lowercase` returns: the text in lower case.
pub uninterp spec fn lowercased(text: Seq<char>) -> Seq<char>;

/// Calls `str::to_lowercase`. Trusted: the result is a function of the
/// text alone.
#[verifier::external_body]
fn to_lowercase(text: &str) -> (lower: String)
    ensures
        lower@ == lowercased(text@),
{
    text.to_lowercase()
}

/// The line shown when a purge is called off.
pub open spec fn purge_declined_text() -> Seq<char> {
    "Exiting without deleting data\n"@
}

/// What follows an answer that was trimmed and put in lower case: the
/// purge where it reads `y`, a parting line where it reads anything else.
pub open spec fn purge_decision_of(answer: Seq<char>, dir: Seq<Seq<char>>) -> RequestView {
    if answer == "y"@ {
        RequestView::Destroy { dir }
    } else {
        RequestView::Print { text: purge_declined_text() }
    }
}

/// The request that follows an answer to the purge prompt, the answer
/// being trimmed and in lower case already.
pub fn purge_decision(answer: &str, dir: StorePath) -> (request: Request)
    ensures
        request@ == purge_decision_of(answer@, dir@),
{
    if answer.to_owned() == "y".to_owned() {
        Request::Destroy { dir }
    } else {
        Request::Print { text: "Exiting without deleting data\n".to_owned() }
    }
}

/// The request that follows the line read in answer to the purge prompt:
/// the purge goes ahead only if the line, without the white space at its
/// ends and in lower case, reads `y`.
pub fn confirm_purge(line: &str, dir: StorePath) -> (request: Request)
    ensures
        request@ == purge_decision_of(lowercased(trimmed(line@)), dir@),
{
    let answer = to_lowercase(trim(line));
    purge_decision(answer.as_str(), dir)
}

/// The failure that an outcome of the storage stands for: `missing` where
/// the storage found nothing, else the storage's own failure.
pub open spec fn fault_of(failure: IoFailure, missing: Fault) -> Fault {
    if failure.not_found {
        missing
    } else {
        Fault::Io { not_found: failure.not_found, detail: failure.detail@ }
    }
}

/// The line shown after a value was stored.
pub open spec fn set_text(name: Seq<char>) -> Seq<char> {
    "Set "@ + name + "\n"@
}

/// The line shown after an entry was deleted.
pub open spec fn removed_text(name: Seq<char>) -> Seq<char> {
    "Removed "@ + name + "\n"@
}

/// The line shown after the store was destroyed.
pub open spec fn purged_text() -> Seq<char> {
    "Briefcase data purged successfully\n"@
}

/// The line that shows one entry.
pub open spec fn entry_line(pair: (Seq<char>, Seq<char>)) -> Seq<char> {
    pair.0 + " = "@ + pair.1 + "\n"@
}

/// The lines that show the entries, in their order.
pub open spec fn listing_of(pairs: Seq<(Seq<char>, Seq<char>)>) -> Seq<char>
    decreases pairs.len(),
{
    if pairs.len() == 0 {
        Seq::empty()
    } else {
        listing_of(pairs.drop_last()) + entry_line(pairs.last())
    }
}

/// What is shown, or reported, once a value was written: a failure of the
/// storage is passed on.
pub fn finish_set(name: &str, outcome: Result<(), IoFailure>) -> (result: Result<
    String,
    BriefcaseError,
>)
    ensures
        match outcome {
            Ok(_) => result matches Ok(text) && text@ == set_text(name@),
            Err(failure) => result matches Err(error) && error@ == (Fault::Io {
                not_found: failure.not_found,
                detail: failure.detail@,
            }),
        },
{
    match outcome {
        Ok(_) => {
            let mut text = "Set ".to_owned();
            text.append(name);
            text.append("\n");
            Ok(text)
        },
        Err(failure) => Err(BriefcaseError::Io(failure)),
    }
}

/// What is shown, or reported, once an entry was read: the value as it
/// was read, with nothing added; no such entry where the storage found
/// no file; else the storage's failure.
pub fn finish_get(name: &str, outcome: Result<String, IoFailure>) -> (result: Result<
    String,
    BriefcaseError,
>)
    ensures
        match outcome {
            Ok(value) => result matches Ok(text) && text@ == value@,
            Err(failure) => result matches Err(error) && error@ == fault_of(
                failure,
                Fault::EntryNotFound(name@),
            ),
        },
{
    match outcome {
        Ok(value) => Ok(value),
        Err(failure) => {
            if failure.not_found {
                Err(BriefcaseError::EntryNotFound(name.to_owned()))
            } else {
                Err(BriefcaseError::Io(failure))
            }
        },
    }
}

/// What is shown, or reported, once an entry was deleted: no such entry
/// where the storage found no file; else the storage's failure.
pub fn finish_remove(name: &str, outcome: Result<(), IoFailure>) -> (result: Result<
    String,
    BriefcaseError,
>)
    ensures
        match outcome {
            Ok(_) => result matches Ok(text) && text@ == removed_text(name@),
            Err(failure) => result matches Err(error) && error@ == fault_of(
                failure,
                Fault::EntryNotFound(name@),
            ),
        },
{
    match outcome {
        Ok(_) => {
            let mut text = "Removed ".to_owned();
            text.append(name);
            text.append("\n");
            Ok(text)
        },
        Err(failure) => {
            if failure.not_found {
                Err(BriefcaseError::EntryNotFound(name.to_owned()))
            } else {
                Err(BriefcaseError::Io(failure))
            }
        },
    }
}

/// What is shown, or reported, once the entries were read: one line for
/// each; nothing where there is no store; else the storage's failure.
pub fn finish_list(outcome: Result<Vec<(String, String)>, IoFailure>) -> (result: Result<
    String,
    BriefcaseError,
>)
    ensures
        match outcome {
            Ok(pairs) => result matches Ok(text) && text@ == listing_of(pairs_of(pairs@)),
            Err(failure) => if failure.not_found {
                result matches Ok(text) && text@ == Seq::<char>::empty()
            } else {
                result matches Err(error) && error@ == (Fault::Io {
                    not_found: failure.not_found,
                    detail: failure.detail@,
                })
            },
        },
{
    match outcome {
        Ok(pairs) => {
            let n: usize = pairs.len();
            let mut text = String::new();
            let mut i: usize = 0;
            while i < n
                invariant
                    n == pairs@.len(),
                    i <= n,
                    text@ == listing_of(pairs_of(pairs@).take(i as int)),
                decreases n - i,
            {
                proof {
                    let shown = pairs_of(pairs@).take(i as int + 1);
                    assert(shown.drop_last() =~= pairs_of(pairs@).take(i as int));
                    assert(shown.last() == (pairs@[i as int].0@, pairs@[i as int].1@));
                }
                text.append(pairs[i].0.as_str());
                text.append(" = ");
                text.append(pairs[i].1.as_str());
                text.append("\n");
                i += 1;
            }
            assert(pairs_of(pairs@).take(n as int) =~= pairs_of(pairs@));
            Ok(text)
        },
        Err(failure) => {
            if failure.not_found {
                Ok(String::new())
            } else {
                Err(BriefcaseError::Io(failure))
            }
        },
    }
}

/// What is shown, or reported, once the store was destroyed: no store
/// where the storage found no directory; else the storage's failure.
pub fn finish_purge(outcome: Result<(), IoFailure>) -> (result: Result<String, BriefcaseError>)
    ensures
        match outcome {
            Ok(_) => result matches Ok(text) && text@ == purged_text(),
            Err(failure) => result matches Err(error) && error@ == fault_of(
                failure,
                Fault::StoreNotFound,
            ),
        },
{
    match outcome {
        Ok(_) => Ok("Briefcase data purged successfully\n".to_owned()),
        Err(failure) => {
            if failure.not_found {
                Err(BriefcaseError::StoreNotFound)
            } else {
                Err(BriefcaseError::Io(failure))
            }
        },
    }
}

} // verus!
