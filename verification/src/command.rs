//! The vocabulary between a command and its driver.
//!
//! A command never performs input or output. It is a function from the
//! event that the driver reports to the effect that the driver carries out
//! next; the driver starts with `Event::Start` and stops at `Effect::Done`
//! or `Effect::Fail`.

use crate::attachment::{debug_form, quoted, Attachment};
use crate::backend::{capability_name, Capability, ReadingFormat};
use crate::folder::Folder;
use crate::text::names_of;
use vstd::prelude::*;

verus! {

/// One call on the backend.
#[derive(Clone, Debug)]
pub enum Request {
    ListFolders,
    AddFolder(String),
    ExpungeFolder(String),
    DeleteFolder(String),
    /// The messages with these ids, in this order, in one batch.
    GetMessages { folder: String, ids: Vec<String> },
}

/// What a backend call handed back.
#[derive(Clone, Debug)]
pub enum Reply {
    /// The call has no result.
    Done,
    Folders(Vec<Folder>),
    /// For each message, in the order of the requested ids, the attachments
    /// read out of it, or what the parser said of a message whose structure
    /// it could not read.
    Messages(Vec<Result<Vec<Attachment>, String>>),
}

/// What the driver reports back.
#[derive(Debug)]
pub enum Event {
    /// The command begins.
    Start,
    /// The backend call ended, with its result or the provider's message.
    Replied(Result<Reply, String>),
    /// The confirmation ended: yes, no, or left unanswered.
    Answered(Result<Option<bool>, String>),
    /// The line, the table or the report was handed to the printer.
    Printed(Result<(), String>),
    /// The destination path for a file name.
    Resolved(Result<String, String>),
    /// The file was written.
    Written(Result<(), String>),
}

/// Why a command failed.
#[derive(Clone, Debug)]
pub enum CommandError {
    /// The backend does not serve a capability that the command needs.
    CapabilityUnsupported { capability: Capability, account: String },
    /// The provider failed; its message is passed on unchanged.
    Backend(String),
    /// The printer failed.
    Printer(String),
    /// The confirmation prompt failed.
    Prompt(String),
    /// A message whose structure cannot be read, with what the parser said
    /// of it.
    Malformed(String),
    /// No destination path could be made for a file name.
    Path(String),
    /// A file could not be written at this path.
    Write { path: String, reason: String },
    /// More attachments than a counter can hold.
    Overflow,
    /// An event that the command was not waiting for.
    Unexpected,
}

/// What the driver carries out next.
#[derive(Clone, Debug)]
pub enum Effect {
    /// Make this call on the backend and report `Event::Replied`.
    Invoke(Request),
    /// Ask the user this question, with `default` as the answer that stands
    /// when the user gives none, and report `Event::Answered`.
    Confirm { question: String, default: bool },
    /// Print a progress line and report `Event::Printed`.
    Log(String),
    /// Print the final report and report `Event::Printed`.
    Out(String),
    /// Print a rendered table, with the options that it was asked for, and
    /// report `Event::Printed`.
    Table { table: String, format: ReadingFormat, max_width: Option<usize> },
    /// Find the destination path for this file name under the account's
    /// download directory and report `Event::Resolved`.
    Resolve(String),
    /// Write these bytes to this path and report `Event::Written`.
    Write { path: String, body: Vec<u8> },
    /// The command ended successfully.
    Done,
    /// The command failed.
    Fail(CommandError),
}

/// A request as a plain value.
pub enum RequestView {
    ListFolders,
    AddFolder(Seq<char>),
    ExpungeFolder(Seq<char>),
    DeleteFolder(Seq<char>),
    GetMessages { folder: Seq<char>, ids: Seq<Seq<char>> },
}

/// An error as a plain value.
pub enum ErrorView {
    CapabilityUnsupported { capability: Capability, account: Seq<char> },
    Backend(Seq<char>),
    Printer(Seq<char>),
    Prompt(Seq<char>),
    Malformed(Seq<char>),
    Path(Seq<char>),
    Write { path: Seq<char>, reason: Seq<char> },
    Overflow,
    Unexpected,
}

/// An effect as a plain value.
pub enum EffectView {
    Invoke(RequestView),
    Confirm { question: Seq<char>, default: bool },
    Log(Seq<char>),
    Out(Seq<char>),
    Table { table: Seq<char>, format: ReadingFormat, max_width: Option<usize> },
    Resolve(Seq<char>),
    Write { path: Seq<char>, body: Seq<u8> },
    Done,
    Fail(ErrorView),
}

impl View for Request {
    type V = RequestView;

    open spec fn view(&self) -> RequestView {
        match self {
            Request::ListFolders => RequestView::ListFolders,
            Request::AddFolder(folder) => RequestView::AddFolder(folder@),
            Request::ExpungeFolder(folder) => RequestView::ExpungeFolder(folder@),
            Request::DeleteFolder(folder) => RequestView::DeleteFolder(folder@),
            Request::GetMessages { folder, ids } => RequestView::GetMessages {
                folder: folder@,
                ids: names_of(ids@),
            },
        }
    }
}

impl View for CommandError {
    type V = ErrorView;

    open spec fn view(&self) -> ErrorView {
        match self {
            CommandError::CapabilityUnsupported {
                capability,
                account,
            } => ErrorView::CapabilityUnsupported { capability: *capability, account: account@ },
            CommandError::Backend(reason) => ErrorView::Backend(reason@),
            CommandError::Printer(reason) => ErrorView::Printer(reason@),
            CommandError::Prompt(reason) => ErrorView::Prompt(reason@),
            CommandError::Malformed(reason) => ErrorView::Malformed(reason@),
            CommandError::Path(reason) => ErrorView::Path(reason@),
            CommandError::Write { path, reason } => ErrorView::Write {
                path: path@,
                reason: reason@,
            },
            CommandError::Overflow => ErrorView::Overflow,
            CommandError::Unexpected => ErrorView::Unexpected,
        }
    }
}

impl View for Effect {
    type V = EffectView;

    open spec fn view(&self) -> EffectView {
        match self {
            Effect::Invoke(request) => EffectView::Invoke(request@),
            Effect::Confirm { question, default } => EffectView::Confirm {
                question: question@,
                default: *default,
            },
            Effect::Log(line) => EffectView::Log(line@),
            Effect::Out(report) => EffectView::Out(report@),
            Effect::Table { table, format, max_width } => EffectView::Table {
                table: table@,
                format: *format,
                max_width: *max_width,
            },
            Effect::Resolve(name) => EffectView::Resolve(name@),
            Effect::Write { path, body } => EffectView::Write { path: path@, body: body@ },
            Effect::Done => EffectView::Done,
            Effect::Fail(error) => EffectView::Fail(error@),
        }
    }
}

/// The message for a file that could not be written, given its path
/// between quotes and the reason.
pub open spec fn write_failure_text(quoted: Seq<char>, reason: Seq<char>) -> Seq<char> {
    "cannot save attachment at "@ + quoted + ": "@ + reason
}

/// The message for a file that could not be written, given its path
/// between quotes and the reason.
pub fn write_failure(quoted: &str, reason: &str) -> (out: String)
    ensures
        out@ == write_failure_text(quoted@, reason@),
{
    let mut out = String::from_str("cannot save attachment at ");
    out.append(quoted);
    out.append(": ");
    out.append(reason);
    out
}

/// The message that a failed command ends with.
///
/// What a collaborator reported is passed on word for word; a failed
/// write is told with the destination path in front of the reason.
pub open spec fn error_text(error: ErrorView) -> Seq<char> {
    match error {
        ErrorView::CapabilityUnsupported { capability, account } => "cannot "@ + capability_name(
            capability,
        ) + " with account "@ + account,
        ErrorView::Backend(reason) => reason,
        ErrorView::Printer(reason) => reason,
        ErrorView::Prompt(reason) => reason,
        ErrorView::Malformed(reason) => reason,
        ErrorView::Path(reason) => reason,
        ErrorView::Write { path, reason } => write_failure_text(debug_form(path), reason),
        ErrorView::Overflow => "cannot count more attachments"@,
        ErrorView::Unexpected => "cannot go on after an unexpected event"@,
    }
}

impl CommandError {
    /// The message that the failed command ends with.
    pub fn message(&self) -> (out: String)
        ensures
            out@ == error_text(self@),
    {
        match self {
            CommandError::CapabilityUnsupported { capability, account } => {
                let mut out = String::from_str("cannot ");
                out.append(capability.name());
                out.append(" with account ");
                out.append(account.as_str());
                out
            },
            CommandError::Backend(reason) => reason.clone(),
            CommandError::Printer(reason) => reason.clone(),
            CommandError::Prompt(reason) => reason.clone(),
            CommandError::Malformed(reason) => reason.clone(),
            CommandError::Path(reason) => reason.clone(),
            CommandError::Write { path, reason } => write_failure(
                quoted(path.as_str()).as_str(),
                reason.as_str(),
            ),
            CommandError::Overflow => String::from_str("cannot count more attachments"),
            CommandError::Unexpected => String::from_str("cannot go on after an unexpected event"),
        }
    }
}

/// What follows once the printer has taken the last output of a command.
pub open spec fn printed_effect(result: Result<(), String>) -> EffectView {
    match result {
        Ok(_) => EffectView::Done,
        Err(reason) => EffectView::Fail(ErrorView::Printer(reason@)),
    }
}

/// Ends a command once the printer has taken its last output.
pub fn printed(result: Result<(), String>) -> (effect: Effect)
    ensures
        effect@ == printed_effect(result),
{
    match result {
        Ok(_) => Effect::Done,
        Err(reason) => Effect::Fail(CommandError::Printer(reason)),
    }
}

} // verus!
