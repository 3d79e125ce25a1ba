//! The folder commands: list, create, expunge and delete.
//!
//! Each command makes a single backend call and a single report. A backend
//! is never asked for a capability that it does not serve: the command
//! fails before any call, prompt or output.

use crate::backend::{Account, Backend, Capability};
use crate::command::{
    printed, printed_effect, CommandError, Effect, EffectView, ErrorView, Event, Reply, Request,
    RequestView,
};
use crate::folder::table::{render_table, table};
use vstd::prelude::*;

verus! {

/// The call, where the backend serves the capability; else the refusal.
pub open spec fn call_effect(
    backend: Backend,
    capability: Capability,
    request: RequestView,
) -> EffectView {
    if backend@.dom().contains(capability) {
        EffectView::Invoke(request)
    } else {
        refusal(backend, capability)
    }
}

/// The failure for a capability that the backend does not serve.
pub open spec fn refusal(backend: Backend, capability: Capability) -> EffectView {
    EffectView::Fail(
        ErrorView::CapabilityUnsupported { capability, account: backend.account_name() },
    )
}

/// What a command that makes one call and one report does next.
pub open spec fn single_call_effect(
    backend: Backend,
    capability: Capability,
    request: RequestView,
    report: Seq<char>,
    event: Event,
) -> EffectView {
    match event {
        Event::Start => call_effect(backend, capability, request),
        Event::Replied(Ok(_)) => EffectView::Out(report),
        Event::Replied(Err(reason)) => EffectView::Fail(ErrorView::Backend(reason@)),
        Event::Printed(result) => printed_effect(result),
        _ => EffectView::Fail(ErrorView::Unexpected),
    }
}

/// What the expunge command does next.
pub open spec fn expunge_effect(backend: Backend, folder: Seq<char>, event: Event) -> EffectView {
    single_call_effect(
        backend,
        Capability::ExpungeFolder,
        RequestView::ExpungeFolder(folder),
        "Folder "@ + folder + " successfully expunged!"@,
        event,
    )
}

/// What the create command does next.
pub open spec fn create_effect(backend: Backend, folder: Seq<char>, event: Event) -> EffectView {
    single_call_effect(
        backend,
        Capability::AddFolder,
        RequestView::AddFolder(folder),
        "Folder successfully created!"@,
        event,
    )
}

/// What the list command does next.
pub open spec fn list_effect(
    config: Account,
    backend: Backend,
    max_width: Option<usize>,
    event: Event,
) -> EffectView {
    match event {
        Event::Start => call_effect(backend, Capability::ListFolders, RequestView::ListFolders),
        Event::Replied(Ok(Reply::Folders(folders))) => EffectView::Table {
            table: table(folders@, max_width),
            format: config.reading_format,
            max_width,
        },
        Event::Replied(Ok(_)) => EffectView::Fail(ErrorView::Unexpected),
        Event::Replied(Err(reason)) => EffectView::Fail(ErrorView::Backend(reason@)),
        Event::Printed(result) => printed_effect(result),
        _ => EffectView::Fail(ErrorView::Unexpected),
    }
}

/// What the delete command does next.
pub open spec fn delete_effect(backend: Backend, folder: Seq<char>, event: Event) -> EffectView {
    match event {
        Event::Start => if backend@.dom().contains(Capability::DeleteFolder) {
            EffectView::Confirm {
                question: "Confirm deletion of folder "@ + folder + "?"@,
                default: false,
            }
        } else {
            refusal(backend, Capability::DeleteFolder)
        },
        Event::Answered(Ok(Some(true))) => call_effect(
            backend,
            Capability::DeleteFolder,
            RequestView::DeleteFolder(folder),
        ),
        Event::Answered(Ok(_)) => EffectView::Done,
        Event::Answered(Err(reason)) => EffectView::Fail(ErrorView::Prompt(reason@)),
        Event::Replied(Ok(_)) => EffectView::Out("Folder successfully deleted!"@),
        Event::Replied(Err(reason)) => EffectView::Fail(ErrorView::Backend(reason@)),
        Event::Printed(result) => printed_effect(result),
        _ => EffectView::Fail(ErrorView::Unexpected),
    }
}

fn refuse(backend: &Backend, capability: Capability) -> (effect: Effect)
    ensures
        effect@ == refusal(*backend, capability),
{
    Effect::Fail(
        CommandError::CapabilityUnsupported {
            capability,
            account: String::from_str(backend.account()),
        },
    )
}

fn call(backend: &Backend, capability: Capability, request: Request) -> (effect: Effect)
    requires
        backend.wf(),
    ensures
        effect@ == call_effect(*backend, capability, request@),
{
    if backend.supports(capability) {
        Effect::Invoke(request)
    } else {
        refuse(backend, capability)
    }
}

fn single_call(
    backend: &Backend,
    capability: Capability,
    request: Request,
    report: String,
    event: Event,
) -> (effect: Effect)
    requires
        backend.wf(),
    ensures
        effect@ == single_call_effect(*backend, capability, request@, report@, event),
{
    match event {
        Event::Start => call(backend, capability, request),
        Event::Replied(Ok(_)) => Effect::Out(report),
        Event::Replied(Err(reason)) => Effect::Fail(CommandError::Backend(reason)),
        Event::Printed(result) => printed(result),
        _ => Effect::Fail(CommandError::Unexpected),
    }
}

/// Expunges a folder, then reports that it did.
pub fn expunge(backend: &Backend, folder: &str, event: Event) -> (effect: Effect)
    requires
        backend.wf(),
    ensures
        effect@ == expunge_effect(*backend, folder@, event),
{
    let mut report = String::from_str("Folder ");
    report.append(folder);
    report.append(" successfully expunged!");
    single_call(
        backend,
        Capability::ExpungeFolder,
        Request::ExpungeFolder(String::from_str(folder)),
        report,
        event,
    )
}

/// Lists the folders of the account as a table, cut to `max_width` where
/// one is given. The table goes to the printer with the reading format of
/// the account and the width that was asked for.
pub fn list(config: &Account, backend: &Backend, max_width: Option<usize>, event: Event) -> (effect:
    Effect)
    requires
        backend.wf(),
    ensures
        effect@ == list_effect(*config, *backend, max_width, event),
{
    match event {
        Event::Start => call(backend, Capability::ListFolders, Request::ListFolders),
        Event::Replied(Ok(Reply::Folders(folders))) => Effect::Table {
            table: render_table(&folders, max_width),
            format: config.reading_format,
            max_width,
        },
        Event::Replied(Ok(_)) => Effect::Fail(CommandError::Unexpected),
        Event::Replied(Err(reason)) => Effect::Fail(CommandError::Backend(reason)),
        Event::Printed(result) => printed(result),
        _ => Effect::Fail(CommandError::Unexpected),
    }
}

/// Creates a folder, then reports that it did.
pub fn create(backend: &Backend, folder: &str, event: Event) -> (effect: Effect)
    requires
        backend.wf(),
    ensures
        effect@ == create_effect(*backend, folder@, event),
{
    single_call(
        backend,
        Capability::AddFolder,
        Request::AddFolder(String::from_str(folder)),
        String::from_str("Folder successfully created!"),
        event,
    )
}

/// Deletes a folder once the user has confirmed, then reports that it did.
/// The answer that stands by default is "no"; any answer but "yes" ends the
/// command successfully with nothing done.
pub fn delete(backend: &Backend, folder: &str, event: Event) -> (effect: Effect)
    requires
        backend.wf(),
    ensures
        effect@ == delete_effect(*backend, folder@, event),
{
    match event {
        Event::Start => {
            if backend.supports(Capability::DeleteFolder) {
                let mut question = String::from_str("Confirm deletion of folder ");
                question.append(folder);
                question.append("?");
                Effect::Confirm { question, default: false }
            } else {
                refuse(backend, Capability::DeleteFolder)
            }
        },
        Event::Answered(Ok(Some(true))) => call(
            backend,
            Capability::DeleteFolder,
            Request::DeleteFolder(String::from_str(folder)),
        ),
        Event::Answered(Ok(_)) => Effect::Done,
        Event::Answered(Err(reason)) => Effect::Fail(CommandError::Prompt(reason)),
        Event::Replied(Ok(_)) => Effect::Out(String::from_str("Folder successfully deleted!")),
        Event::Replied(Err(reason)) => Effect::Fail(CommandError::Backend(reason)),
        Event::Printed(result) => printed(result),
        _ => Effect::Fail(CommandError::Unexpected),
    }
}

/// A deletion that is not confirmed changes nothing: on "no" and on no
/// answer the command ends successfully, and whatever the event, the
/// backend is called only after a "yes".
pub proof fn unconfirmed_deletion_changes_nothing(
    backend: Backend,
    folder: Seq<char>,
    event: Event,
)
    ensures
        event matches Event::Answered(Ok(answer)) && answer != Some(true) ==> delete_effect(
            backend,
            folder,
            event,
        ) == EffectView::Done,
        delete_effect(backend, folder, event) is Invoke ==> event == Event::Answered(
            Ok(Some(true)),
        ),
        delete_effect(backend, folder, event) is Invoke ==> delete_effect(backend, folder, event)
            == EffectView::Invoke(RequestView::DeleteFolder(folder)) && backend@.dom().contains(
            Capability::DeleteFolder,
        ),
{
}

/// No folder command calls a backend for a capability that it does not
/// serve.
pub proof fn calls_stay_within_capabilities(
    config: Account,
    backend: Backend,
    folder: Seq<char>,
    max_width: Option<usize>,
    event: Event,
)
    ensures
        expunge_effect(backend, folder, event) is Invoke ==> backend@.dom().contains(
            Capability::ExpungeFolder,
        ),
        create_effect(backend, folder, event) is Invoke ==> backend@.dom().contains(
            Capability::AddFolder,
        ),
        list_effect(config, backend, max_width, event) is Invoke ==> backend@.dom().contains(
            Capability::ListFolders,
        ),
        delete_effect(backend, folder, event) is Invoke ==> backend@.dom().contains(
            Capability::DeleteFolder,
        ),
{
}

} // verus!
