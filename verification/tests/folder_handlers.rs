use mailcmd::backend::{resolve, Account, Backend, Capability, Provider, ReadingFormat};
use mailcmd::command::{printed, CommandError, Effect, Event, Reply, Request};
use mailcmd::folder::handlers::{create, delete, expunge};

const ALL: [Capability; 4] = [
    Capability::ListFolders,
    Capability::AddFolder,
    Capability::DeleteFolder,
    Capability::ExpungeFolder,
];

fn account(reading_format: ReadingFormat) -> Account {
    Account {
        name: String::from("work"),
        default_folder: String::from("INBOX"),
        reading_format,
        providers: vec![Provider {
            name: String::from("imap"),
            capabilities: ALL.to_vec(),
        }],
    }
}

fn backend(required: &[Capability]) -> Backend {
    resolve(&account(ReadingFormat::Auto), &required.to_vec(), &vec![]).unwrap()
}

fn list(backend: &Backend, max_width: Option<usize>, event: Event) -> Effect {
    mailcmd::folder::handlers::list(&account(ReadingFormat::Auto), backend, max_width, event)
}

fn unsupported(effect: Effect, wanted: Capability) {
    match effect {
        Effect::Fail(CommandError::CapabilityUnsupported {
            capability,
            account,
        }) => {
            assert_eq!(capability, wanted);
            assert_eq!(account, "work");
        }
        other => panic!("unexpected effect: {:?}", other),
    }
}

#[test]
fn expunge_calls_the_backend_then_reports() {
    let backend = backend(&ALL);
    match expunge(&backend, "Trash", Event::Start) {
        Effect::Invoke(Request::ExpungeFolder(folder)) => assert_eq!(folder, "Trash"),
        other => panic!("unexpected effect: {:?}", other),
    }
    match expunge(&backend, "Trash", Event::Replied(Ok(Reply::Done))) {
        Effect::Out(report) => assert_eq!(report, "Folder Trash successfully expunged!"),
        other => panic!("unexpected effect: {:?}", other),
    }
    assert!(matches!(
        expunge(&backend, "Trash", Event::Printed(Ok(()))),
        Effect::Done
    ));
}

#[test]
fn create_calls_the_backend_then_reports() {
    let backend = backend(&ALL);
    match create(&backend, "Projects", Event::Start) {
        Effect::Invoke(Request::AddFolder(folder)) => assert_eq!(folder, "Projects"),
        other => panic!("unexpected effect: {:?}", other),
    }
    match create(&backend, "Projects", Event::Replied(Ok(Reply::Done))) {
        Effect::Out(report) => assert_eq!(report, "Folder successfully created!"),
        other => panic!("unexpected effect: {:?}", other),
    }
}

#[test]
fn delete_asks_before_it_calls_the_backend() {
    let backend = backend(&ALL);
    match delete(&backend, "Old", Event::Start) {
        Effect::Confirm { question, default } => {
            assert_eq!(question, "Confirm deletion of folder Old?");
            assert!(!default);
        }
        other => panic!("unexpected effect: {:?}", other),
    }
    match delete(&backend, "Old", Event::Answered(Ok(Some(true)))) {
        Effect::Invoke(Request::DeleteFolder(folder)) => assert_eq!(folder, "Old"),
        other => panic!("unexpected effect: {:?}", other),
    }
    match delete(&backend, "Old", Event::Replied(Ok(Reply::Done))) {
        Effect::Out(report) => assert_eq!(report, "Folder successfully deleted!"),
        other => panic!("unexpected effect: {:?}", other),
    }
    assert!(matches!(
        delete(&backend, "Old", Event::Printed(Ok(()))),
        Effect::Done
    ));
}

#[test]
fn declining_a_deletion_ends_the_command_with_nothing_done() {
    let backend = backend(&ALL);
    assert!(matches!(
        delete(&backend, "Old", Event::Answered(Ok(Some(false)))),
        Effect::Done
    ));
    assert!(matches!(
        delete(&backend, "Old", Event::Answered(Ok(None))),
        Effect::Done
    ));
}

#[test]
fn a_failed_prompt_fails_the_deletion() {
    let backend = backend(&ALL);
    match delete(&backend, "Old", Event::Answered(Err(String::from("not a terminal")))) {
        Effect::Fail(CommandError::Prompt(reason)) => assert_eq!(reason, "not a terminal"),
        other => panic!("unexpected effect: {:?}", other),
    }
}

#[test]
fn commands_fail_before_anything_else_without_their_capability() {
    let backend = backend(&[Capability::GetMessages, Capability::ListFolders][1..]);
    unsupported(expunge(&backend, "Trash", Event::Start), Capability::ExpungeFolder);
    unsupported(create(&backend, "New", Event::Start), Capability::AddFolder);
    unsupported(delete(&backend, "Old", Event::Start), Capability::DeleteFolder);
    unsupported(
        delete(&backend, "Old", Event::Answered(Ok(Some(true)))),
        Capability::DeleteFolder,
    );
    let none = self::backend(&[]);
    unsupported(list(&none, None, Event::Start), Capability::ListFolders);
}

#[test]
fn a_provider_failure_is_passed_on_unchanged() {
    let backend = backend(&ALL);
    let failed = || Event::Replied(Err(String::from("connection reset")));
    for effect in [
        expunge(&backend, "a", failed()),
        create(&backend, "a", failed()),
        delete(&backend, "a", failed()),
        list(&backend, None, failed()),
    ] {
        match effect {
            Effect::Fail(CommandError::Backend(reason)) => assert_eq!(reason, "connection reset"),
            other => panic!("unexpected effect: {:?}", other),
        }
    }
}

#[test]
fn a_printer_failure_fails_the_command() {
    let backend = backend(&ALL);
    let failed = || Event::Printed(Err(String::from("broken pipe")));
    for effect in [
        expunge(&backend, "a", failed()),
        create(&backend, "a", failed()),
        delete(&backend, "a", failed()),
        list(&backend, None, failed()),
        printed(Err(String::from("broken pipe"))),
    ] {
        match effect {
            Effect::Fail(CommandError::Printer(reason)) => assert_eq!(reason, "broken pipe"),
            other => panic!("unexpected effect: {:?}", other),
        }
    }
    assert!(matches!(printed(Ok(())), Effect::Done));
}

#[test]
fn events_that_a_command_does_not_wait_for_fail_it() {
    let backend = backend(&ALL);
    for effect in [
        expunge(&backend, "a", Event::Answered(Ok(Some(true)))),
        create(&backend, "a", Event::Written(Ok(()))),
        delete(&backend, "a", Event::Resolved(Ok(String::from("/tmp/a")))),
        list(&backend, None, Event::Replied(Ok(Reply::Done))),
        list(&backend, None, Event::Replied(Ok(Reply::Messages(vec![])))),
    ] {
        assert!(matches!(effect, Effect::Fail(CommandError::Unexpected)));
    }
}

#[test]
fn list_cuts_the_table_to_the_maximum_width() {
    let backend = backend(&ALL);
    let folders = vec![mailcmd::folder::Folder {
        name: String::from("INBOX"),
        delim: String::from("/"),
        desc: String::from("All mail"),
    }];
    match list(&backend, Some(8), Event::Replied(Ok(Reply::Folders(folders)))) {
        Effect::Table {
            table, max_width, ..
        } => {
            assert_eq!(table, "\nDELIM │N\n/     │I\n\n");
            assert_eq!(max_width, Some(8));
        }
        other => panic!("unexpected effect: {:?}", other),
    }
}

#[test]
fn list_hands_the_reading_format_of_the_account_to_the_printer() {
    let backend = backend(&ALL);
    for format in [
        ReadingFormat::Auto,
        ReadingFormat::Flowed,
        ReadingFormat::Fixed(72),
    ] {
        let effect = mailcmd::folder::handlers::list(
            &account(format),
            &backend,
            Some(40),
            Event::Replied(Ok(Reply::Folders(vec![]))),
        );
        match effect {
            Effect::Table {
                table,
                format: handed,
                max_width,
            } => {
                assert_eq!(table, "\nDELIM │NAME │DESC \n\n");
                assert_eq!(handed, format);
                assert_eq!(max_width, Some(40));
            }
            other => panic!("unexpected effect: {:?}", other),
        }
    }
}
