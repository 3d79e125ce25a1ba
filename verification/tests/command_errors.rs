use mailcmd::backend::Capability;
use mailcmd::command::{write_failure, CommandError};

#[test]
fn a_missing_capability_is_told_with_the_account() {
    let error = CommandError::CapabilityUnsupported {
        capability: Capability::GetMessages,
        account: String::from("work"),
    };
    assert_eq!(error.message(), "cannot get messages with account work");
}

#[test]
fn what_a_collaborator_reported_is_passed_on() {
    assert_eq!(
        CommandError::Backend(String::from("connection reset")).message(),
        "connection reset"
    );
    assert_eq!(
        CommandError::Printer(String::from("broken pipe")).message(),
        "broken pipe"
    );
    assert_eq!(
        CommandError::Prompt(String::from("not a terminal")).message(),
        "not a terminal"
    );
    assert_eq!(
        CommandError::Path(String::from("no file name")).message(),
        "no file name"
    );
    assert_eq!(
        CommandError::Malformed(String::from("cannot parse email message")).message(),
        "cannot parse email message"
    );
}

#[test]
fn a_failed_write_is_told_with_the_path() {
    let error = CommandError::Write {
        path: String::from("/downloads/a b.bin"),
        reason: String::from("disk full"),
    };
    assert_eq!(
        error.message(),
        "cannot save attachment at \"/downloads/a b.bin\": disk full"
    );
}

#[test]
fn a_failed_write_takes_the_path_as_quoted() {
    assert_eq!(
        write_failure("\"/ro/x\"", "read-only file system"),
        "cannot save attachment at \"/ro/x\": read-only file system"
    );
}

#[test]
fn the_other_failures_have_fixed_messages() {
    assert_eq!(
        CommandError::Overflow.message(),
        "cannot count more attachments"
    );
    assert_eq!(
        CommandError::Unexpected.message(),
        "cannot go on after an unexpected event"
    );
}

#[test]
fn every_capability_has_a_name_of_its_own() {
    let all = [
        Capability::ListFolders,
        Capability::AddFolder,
        Capability::DeleteFolder,
        Capability::ExpungeFolder,
        Capability::GetEnvelope,
        Capability::ListEnvelopes,
        Capability::SearchEnvelopes,
        Capability::AddMessage,
        Capability::GetMessages,
        Capability::PreviewMessages,
        Capability::CopyMessages,
        Capability::MoveMessages,
        Capability::DeleteMessages,
        Capability::AddFlags,
        Capability::SetFlags,
        Capability::RemoveFlags,
        Capability::CloneHandle,
    ];
    for (i, a) in all.iter().enumerate() {
        for (j, b) in all.iter().enumerate() {
            assert_eq!(i == j, a.name() == b.name());
        }
    }
    assert_eq!(Capability::ListFolders.name(), "list folders");
    assert_eq!(Capability::CloneHandle.name(), "clone the backend");
}
