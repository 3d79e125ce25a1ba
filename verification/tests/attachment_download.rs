use mailcmd::attachment::download::{
    downloading, downloading_quoted, found, none_found, summary, AccountNameFlag, AttachmentDownloadCommand,
    Download, EnvelopeIdsArgs, FolderNameOptionalFlag, Phase,
};
use mailcmd::attachment::{name_with, quoted, Attachment};
use mailcmd::backend::{Account, ReadingFormat, Source};
use mailcmd::command::{CommandError, Effect, Event, Reply, Request};

fn decoded(base64: &str) -> Vec<u8> {
    match base64 {
        "AQID" => vec![1, 2, 3],
        "BAUG" => vec![4, 5, 6],
        "aGk=" => b"hi".to_vec(),
        other => panic!("no content known for {other}"),
    }
}

type Parsed = Result<Vec<Attachment>, String>;

/// What was read out of a message with these attachments.
fn message(parts: &[(Option<&str>, &str)]) -> Parsed {
    Ok(
        parts
            .iter()
            .map(|(name, base64)| Attachment {
                filename: name.map(String::from),
                body: decoded(base64),
            })
            .collect(),
    )
}

/// What was read out of a message without attachments.
fn plain_message() -> Parsed {
    Ok(vec![])
}

/// A message whose structure could not be read.
fn unreadable() -> Parsed {
    Err(String::from("cannot parse email message"))
}

fn command(folder: Option<&str>, ids: &[&str]) -> AttachmentDownloadCommand {
    AttachmentDownloadCommand {
        folder: FolderNameOptionalFlag {
            name: folder.map(String::from),
        },
        envelopes: EnvelopeIdsArgs {
            ids: ids.iter().map(|id| String::from(*id)).collect(),
        },
        account: AccountNameFlag { name: None },
    }
}

fn account() -> Account {
    Account {
        name: String::from("work"),
        default_folder: String::from("INBOX"),
        reading_format: ReadingFormat::Auto,
        providers: vec![],
    }
}

fn is_identifier(name: &str) -> bool {
    name.len() == 36
        && name.chars().enumerate().all(|(i, c)| match i {
            8 | 13 | 18 | 23 => c == '-',
            _ => c.is_ascii_digit() || ('a'..='f').contains(&c),
        })
        && name.as_bytes()[14] == b'4'
}

fn log(effect: Effect) -> String {
    match effect {
        Effect::Log(line) => line,
        other => panic!("unexpected effect: {:?}", other),
    }
}

fn resolve(effect: Effect) -> String {
    match effect {
        Effect::Resolve(name) => name,
        other => panic!("unexpected effect: {:?}", other),
    }
}

fn printed() -> Event {
    Event::Printed(Ok(()))
}

#[test]
fn a_declared_name_is_kept_whatever_was_drawn() {
    let attachment = Attachment {
        filename: Some(String::from("report.pdf")),
        body: vec![],
    };
    assert_eq!(
        name_with(&attachment, String::from("drawn")),
        "report.pdf"
    );
    assert_eq!(name_with(&attachment, String::new()), "report.pdf");
}

#[test]
fn an_attachment_without_a_name_is_named_by_the_identifier_drawn_for_it() {
    let attachment = Attachment {
        filename: None,
        body: vec![1],
    };
    assert_eq!(name_with(&attachment, String::from("first")), "first");
    assert_eq!(name_with(&attachment, String::from("second")), "second");
    assert_eq!(name_with(&attachment, String::new()), "");
}

/// A run that has printed what its one message holds: two attachments
/// without a name and one with.
fn run_before_the_first_attachment() -> (AttachmentDownloadCommand, Account, Download) {
    let command = command(None, &["1"]);
    let account = account();
    let mut run = Download::new();
    command.execute(&account, &mut run, Event::Start);
    let messages = vec![message(&[(None, "AQID"), (None, "BAUG"), (Some("x"), "aGk=")])];
    command.execute(&account, &mut run, Event::Replied(Ok(Reply::Messages(messages))));
    (command, account, run)
}

#[test]
fn a_step_names_an_attachment_without_a_name_by_the_identifier_drawn() {
    let (command, account, mut run) = run_before_the_first_attachment();
    assert!(run.draws(&printed()));
    assert!(!run.draws(&Event::Start));
    let first = command.step(&account, &mut run, printed(), String::from("first-draw"));
    assert_eq!(resolve(first), "first-draw");
    command.execute(&account, &mut run, Event::Resolved(Ok(String::from("/d/1"))));
    command.execute(&account, &mut run, printed());
    assert!(run.draws(&Event::Written(Ok(()))));
    let second = command.step(
        &account,
        &mut run,
        Event::Written(Ok(())),
        String::from("second-draw"),
    );
    assert_eq!(resolve(second), "second-draw");
    command.execute(&account, &mut run, Event::Resolved(Ok(String::from("/d/2"))));
    command.execute(&account, &mut run, printed());
    // The third attachment declares its name: nothing is drawn for it, and
    // an identifier handed in all the same plays no part.
    assert!(!run.draws(&Event::Written(Ok(()))));
    let third = command.step(
        &account,
        &mut run,
        Event::Written(Ok(())),
        String::from("third-draw"),
    );
    assert_eq!(resolve(third), "x");
}

#[test]
fn execute_draws_an_identifier_for_each_attachment_without_a_name() {
    let (command, account, mut run) = run_before_the_first_attachment();
    let first = resolve(command.execute(&account, &mut run, printed()));
    assert!(is_identifier(&first), "{first}");
    command.execute(&account, &mut run, Event::Resolved(Ok(String::from("/d/1"))));
    command.execute(&account, &mut run, printed());
    let second = resolve(command.execute(&account, &mut run, Event::Written(Ok(()))));
    assert!(is_identifier(&second), "{second}");
    assert_ne!(first, second);
}

#[test]
fn quoted_writes_a_path_between_quotes() {
    assert_eq!(quoted("/tmp/a b.txt"), "\"/tmp/a b.txt\"");
    assert_eq!(quoted("/tmp/say \"hi\""), "\"/tmp/say \\\"hi\\\"\"");
    assert_eq!(quoted(""), "\"\"");
}

#[test]
fn progress_lines_name_the_message_and_the_path() {
    assert_eq!(none_found("42"), "No attachment found for message 42!");
    assert_eq!(found(3, "42"), "3 attachment(s) found for message 42!");
    assert_eq!(found(1, "<id@host>"), "1 attachment(s) found for message <id@host>!");
    assert_eq!(downloading("/tmp/a.bin"), "Downloading \"/tmp/a.bin\"…");
}

#[test]
fn the_destination_line_takes_the_path_as_quoted() {
    assert_eq!(downloading_quoted("\"/tmp/a\""), "Downloading \"/tmp/a\"…");
    assert_eq!(downloading_quoted(""), "Downloading …");
}

#[test]
fn the_summary_has_three_forms() {
    assert_eq!(summary(0, 0), "no attachment found");
    assert_eq!(summary(0, 5), "no attachment found");
    assert_eq!(summary(1, 1), "Downloaded 1 attachment!");
    assert_eq!(summary(2, 1), "Downloaded 2 attachment(s) from 1 messages(s)!");
    assert_eq!(
        summary(12, 10),
        "Downloaded 12 attachment(s) from 10 messages(s)!"
    );
}

#[test]
fn a_download_starts_by_fetching_the_messages_from_the_context() {
    let mut run = Download::new();
    assert_eq!(run.phase(), Phase::Idle);
    assert_eq!(run.source(), None);
    let command = command(Some("Archive"), &["3", "1", "2"]);
    match command.execute(&account(), &mut run, Event::Start) {
        Effect::Invoke(Request::GetMessages { folder, ids }) => {
            assert_eq!(folder, "Archive");
            assert_eq!(ids, vec!["3", "1", "2"]);
        }
        other => panic!("unexpected effect: {:?}", other),
    }
    assert_eq!(run.phase(), Phase::Fetching);
    assert_eq!(run.source(), Some(Source::Context));
}

#[test]
fn a_download_without_a_folder_reads_the_default_folder() {
    let mut run = Download::new();
    match command(None, &["1"]).execute(&account(), &mut run, Event::Start) {
        Effect::Invoke(Request::GetMessages { folder, .. }) => assert_eq!(folder, "INBOX"),
        other => panic!("unexpected effect: {:?}", other),
    }
}

#[test]
fn a_download_writes_every_attachment_and_counts() {
    let command = command(None, &["7", "8", "9"]);
    let account = account();
    let mut run = Download::new();
    command.execute(&account, &mut run, Event::Start);
    let messages = vec![
        message(&[(Some("a.bin"), "AQID"), (None, "BAUG")]),
        plain_message(),
        message(&[(Some("c.txt"), "aGk=")]),
    ];

    let effect = command.execute(&account, &mut run, Event::Replied(Ok(Reply::Messages(messages))));
    assert_eq!(log(effect), "2 attachment(s) found for message 7!");
    assert_eq!(run.emails_count(), 1);

    let effect = command.execute(&account, &mut run, printed());
    assert_eq!(resolve(effect), "a.bin");
    let effect = command.execute(
        &account,
        &mut run,
        Event::Resolved(Ok(String::from("/downloads/a.bin"))),
    );
    assert_eq!(log(effect), "Downloading \"/downloads/a.bin\"…");
    match command.execute(&account, &mut run, printed()) {
        Effect::Write { path, body } => {
            assert_eq!(path, "/downloads/a.bin");
            assert_eq!(body, vec![1, 2, 3]);
        }
        other => panic!("unexpected effect: {:?}", other),
    }
    assert_eq!(run.attachments_count(), 0);

    let effect = command.execute(&account, &mut run, Event::Written(Ok(())));
    assert_eq!(run.attachments_count(), 1);
    let made_up = resolve(effect);
    assert!(is_identifier(&made_up), "{made_up}");
    assert_ne!(made_up, "a.bin");
    let effect = command.execute(
        &account,
        &mut run,
        Event::Resolved(Ok(format!("/downloads/{made_up}"))),
    );
    assert_eq!(log(effect), format!("Downloading \"/downloads/{made_up}\"…"));
    match command.execute(&account, &mut run, printed()) {
        Effect::Write { path, body } => {
            assert_eq!(path, format!("/downloads/{made_up}"));
            assert_eq!(body, vec![4, 5, 6]);
        }
        other => panic!("unexpected effect: {:?}", other),
    }

    let effect = command.execute(&account, &mut run, Event::Written(Ok(())));
    assert_eq!(log(effect), "No attachment found for message 8!");
    assert_eq!(run.emails_count(), 1);

    let effect = command.execute(&account, &mut run, printed());
    assert_eq!(log(effect), "1 attachment(s) found for message 9!");
    assert_eq!(run.emails_count(), 2);

    let effect = command.execute(&account, &mut run, printed());
    assert_eq!(resolve(effect), "c.txt");
    command.execute(
        &account,
        &mut run,
        Event::Resolved(Ok(String::from("/downloads/c.txt"))),
    );
    match command.execute(&account, &mut run, printed()) {
        Effect::Write { path, body } => {
            assert_eq!(path, "/downloads/c.txt");
            assert_eq!(body, b"hi".to_vec());
        }
        other => panic!("unexpected effect: {:?}", other),
    }
    match command.execute(&account, &mut run, Event::Written(Ok(()))) {
        Effect::Out(report) => {
            assert_eq!(report, "Downloaded 3 attachment(s) from 2 messages(s)!")
        }
        other => panic!("unexpected effect: {:?}", other),
    }
    assert_eq!(run.phase(), Phase::Reporting);
    assert_eq!(run.attachments_count(), 3);
    assert_eq!(run.emails_count(), 2);
    assert!(matches!(command.execute(&account, &mut run, printed()), Effect::Done));
    assert_eq!(run.phase(), Phase::Finished);
    assert!(matches!(
        command.execute(&account, &mut run, Event::Start),
        Effect::Fail(CommandError::Unexpected)
    ));
}

fn run_to_report(messages: Vec<Parsed>, ids: &[&str]) -> String {
    let command = command(None, ids);
    let account = account();
    let mut run = Download::new();
    command.execute(&account, &mut run, Event::Start);
    let mut effect = command.execute(&account, &mut run, Event::Replied(Ok(Reply::Messages(messages))));
    loop {
        effect = match effect {
            Effect::Log(_) => command.execute(&account, &mut run, printed()),
            Effect::Resolve(name) => {
                command.execute(&account, &mut run, Event::Resolved(Ok(format!("/d/{name}"))))
            }
            Effect::Write { .. } => command.execute(&account, &mut run, Event::Written(Ok(()))),
            Effect::Out(report) => return report,
            other => panic!("unexpected effect: {:?}", other),
        }
    }
}

#[test]
fn the_report_for_no_attachment() {
    assert_eq!(
        run_to_report(vec![plain_message(), plain_message()], &["1", "2"]),
        "no attachment found"
    );
    assert_eq!(run_to_report(vec![], &[]), "no attachment found");
    assert_eq!(run_to_report(vec![], &["1"]), "no attachment found");
}

#[test]
fn the_report_for_one_attachment() {
    assert_eq!(
        run_to_report(
            vec![plain_message(), message(&[(None, "AQID")])],
            &["1", "2"]
        ),
        "Downloaded 1 attachment!"
    );
}

#[test]
fn the_report_for_several_attachments() {
    assert_eq!(
        run_to_report(
            vec![
                message(&[(Some("a"), "AQID"), (Some("b"), "AQID")]),
                plain_message(),
                message(&[(Some("a"), "AQID"), (None, "AQID"), (None, "AQID")]),
            ],
            &["1", "2", "3"]
        ),
        "Downloaded 5 attachment(s) from 2 messages(s)!"
    );
    assert_eq!(
        run_to_report(vec![message(&[(Some("a"), "AQID"), (None, "AQID")])], &["1"]),
        "Downloaded 2 attachment(s) from 1 messages(s)!"
    );
}

#[test]
fn names_made_up_in_one_run_differ() {
    let command = command(None, &["1"]);
    let account = account();
    let mut run = Download::new();
    command.execute(&account, &mut run, Event::Start);
    let messages = vec![message(&[(None, "AQID"), (None, "AQID"), (Some("x"), "AQID"), (None, "AQID")])];
    let mut effect = command.execute(&account, &mut run, Event::Replied(Ok(Reply::Messages(messages))));
    let mut chosen: Vec<String> = vec![];
    loop {
        effect = match effect {
            Effect::Log(_) => command.execute(&account, &mut run, printed()),
            Effect::Resolve(name) => {
                chosen.push(name.clone());
                command.execute(&account, &mut run, Event::Resolved(Ok(name)))
            }
            Effect::Write { .. } => command.execute(&account, &mut run, Event::Written(Ok(()))),
            Effect::Out(_) => break,
            other => panic!("unexpected effect: {:?}", other),
        }
    }
    assert_eq!(chosen.len(), 4);
    assert_eq!(chosen[2], "x");
    for i in 0..4 {
        for j in 0..4 {
            if i != j {
                assert_ne!(chosen[i], chosen[j]);
            }
        }
    }
}

#[test]
fn a_malformed_message_fails_the_command_after_the_ones_before_it() {
    let command = command(None, &["1", "2"]);
    let account = account();
    let mut run = Download::new();
    command.execute(&account, &mut run, Event::Start);
    let messages = vec![plain_message(), unreadable()];
    let effect = command.execute(&account, &mut run, Event::Replied(Ok(Reply::Messages(messages))));
    assert_eq!(log(effect), "No attachment found for message 1!");
    match command.execute(&account, &mut run, printed()) {
        Effect::Fail(CommandError::Malformed(reason)) => {
            assert_eq!(reason, "cannot parse email message")
        }
        other => panic!("unexpected effect: {:?}", other),
    }
    assert_eq!(run.phase(), Phase::Finished);
}

#[test]
fn a_write_failure_names_the_path() {
    let command = command(None, &["1"]);
    let account = account();
    let mut run = Download::new();
    command.execute(&account, &mut run, Event::Start);
    let messages = vec![message(&[(Some("a.bin"), "AQID")])];
    command.execute(&account, &mut run, Event::Replied(Ok(Reply::Messages(messages))));
    command.execute(&account, &mut run, printed());
    command.execute(&account, &mut run, Event::Resolved(Ok(String::from("/ro/a.bin"))));
    command.execute(&account, &mut run, printed());
    match command.execute(&account, &mut run, Event::Written(Err(String::from("read-only file system")))) {
        Effect::Fail(CommandError::Write { path, reason }) => {
            assert_eq!(path, "/ro/a.bin");
            assert_eq!(reason, "read-only file system");
        }
        other => panic!("unexpected effect: {:?}", other),
    }
    assert_eq!(run.attachments_count(), 0);
    assert_eq!(run.phase(), Phase::Finished);
}

#[test]
fn failures_of_the_collaborators_fail_the_command() {
    let account = account();
    let command = command(None, &["1"]);

    let mut run = Download::new();
    command.execute(&account, &mut run, Event::Start);
    match command.execute(&account, &mut run, Event::Replied(Err(String::from("no such folder")))) {
        Effect::Fail(CommandError::Backend(reason)) => assert_eq!(reason, "no such folder"),
        other => panic!("unexpected effect: {:?}", other),
    }

    let mut run = Download::new();
    command.execute(&account, &mut run, Event::Start);
    assert!(matches!(
        command.execute(&account, &mut run, Event::Replied(Ok(Reply::Done))),
        Effect::Fail(CommandError::Unexpected)
    ));

    let mut run = Download::new();
    command.execute(&account, &mut run, Event::Start);
    let messages = vec![message(&[(Some("a.bin"), "AQID")])];
    command.execute(&account, &mut run, Event::Replied(Ok(Reply::Messages(messages))));
    match command.execute(&account, &mut run, Event::Printed(Err(String::from("broken pipe")))) {
        Effect::Fail(CommandError::Printer(reason)) => assert_eq!(reason, "broken pipe"),
        other => panic!("unexpected effect: {:?}", other),
    }

    let mut run = Download::new();
    command.execute(&account, &mut run, Event::Start);
    let messages = vec![message(&[(Some("a.bin"), "AQID")])];
    command.execute(&account, &mut run, Event::Replied(Ok(Reply::Messages(messages))));
    command.execute(&account, &mut run, printed());
    match command.execute(&account, &mut run, Event::Resolved(Err(String::from("no file name")))) {
        Effect::Fail(CommandError::Path(reason)) => assert_eq!(reason, "no file name"),
        other => panic!("unexpected effect: {:?}", other),
    }
}

#[test]
fn messages_are_paired_with_ids_by_position() {
    let command = command(None, &["b", "a"]);
    let account = account();
    let mut run = Download::new();
    command.execute(&account, &mut run, Event::Start);
    let messages = vec![plain_message(), message(&[(Some("x"), "AQID")])];
    let effect = command.execute(&account, &mut run, Event::Replied(Ok(Reply::Messages(messages))));
    assert_eq!(log(effect), "No attachment found for message b!");
    let effect = command.execute(&account, &mut run, printed());
    assert_eq!(log(effect), "1 attachment(s) found for message a!");
}
