//! Downloading the attachments of a list of messages.
//!
//! The messages are fetched in one batch and paired with the requested ids
//! by position. Each message is opened in turn; each of its attachments is
//! given a file name, a destination path and is written there. The first
//! failure ends the command; what was written before stays.

use crate::attachment::{
    attachments_of, chosen_name, debug_form, is_identifier_text, name_with, quoted,
    random_identifier, Attachment, AttachmentView,
};
use crate::backend::{is_first_override, resolve, Account, Capability, Override, Source};
use crate::command::{
    CommandError, Effect, EffectView, ErrorView, Event, Reply, Request, RequestView,
};
use crate::text::{decimal, decimal_digits, decimal_digits_shape, names_of};
use vstd::pervasive::unreached;
use vstd::prelude::*;

verus! {

/// What was read out of a message as a plain value: its attachments, or
/// what the parser said where it could not be read.
pub type ParsedView = Result<Seq<AttachmentView>, Seq<char>>;

/// The folder to read from, if one is named.
#[derive(Clone, Debug)]
pub struct FolderNameOptionalFlag {
    pub name: Option<String>,
}

/// The ids of the messages to act on, in the order given.
#[derive(Clone, Debug)]
pub struct EnvelopeIdsArgs {
    pub ids: Vec<String>,
}

/// The account to use, if one is named.
#[derive(Clone, Debug)]
pub struct AccountNameFlag {
    pub name: Option<String>,
}

/// Download all attachments found in the given messages to the downloads
/// directory of the account.
#[derive(Clone, Debug)]
pub struct AttachmentDownloadCommand {
    pub folder: FolderNameOptionalFlag,
    pub envelopes: EnvelopeIdsArgs,
    pub account: AccountNameFlag,
}

/// Where a download stands.
#[derive(Clone, Copy, Debug, PartialEq, Eq, Structural)]
pub enum Phase {
    /// Nothing was asked for yet.
    Idle,
    /// The messages were asked for.
    Fetching,
    /// The line that tells what a message holds was printed.
    Announcing,
    /// The destination path of an attachment was asked for.
    Resolving,
    /// The line that names the destination path was printed.
    Logging,
    /// The attachment was handed over for writing.
    Writing,
    /// The final report was printed.
    Reporting,
    /// The command ended.
    Finished,
}

/// The run of one download command.
#[derive(Debug)]
pub struct Download {
    phase: Phase,
    source: Option<Source>,
    ids: Vec<String>,
    messages: Vec<Result<Vec<Attachment>, String>>,
    found: Vec<usize>,
    current: Vec<Attachment>,
    written: usize,
    name: String,
    path: String,
    emails_count: usize,
    attachments_count: usize,
}

/// A run as a plain value.
pub struct DownloadView {
    pub phase: Phase,
    /// Where the messages are fetched from, once resolved.
    pub source: Option<Source>,
    /// The requested ids.
    pub ids: Seq<Seq<char>>,
    /// The fetched messages that are not opened yet, in the order of their
    /// ids: what was read out of each.
    pub waiting: Seq<ParsedView>,
    /// For each message opened so far, the number of its attachments. The
    /// message opened next belongs to the id at the position that follows.
    pub found: Seq<nat>,
    /// The attachments of the message opened last.
    pub current: Seq<AttachmentView>,
    /// How many of them were written.
    pub written: nat,
    /// File name of the attachment in progress.
    pub name: Seq<char>,
    /// Destination path of the attachment in progress.
    pub path: Seq<char>,
    /// Messages opened so far that hold at least one attachment.
    pub emails_count: nat,
    /// Attachments written so far.
    pub attachments_count: nat,
}

/// The counts held by a vector, in order.
pub open spec fn counts_of(counts: Seq<usize>) -> Seq<nat> {
    counts.map_values(|count: usize| count as nat)
}

/// The sum of the counts.
pub open spec fn sum(counts: Seq<nat>) -> nat
    decreases counts.len(),
{
    if counts.len() == 0 {
        0
    } else {
        sum(counts.drop_last()) + counts.last()
    }
}

/// How many of the counts are not zero.
pub open spec fn positives(counts: Seq<nat>) -> nat
    decreases counts.len(),
{
    if counts.len() == 0 {
        0
    } else {
        positives(counts.drop_last()) + if counts.last() > 0 {
            1nat
        } else {
            0nat
        }
    }
}

/// The line for a message without attachments.
pub open spec fn none_found_line(id: Seq<char>) -> Seq<char> {
    "No attachment found for message "@ + id + "!"@
}

/// The line for a message with `count` attachments.
pub open spec fn found_line(count: nat, id: Seq<char>) -> Seq<char> {
    decimal_digits(count) + " attachment(s) found for message "@ + id + "!"@
}

/// The line that names the destination of an attachment.
pub open spec fn downloading_line(path: Seq<char>) -> Seq<char> {
    downloading_quoted_line(debug_form(path))
}

/// The report for several attachments.
pub open spec fn plural_text(attachments: nat, messages: nat) -> Seq<char> {
    "Downloaded "@ + decimal_digits(attachments) + " attachment(s) from "@ + decimal_digits(
        messages,
    ) + " messages(s)!"@
}

/// The final report: one of three forms, by the number of attachments
/// written.
pub open spec fn summary_text(attachments: nat, messages: nat) -> Seq<char> {
    if attachments == 0 {
        "no attachment found"@
    } else if attachments == 1 {
        "Downloaded 1 attachment!"@
    } else {
        plural_text(attachments, messages)
    }
}

/// What holds of every run, whatever its phase.
pub open spec fn wf_view(v: DownloadView) -> bool {
    &&& v.found.len() + v.waiting.len() <= v.ids.len()
    &&& v.written <= v.current.len()
    &&& v.current.len() == if v.found.len() == 0 {
        0
    } else {
        v.found.last()
    }
    &&& v.emails_count == positives(v.found)
    &&& v.attachments_count + v.current.len() - v.written == sum(v.found)
    &&& (v.phase == Phase::Idle || v.phase == Phase::Fetching ==> v.waiting.len() == 0
        && v.found.len() == 0)
    &&& (v.phase == Phase::Resolving || v.phase == Phase::Logging || v.phase == Phase::Writing
        ==> v.written < v.current.len())
}

/// What was read out of a message is a list of `count` attachments.
pub open spec fn holds(parsed: ParsedView, count: nat) -> bool {
    parsed matches Ok(items) && items.len() == count
}

/// The run ends with this error.
pub open spec fn stop(pre: DownloadView, error: ErrorView) -> (DownloadView, EffectView) {
    (DownloadView { phase: Phase::Finished, ..pre }, EffectView::Fail(error))
}

/// The first waiting message is opened: the run ends where it could not
/// be read, with what the parser said of it; else its attachments become
/// the current ones, their number is recorded, and the line that tells
/// what the message holds is printed under the id at the message's
/// position.
pub open spec fn opened(pre: DownloadView) -> (DownloadView, EffectView) {
    let id = pre.ids[pre.found.len() as int];
    match pre.waiting[0] {
        Err(reason) => stop(
            DownloadView { waiting: pre.waiting.drop_first(), ..pre },
            ErrorView::Malformed(reason),
        ),
        Ok(items) => (
            DownloadView {
                phase: Phase::Announcing,
                waiting: pre.waiting.drop_first(),
                found: pre.found.push(items.len()),
                current: items,
                written: 0,
                emails_count: if items.len() > 0 {
                    pre.emails_count + 1
                } else {
                    pre.emails_count
                },
                ..pre
            },
            EffectView::Log(
                if items.len() == 0 {
                    none_found_line(id)
                } else {
                    found_line(items.len(), id)
                },
            ),
        ),
    }
}

/// What was read out of a message, as a plain value.
pub open spec fn parsed_of(parsed: Result<Vec<Attachment>, String>) -> ParsedView {
    match parsed {
        Ok(items) => Ok(attachments_of(items@)),
        Err(reason) => Err(reason@),
    }
}

/// What was read out of the messages of a batch, in order.
pub open spec fn parsed_all(messages: Seq<Result<Vec<Attachment>, String>>) -> Seq<ParsedView> {
    messages.map_values(|message: Result<Vec<Attachment>, String>| parsed_of(message))
}

/// The number of attachments of each message, in order; none for a message
/// that could not be read.
pub open spec fn counts_ahead(waiting: Seq<ParsedView>) -> Seq<nat> {
    waiting.map_values(
        |message: ParsedView|
            match message {
                Ok(items) => items.len(),
                Err(_) => 0nat,
            },
    )
}

/// The messages that wait once `event` is taken in: those of the batch
/// where the event brings one, else those that waited before.
pub open spec fn waiting_with(pre: DownloadView, event: Event) -> Seq<ParsedView> {
    match (pre.phase, event) {
        (Phase::Fetching, Event::Replied(Ok(Reply::Messages(messages)))) => parsed_all(messages@),
        _ => pre.waiting,
    }
}

/// The line that names a destination, given the path between quotes.
pub open spec fn downloading_quoted_line(quoted: Seq<char>) -> Seq<char> {
    "Downloading "@ + quoted + "…"@
}

/// The next thing to do once nothing is pending: the next attachment of
/// the message opened last, else the next message, else the final report.
/// An attachment that is started gets the name that it declares, else the
/// identifier `drawn`.
pub open spec fn advance(pre: DownloadView, drawn: Seq<char>) -> (DownloadView, EffectView) {
    if pre.written < pre.current.len() {
        let name = chosen_name(pre.current[pre.written as int].0, drawn);
        (DownloadView { phase: Phase::Resolving, name, ..pre }, EffectView::Resolve(name))
    } else if pre.waiting.len() > 0 {
        opened(pre)
    } else {
        (
            DownloadView { phase: Phase::Reporting, ..pre },
            EffectView::Out(summary_text(pre.attachments_count, pre.emails_count)),
        )
    }
}

/// Whether the step on `event` starts an attachment that declares no name,
/// and so needs an identifier drawn for it.
pub open spec fn draws(pre: DownloadView, event: Event) -> bool {
    match (pre.phase, event) {
        (Phase::Announcing, Event::Printed(Ok(_))) => pre.written < pre.current.len()
            && pre.current[pre.written as int].0 is None,
        (Phase::Writing, Event::Written(Ok(_))) => pre.attachments_count < usize::MAX
            && pre.written + 1 < pre.current.len() && pre.current[pre.written as int + 1].0 is None,
        _ => false,
    }
}

/// The step of a download: the state after `event` and the effect to carry
/// out next. `folder` and `ids` are what the command asks for; `drawn` is
/// the identifier drawn for the step, which names the attachment that the
/// step starts where that one declares no name.
pub open spec fn next(
    folder: Seq<char>,
    ids: Seq<Seq<char>>,
    pre: DownloadView,
    event: Event,
    drawn: Seq<char>,
) -> (DownloadView, EffectView) {
    match (pre.phase, event) {
        (Phase::Idle, Event::Start) => (
            DownloadView { phase: Phase::Fetching, source: Some(Source::Context), ids, ..pre },
            EffectView::Invoke(RequestView::GetMessages { folder, ids }),
        ),
        (Phase::Fetching, Event::Replied(Ok(Reply::Messages(messages)))) => advance(
            DownloadView { waiting: parsed_all(messages@), ..pre },
            drawn,
        ),
        (Phase::Fetching, Event::Replied(Ok(_))) => stop(pre, ErrorView::Unexpected),
        (Phase::Fetching, Event::Replied(Err(reason))) => stop(pre, ErrorView::Backend(reason@)),
        (Phase::Announcing, Event::Printed(Ok(_))) => advance(pre, drawn),
        (Phase::Announcing, Event::Printed(Err(reason))) => stop(
            pre,
            ErrorView::Printer(reason@),
        ),
        (Phase::Resolving, Event::Resolved(Ok(path))) => (
            DownloadView { phase: Phase::Logging, path: path@, ..pre },
            EffectView::Log(downloading_line(path@)),
        ),
        (Phase::Resolving, Event::Resolved(Err(reason))) => stop(pre, ErrorView::Path(reason@)),
        (Phase::Logging, Event::Printed(Ok(_))) => (
            DownloadView { phase: Phase::Writing, ..pre },
            EffectView::Write { path: pre.path, body: pre.current[pre.written as int].1 },
        ),
        (Phase::Logging, Event::Printed(Err(reason))) => stop(pre, ErrorView::Printer(reason@)),
        (Phase::Writing, Event::Written(Ok(_))) => if pre.attachments_count >= usize::MAX {
            stop(pre, ErrorView::Overflow)
        } else {
            advance(
                DownloadView {
                    attachments_count: pre.attachments_count + 1,
                    written: pre.written + 1,
                    ..pre
                },
                drawn,
            )
        },
        (Phase::Writing, Event::Written(Err(reason))) => stop(
            pre,
            ErrorView::Write { path: pre.path, reason: reason@ },
        ),
        (Phase::Reporting, Event::Printed(Ok(_))) => (
            DownloadView { phase: Phase::Finished, ..pre },
            EffectView::Done,
        ),
        (Phase::Reporting, Event::Printed(Err(reason))) => stop(
            pre,
            ErrorView::Printer(reason@),
        ),
        _ => stop(pre, ErrorView::Unexpected),
    }
}

/// The line for a message without attachments.
pub fn none_found(id: &str) -> (out: String)
    ensures
        out@ == none_found_line(id@),
{
    let mut out = String::from_str("No attachment found for message ");
    out.append(id);
    out.append("!");
    out
}

/// The line for a message with `count` attachments.
pub fn found(count: usize, id: &str) -> (out: String)
    ensures
        out@ == found_line(count as nat, id@),
{
    let mut out = decimal(count);
    out.append(" attachment(s) found for message ");
    out.append(id);
    out.append("!");
    out
}

/// The line that names a destination, given the path between quotes.
pub fn downloading_quoted(quoted: &str) -> (out: String)
    ensures
        out@ == downloading_quoted_line(quoted@),
{
    let mut out = String::from_str("Downloading ");
    out.append(quoted);
    out.append("…");
    out
}

/// The line that names the destination of an attachment.
pub fn downloading(path: &str) -> (out: String)
    ensures
        out@ == downloading_line(path@),
{
    downloading_quoted(quoted(path).as_str())
}

/// The final report for `attachments` attachments written out of
/// `messages` messages.
pub fn summary(attachments: usize, messages: usize) -> (out: String)
    ensures
        out@ == summary_text(attachments as nat, messages as nat),
{
    if attachments == 0 {
        String::from_str("no attachment found")
    } else if attachments == 1 {
        String::from_str("Downloaded 1 attachment!")
    } else {
        let mut out = String::from_str("Downloaded ");
        out.append(decimal(attachments).as_str());
        out.append(" attachment(s) from ");
        out.append(decimal(messages).as_str());
        out.append(" messages(s)!");
        out
    }
}

/// The three forms of the final report never coincide: the report says
/// that nothing was found exactly when no attachment was written, names a
/// single attachment exactly when one was written, and has the plural form
/// with both counts exactly when more were written.
pub proof fn summary_tells_the_count(attachments: nat, messages: nat)
    ensures
        summary_text(attachments, messages) == "no attachment found"@ <==> attachments == 0,
        summary_text(attachments, messages) == "Downloaded 1 attachment!"@ <==> attachments == 1,
        summary_text(attachments, messages) == plural_text(attachments, messages) <==> attachments
            > 1,
{
    reveal_strlit("no attachment found");
    reveal_strlit("Downloaded 1 attachment!");
    reveal_strlit("Downloaded ");
    reveal_strlit(" attachment(s) from ");
    let none = "no attachment found"@;
    let one = "Downloaded 1 attachment!"@;
    let digits = decimal_digits(attachments);
    let plural = plural_text(attachments, messages);
    let head = "Downloaded "@ + digits;
    let tail = " attachment(s) from "@ + decimal_digits(messages) + " messages(s)!"@;
    decimal_digits_shape(attachments);
    assert(plural =~= head + tail);
    assert(none[0] == 'n');
    assert(one[0] == 'D');
    assert(plural[0] == 'D');
    assert(plural[11] == digits[0]);
    assert(one[11] == '1');
    if digits.len() == 1 {
        assert(plural[12] == tail[0]);
        assert(plural[23] == tail[11]);
        assert(tail[11] == '(');
        assert(one[23] == '!');
        if attachments > 1 {
            assert(digits[0] != '1');
        }
    } else {
        assert(plural[12] == digits[1]);
        assert(one[12] == ' ');
    }
}

proof fn positives_at_most_len(counts: Seq<nat>)
    ensures
        positives(counts) <= counts.len(),
    decreases counts.len(),
{
    if counts.len() > 0 {
        positives_at_most_len(counts.drop_last());
    }
}

/// Where a step needs no identifier, the one handed to it plays no part.
pub proof fn unused_draw_is_ignored(
    folder: Seq<char>,
    ids: Seq<Seq<char>>,
    pre: DownloadView,
    event: Event,
    first: Seq<char>,
    second: Seq<char>,
)
    requires
        wf_view(pre),
        !draws(pre, event),
    ensures
        next(folder, ids, pre, event, first) == next(folder, ids, pre, event, second),
{
}

/// An identifier is drawn afresh for each attachment without a name, and
/// it is the name under which the destination is asked for: two steps that
/// start such attachments with different identifiers ask for different
/// names, whatever the runs and whatever else they hold.
pub proof fn different_draws_give_different_names(
    folder: Seq<char>,
    ids: Seq<Seq<char>>,
    first: DownloadView,
    first_event: Event,
    first_drawn: Seq<char>,
    second: DownloadView,
    second_event: Event,
    second_drawn: Seq<char>,
)
    requires
        wf_view(first),
        wf_view(second),
        draws(first, first_event),
        draws(second, second_event),
        first_drawn != second_drawn,
    ensures
        next(folder, ids, first, first_event, first_drawn).1 == EffectView::Resolve(first_drawn),
        next(folder, ids, second, second_event, second_drawn).1 == EffectView::Resolve(
            second_drawn,
        ),
        next(folder, ids, first, first_event, first_drawn).1 != next(
            folder,
            ids,
            second,
            second_event,
            second_drawn,
        ).1,
{
}

/// The final report counts every message: when it is printed, no fetched
/// message is left unopened, the report's first number is the total of
/// the attachments recorded and its second the number of messages for
/// which at least one is recorded.
pub proof fn report_counts_every_message(
    folder: Seq<char>,
    ids: Seq<Seq<char>>,
    pre: DownloadView,
    event: Event,
    drawn: Seq<char>,
)
    requires
        wf_view(pre),
    ensures
        next(folder, ids, pre, event, drawn).1 matches EffectView::Out(report) ==> {
            let post = next(folder, ids, pre, event, drawn).0;
            &&& post.waiting.len() == 0
            &&& report == summary_text(sum(post.found), positives(post.found))
        },
{
}

/// A message is opened only after the ones before it, and what is recorded
/// for it is the number of attachments read out of it.
pub proof fn opening_records_the_attachments(
    folder: Seq<char>,
    ids: Seq<Seq<char>>,
    pre: DownloadView,
    event: Event,
    drawn: Seq<char>,
)
    requires
        wf_view(pre),
    ensures
        ({
            let post = next(folder, ids, pre, event, drawn).0;
            let waiting = waiting_with(pre, event);
            post.found.len() > pre.found.len() ==> {
                &&& waiting.len() > 0
                &&& waiting[0] == Ok::<Seq<AttachmentView>, Seq<char>>(post.current)
                &&& post.found == pre.found.push(post.current.len())
                &&& post.waiting == waiting.drop_first()
            }
        }),
{
}

/// The counts follow the messages: as long as the run does not fail, the
/// counts recorded so far, followed by the numbers of attachments of the
/// messages still waiting, are the numbers of attachments of the fetched
/// messages in their order.
pub proof fn counts_follow_the_messages(
    folder: Seq<char>,
    ids: Seq<Seq<char>>,
    pre: DownloadView,
    event: Event,
    drawn: Seq<char>,
)
    requires
        wf_view(pre),
    ensures
        ({
            let (post, effect) = next(folder, ids, pre, event, drawn);
            !(effect is Fail) ==> post.found + counts_ahead(post.waiting) == pre.found
                + counts_ahead(waiting_with(pre, event))
        }),
{
    let (post, effect) = next(folder, ids, pre, event, drawn);
    let waiting = waiting_with(pre, event);
    if !(effect is Fail) {
        if post.found.len() > pre.found.len() {
            assert(post.waiting == waiting.drop_first());
            assert(post.found == pre.found.push(waiting[0]->Ok_0.len()));
            assert(post.found + counts_ahead(post.waiting) =~= pre.found + counts_ahead(waiting));
        } else {
            assert(post.found + counts_ahead(post.waiting) =~= pre.found + counts_ahead(waiting));
        }
    }
}

/// The backend is called once, at the start, for the messages that the
/// command asks for, after the capability to get messages was bound to the
/// synchronisation-aware context.
pub proof fn fetch_follows_resolution(
    folder: Seq<char>,
    ids: Seq<Seq<char>>,
    pre: DownloadView,
    event: Event,
    drawn: Seq<char>,
)
    ensures
        next(folder, ids, pre, event, drawn).1 is Invoke ==> {
            &&& pre.phase == Phase::Idle
            &&& event is Start
            &&& next(folder, ids, pre, event, drawn).0.source == Some(Source::Context)
            &&& next(folder, ids, pre, event, drawn).1 == EffectView::Invoke(
                RequestView::GetMessages { folder, ids },
            )
        },
{
}

/// What was done stays done: no step lowers a counter or forgets an opened
/// message, and a step that fails ends the run without opening another.
pub proof fn progress_is_kept(
    folder: Seq<char>,
    ids: Seq<Seq<char>>,
    pre: DownloadView,
    event: Event,
    drawn: Seq<char>,
)
    requires
        wf_view(pre),
    ensures
        ({
            let (post, effect) = next(folder, ids, pre, event, drawn);
            &&& post.attachments_count >= pre.attachments_count
            &&& post.emails_count >= pre.emails_count
            &&& post.found.len() >= pre.found.len()
            &&& effect is Fail ==> {
                &&& post.phase == Phase::Finished
                &&& post.emails_count == pre.emails_count
                &&& post.found == pre.found
            }
        }),
{
}

/// Nothing follows the end: once the command has ended, every event is
/// refused and the run stays as it is.
pub proof fn nothing_follows_the_end(
    folder: Seq<char>,
    ids: Seq<Seq<char>>,
    pre: DownloadView,
    event: Event,
    drawn: Seq<char>,
)
    requires
        pre.phase == Phase::Finished,
    ensures
        next(folder, ids, pre, event, drawn) == (pre, EffectView::Fail(ErrorView::Unexpected)),
{
}

impl View for Download {
    type V = DownloadView;

    closed spec fn view(&self) -> DownloadView {
        DownloadView {
            phase: self.phase,
            source: self.source,
            ids: names_of(self.ids@),
            waiting: parsed_all(self.messages@),
            found: counts_of(self.found@),
            current: attachments_of(self.current@),
            written: self.written as nat,
            name: self.name@,
            path: self.path@,
            emails_count: self.emails_count as nat,
            attachments_count: self.attachments_count as nat,
        }
    }
}

fn copy_names(names: &Vec<String>) -> (out: Vec<String>)
    ensures
        names_of(out@) == names_of(names@),
{
    let mut out: Vec<String> = Vec::new();
    let mut i: usize = 0;
    while i < names.len()
        invariant
            i <= names.len(),
            out.len() == i,
            forall|j: int| 0 <= j < i ==> out@[j]@ == names@[j]@,
        decreases names.len() - i,
    {
        out.push(names[i].clone());
        i = i + 1;
    }
    assert(names_of(out@) =~= names_of(names@));
    out
}

fn copy_bytes(bytes: &Vec<u8>) -> (out: Vec<u8>)
    ensures
        out@ == bytes@,
{
    let mut out: Vec<u8> = Vec::new();
    let mut i: usize = 0;
    while i < bytes.len()
        invariant
            i <= bytes.len(),
            out@ == bytes@.take(i as int),
        decreases bytes.len() - i,
    {
        out.push(bytes[i]);
        assert(out@ =~= bytes@.take(i as int + 1));
        i = i + 1;
    }
    assert(bytes@.take(i as int) =~= bytes@);
    out
}

impl Download {
    /// The invariant of a run.
    pub open spec fn wf(&self) -> bool {
        wf_view(self@)
    }

    /// A run in which nothing has happened yet.
    pub fn new() -> (out: Download)
        ensures
            out.wf(),
            out@ == (DownloadView {
                phase: Phase::Idle,
                source: None,
                ids: Seq::empty(),
                waiting: Seq::empty(),
                found: Seq::empty(),
                current: Seq::empty(),
                written: 0,
                name: Seq::empty(),
                path: Seq::empty(),
                emails_count: 0,
                attachments_count: 0,
            }),
    {
        let out = Download {
            phase: Phase::Idle,
            source: None,
            ids: Vec::new(),
            messages: Vec::new(),
            found: Vec::new(),
            current: Vec::new(),
            written: 0,
            name: String::new(),
            path: String::new(),
            emails_count: 0,
            attachments_count: 0,
        };
        assert(out@.ids =~= Seq::empty());
        assert(out@.waiting =~= Seq::empty());
        assert(out@.found =~= Seq::empty());
        assert(out@.current =~= Seq::empty());
        out
    }

    /// Where the run stands.
    pub fn phase(&self) -> (out: Phase)
        ensures
            out == self@.phase,
    {
        self.phase
    }

    /// Where the messages are fetched from, once resolved.
    pub fn source(&self) -> (out: Option<Source>)
        ensures
            out == self@.source,
    {
        self.source
    }

    /// Messages opened so far that hold at least one attachment.
    pub fn emails_count(&self) -> (out: usize)
        ensures
            out == self@.emails_count,
    {
        self.emails_count
    }

    /// Attachments written so far.
    pub fn attachments_count(&self) -> (out: usize)
        ensures
            out == self@.attachments_count,
    {
        self.attachments_count
    }

    fn fail(&mut self, error: CommandError) -> (effect: Effect)
        ensures
            (final(self)@, effect@) == stop(old(self)@, error@),
    {
        self.phase = Phase::Finished;
        Effect::Fail(error)
    }

    fn open(&mut self) -> (effect: Effect)
        requires
            old(self).wf(),
            old(self)@.written == old(self)@.current.len(),
            old(self)@.waiting.len() > 0,
        ensures
            final(self).wf(),
            (final(self)@, effect@) == opened(old(self)@),
    {
        let ghost pre = self@;
        let k = self.found.len();
        let total = self.ids.len();
        assert(pre.ids.len() == total);
        assert(pre.ids[k as int] == self.ids@[k as int]@);
        assert(pre.waiting[0] == parsed_of(self.messages@[0]));
        assert(self.emails_count <= k) by {
            positives_at_most_len(pre.found);
        }
        let items = match self.messages.remove(0) {
            Ok(items) => items,
            Err(reason) => {
                assert(self@.waiting =~= pre.waiting.drop_first());
                return self.fail(CommandError::Malformed(reason));
            },
        };
        let count = items.len();
        let line = if count == 0 {
            none_found(self.ids[k].as_str())
        } else {
            self.emails_count = self.emails_count + 1;
            found(count, self.ids[k].as_str())
        };
        self.found.push(count);
        self.current = items;
        self.written = 0;
        self.phase = Phase::Announcing;
        proof {
            assert(self@.found =~= pre.found.push(count as nat));
            assert(self@.found.drop_last() =~= pre.found);
            assert(self@.waiting =~= pre.waiting.drop_first());
        }
        Effect::Log(line)
    }

    /// Whether the step on `event` starts an attachment that declares no
    /// name, and so needs an identifier drawn for it.
    pub fn draws(&self, event: &Event) -> (yes: bool)
        requires
            self.wf(),
        ensures
            yes == draws(self@, *event),
    {
        match (self.phase, event) {
            (Phase::Announcing, Event::Printed(Ok(_))) => {
                if self.written < self.current.len() {
                    assert(self@.current[self.written as int] == self.current@[self.written
                        as int]@);
                    self.current[self.written].filename.is_none()
                } else {
                    false
                }
            },
            (Phase::Writing, Event::Written(Ok(_))) => {
                if self.attachments_count < usize::MAX && self.written + 1 < self.current.len() {
                    assert(self@.current[self.written as int + 1] == self.current@[self.written as int + 1]@);
                    self.current[self.written + 1].filename.is_none()
                } else {
                    false
                }
            },
            _ => false,
        }
    }

    fn advance(&mut self, drawn: String) -> (effect: Effect)
        requires
            old(self).wf(),
        ensures
            final(self).wf(),
            (final(self)@, effect@) == advance(old(self)@, drawn@),
    {
        if self.written < self.current.len() {
            assert(self@.current[self.written as int] == self.current@[self.written as int]@);
            let name = name_with(&self.current[self.written], drawn);
            self.name = name.clone();
            self.phase = Phase::Resolving;
            Effect::Resolve(name)
        } else if self.messages.len() > 0 {
            self.open()
        } else {
            self.phase = Phase::Reporting;
            Effect::Out(summary(self.attachments_count, self.emails_count))
        }
    }
}

impl AttachmentDownloadCommand {
    /// The folder that the command reads from: the one it names, else the
    /// default folder of the account.
    pub open spec fn folder_name(&self, account: Account) -> Seq<char> {
        match self.folder.name {
            Some(name) => name@,
            None => account.default_folder@,
        }
    }

    /// Takes the download one step further: from the event that the driver
    /// reports to the effect that it carries out next.
    ///
    /// At the start the backend is resolved for the capability to get
    /// messages alone, forced to the synchronisation-aware context, and the
    /// messages are asked for in one batch. The batch must not hold more
    /// messages than ids were asked for.
    pub fn execute(&self, account: &Account, run: &mut Download, event: Event) -> (effect: Effect)
        requires
            old(run).wf(),
            old(run)@.phase == Phase::Fetching ==> (event matches Event::Replied(
                Ok(Reply::Messages(messages)),
            ) ==> messages.len() <= old(run)@.ids.len()),
        ensures
            final(run).wf(),
            (final(run)@, effect@) == next(
                self.folder_name(*account),
                names_of(self.envelopes.ids@),
                old(run)@,
                event,
                final(run)@.name,
            ),
            draws(old(run)@, event) ==> is_identifier_text(final(run)@.name),
    {
        let ghost pre = run@;
        let ghost reported = event;
        let drawn = if run.draws(&event) {
            random_identifier()
        } else {
            String::new()
        };
        let effect = self.step(account, run, event, drawn);
        proof {
            if !draws(pre, reported) {
                unused_draw_is_ignored(
                    self.folder_name(*account),
                    names_of(self.envelopes.ids@),
                    pre,
                    reported,
                    drawn@,
                    run@.name,
                );
            }
        }
        effect
    }

    /// The step of the download for the identifier `drawn`: what `execute`
    /// does once the draw is made. The identifier names the attachment that
    /// the step starts where that one declares no name, and plays no part
    /// otherwise.
    pub fn step(
        &self,
        account: &Account,
        run: &mut Download,
        event: Event,
        drawn: String,
    ) -> (effect: Effect)
        requires
            old(run).wf(),
            old(run)@.phase == Phase::Fetching ==> (event matches Event::Replied(
                Ok(Reply::Messages(messages)),
            ) ==> messages.len() <= old(run)@.ids.len()),
        ensures
            final(run).wf(),
            (final(run)@, effect@) == next(
                self.folder_name(*account),
                names_of(self.envelopes.ids@),
                old(run)@,
                event,
                drawn@,
            ),
    {
        let ghost pre = run@;
        match (run.phase, event) {
            (Phase::Idle, Event::Start) => {
                let required = vec![Capability::GetMessages];
                let overrides = vec![
                    Override { capability: Capability::GetMessages, source: Source::Context },
                ];
                assert(overrides@[0].capability == Capability::GetMessages);
                assert(is_first_override(overrides@, Capability::GetMessages, 0));
                assert(required@[0] == Capability::GetMessages);
                match resolve(account, &required, &overrides) {
                    // The override serves the one capability asked for.
                    Err(_) => unreached(),
                    Ok(backend) => {
                        assert(required@.contains(Capability::GetMessages));
                        let source = backend.source(Capability::GetMessages);
                        assert(source == Some(Source::Context));
                        let folder = match &self.folder.name {
                            Some(name) => name.clone(),
                            None => account.default_folder.clone(),
                        };
                        run.source = source;
                        run.ids = copy_names(&self.envelopes.ids);
                        run.phase = Phase::Fetching;
                        Effect::Invoke(
                            Request::GetMessages { folder, ids: copy_names(&self.envelopes.ids) },
                        )
                    },
                }
            },
            (Phase::Fetching, Event::Replied(Ok(Reply::Messages(messages)))) => {
                run.messages = messages;
                run.phase = Phase::Announcing;
                run.advance(drawn)
            },
            (Phase::Fetching, Event::Replied(Ok(_))) => run.fail(CommandError::Unexpected),
            (Phase::Fetching, Event::Replied(Err(reason))) => run.fail(
                CommandError::Backend(reason),
            ),
            (Phase::Announcing, Event::Printed(Ok(_))) => run.advance(drawn),
            (Phase::Announcing, Event::Printed(Err(reason))) => run.fail(
                CommandError::Printer(reason),
            ),
            (Phase::Resolving, Event::Resolved(Ok(path))) => {
                let line = downloading(path.as_str());
                run.path = path;
                run.phase = Phase::Logging;
                Effect::Log(line)
            },
            (Phase::Resolving, Event::Resolved(Err(reason))) => run.fail(
                CommandError::Path(reason),
            ),
            (Phase::Logging, Event::Printed(Ok(_))) => {
                let body = copy_bytes(&run.current[run.written].body);
                assert(pre.current[pre.written as int] == run.current@[run.written as int]@);
                run.phase = Phase::Writing;
                Effect::Write { path: run.path.clone(), body }
            },
            (Phase::Logging, Event::Printed(Err(reason))) => run.fail(
                CommandError::Printer(reason),
            ),
            (Phase::Writing, Event::Written(Ok(_))) => {
                if run.attachments_count == usize::MAX {
                    run.fail(CommandError::Overflow)
                } else {
                    run.attachments_count = run.attachments_count + 1;
                    run.written = run.written + 1;
                    run.phase = Phase::Announcing;
                    run.advance(drawn)
                }
            },
            (Phase::Writing, Event::Written(Err(reason))) => {
                let path = run.path.clone();
                run.fail(CommandError::Write { path, reason })
            },
            (Phase::Reporting, Event::Printed(Ok(_))) => {
                run.phase = Phase::Finished;
                Effect::Done
            },
            (Phase::Reporting, Event::Printed(Err(reason))) => run.fail(
                CommandError::Printer(reason),
            ),
            _ => run.fail(CommandError::Unexpected),
        }
    }
}

} // verus!
