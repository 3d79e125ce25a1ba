//! Attachments of a message and the file names they are saved under.

use vstd::prelude::*;

pub mod download;

verus! {

/// A file carried by a message.
#[derive(Clone, Debug)]
pub struct Attachment {
    /// The file name that the message declares for it, if any.
    pub filename: Option<String>,
    /// Its content.
    pub body: Vec<u8>,
}

/// An attachment as a plain value: the declared file name and the content.
pub type AttachmentView = (Option<Seq<char>>, Seq<u8>);

impl View for Attachment {
    type V = AttachmentView;

    open spec fn view(&self) -> AttachmentView {
        (
            match self.filename {
                Some(name) => Some(name@),
                None => None,
            },
            self.body@,
        )
    }
}

/// The attachments held by a vector, in order.
pub open spec fn attachments_of(items: Seq<Attachment>) -> Seq<AttachmentView> {
    items.map_values(|item: Attachment| item@)
}

/// Whether `c` is a digit of lower-case hexadecimal notation.
pub open spec fn is_lower_hex(c: char) -> bool {
    ('0' <= c && c <= '9') || ('a' <= c && c <= 'f')
}

/// The hyphenated form of a random identifier: 36 characters, hyphens after
/// the 8th, 12th, 16th and 20th digit, lower-case hexadecimal digits
/// elsewhere, the first digit of the third group being the version, 4.
pub open spec fn is_identifier_text(text: Seq<char>) -> bool {
    &&& text.len() == 36
    &&& forall|i: int|
        0 <= i < 36 ==> if i == 8 || i == 13 || i == 18 || i == 23 {
            #[trigger] text[i] == '-'
        } else {
            is_lower_hex(text[i])
        }
    &&& text[14] == '4'
}

/// Draws a random identifier with `uuid::Uuid::new_v4` and writes it out
/// with its `to_string`.
///
/// Not proved: that the text has the hyphenated lower-case form of a
/// version 4 identifier. Nothing is claimed about which identifier comes
/// out: two calls may or may not differ.
///
/// The call panics where the system hands out no random bytes; it offers
/// no form that reports this instead, and no condition on the arguments
/// can leave it out.
#[verifier::external_body]
pub(crate) fn random_identifier() -> (out: String)
    ensures
        is_identifier_text(out@),
{
    uuid::Uuid::new_v4().to_string()
}

/// How `std::path::Path` writes a path with `{:?}`: in double quotes, with
/// the characters that need it escaped.
pub uninterp spec fn debug_form(path: Seq<char>) -> Seq<char>;

/// Formats a path with `{:?}`, as `std::path::Path` does.
///
/// Not proved: that the result is `debug_form` of the path.
#[verifier::external_body]
fn path_debug(path: &str) -> (out: String)
    ensures
        out@ == debug_form(path@),
{
    format!("{:?}", std::path::Path::new(path))
}

/// The path between quotes, as it stands in progress lines and errors.
pub fn quoted(path: &str) -> (out: String)
    ensures
        out@ == debug_form(path@),
{
    path_debug(path)
}

/// The file name of an attachment that declares `declared`, where `drawn`
/// is the identifier drawn for it: the declared name, else the identifier.
pub open spec fn chosen_name(declared: Option<Seq<char>>, drawn: Seq<char>) -> Seq<char> {
    match declared {
        Some(given) => given,
        None => drawn,
    }
}

/// The file name to save an attachment under, given the identifier drawn
/// for it: the name it declares, else exactly that identifier.
pub fn name_with(attachment: &Attachment, drawn: String) -> (out: String)
    ensures
        out@ == chosen_name(attachment@.0, drawn@),
{
    match &attachment.filename {
        Some(given) => given.clone(),
        None => drawn,
    }
}

/// A generated name never equals a declared name of another length, nor
/// one that holds a character other than hyphens and lower-case
/// hexadecimal digits.
pub proof fn generated_name_differs(generated: Seq<char>, declared: Seq<char>)
    requires
        is_identifier_text(generated),
        declared.len() != 36 || exists|i: int|
            0 <= i < declared.len() && !is_lower_hex(#[trigger] declared[i]) && declared[i] != '-',
    ensures
        generated != declared,
{
    if declared.len() == 36 {
        let i = choose|i: int|
            0 <= i < declared.len() && !is_lower_hex(#[trigger] declared[i]) && declared[i] != '-';
        assert(generated[i] == '-' || is_lower_hex(generated[i]));
    }
}

/// Within one run, an attachment without a declared name never shares its
/// file name with another attachment, as long as the identifiers drawn for
/// such attachments differ from one another and from the declared names.
///
/// `declared` holds what the attachments of the run declare, `drawn` the
/// identifier drawn for each.
pub proof fn fresh_draws_give_distinct_names(
    declared: Seq<Option<Seq<char>>>,
    drawn: Seq<Seq<char>>,
)
    requires
        drawn.len() == declared.len(),
        forall|i: int, j: int|
            0 <= i < j < declared.len() && declared[i] is None && declared[j] is None
                ==> #[trigger] drawn[i] != #[trigger] drawn[j],
        forall|i: int, j: int|
            0 <= i < declared.len() && 0 <= j < declared.len() && declared[i] is None
                && declared[j] is Some ==> #[trigger] drawn[i] != (#[trigger] declared[j])->Some_0,
    ensures
        forall|i: int, j: int|
            #![trigger declared[i], declared[j]]
            0 <= i < declared.len() && 0 <= j < declared.len() && i != j && declared[i] is None
                ==> chosen_name(declared[i], drawn[i]) != chosen_name(declared[j], drawn[j]),
{
    assert forall|i: int, j: int|
        #![trigger declared[i], declared[j]]
        0 <= i < declared.len() && 0 <= j < declared.len() && i != j
            && declared[i] is None implies chosen_name(declared[i], drawn[i]) != chosen_name(
        declared[j],
        drawn[j],
    ) by {
        if declared[j] is None {
            if i < j {
                assert(drawn[i] != drawn[j]);
            } else {
                assert(drawn[j] != drawn[i]);
            }
        } else {
            assert(drawn[i] != declared[j]->Some_0);
        }
    }
}

} // verus!
