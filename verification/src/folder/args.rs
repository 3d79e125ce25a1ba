//! The arguments that select folders, and the table width.

use crate::cli::{flag_set, number_given, text_given, texts_given, Arg, ArgAction, ArgView, Matches};
use crate::text::{names_of, text_of};
use vstd::prelude::*;

verus! {

/// The argument that names a single source folder.
pub open spec fn source_arg_view() -> ArgView {
    ArgView {
        id: "source"@,
        help: Some("Set the source folder"@),
        long_help: None,
        long: Some("folder"@),
        short: Some('f'),
        global: true,
        value_name: Some("SOURCE"@),
        action: ArgAction::Store,
    }
}

/// The flag for all folders, with the help text given.
pub open spec fn all_arg_view(help: Seq<char>) -> ArgView {
    ArgView {
        id: "all"@,
        help: Some(help),
        long_help: None,
        long: Some("all-folders"@),
        short: Some('A'),
        global: false,
        value_name: None,
        action: ArgAction::SetTrue,
    }
}

/// The argument for the folders to take, with the help text given.
pub open spec fn include_arg_view(help: Seq<char>) -> ArgView {
    ArgView {
        id: "only"@,
        help: Some(help),
        long_help: None,
        long: Some("only-folder"@),
        short: Some('F'),
        global: false,
        value_name: Some("FOLDER"@),
        action: ArgAction::Append,
    }
}

/// The argument for the folders to leave out, with the help text given.
pub open spec fn exclude_arg_view(help: Seq<char>) -> ArgView {
    ArgView {
        id: "except"@,
        help: Some(help),
        long_help: None,
        long: Some("except-folder"@),
        short: Some('x'),
        global: false,
        value_name: Some("FOLDER"@),
        action: ArgAction::Append,
    }
}

/// The argument for the maximum width of a table.
pub open spec fn max_width_view() -> ArgView {
    ArgView {
        id: "max-width"@,
        help: Some("Set a maximum width for the table"@),
        long_help: None,
        long: Some("max-width"@),
        short: Some('w'),
        global: false,
        value_name: Some("INT"@),
        action: ArgAction::Store,
    }
}

/// Declares the argument that names a single source folder.
pub fn source_arg() -> (out: Arg)
    ensures
        out@ == source_arg_view(),
{
    Arg::new("source").help("Set the source folder").long("folder").short('f').global(
        true,
    ).value_name("SOURCE")
}

/// Reads the single source folder.
pub fn parse_source_arg(m: &Matches) -> (out: Option<String>)
    ensures
        text_of(out) == text_given(m.texts@, source_arg_view().id),
{
    m.get_one("source")
}

/// Declares the flag for all folders.
pub fn all_arg(help: &str) -> (out: Arg)
    ensures
        out@ == all_arg_view(help@),
{
    Arg::new("all").help(help).long("all-folders").short('A').action(ArgAction::SetTrue)
}

/// Reads the flag for all folders.
pub fn parse_all_arg(m: &Matches) -> (out: bool)
    ensures
        out == flag_set(m.flags@, all_arg_view(Seq::empty()).id),
{
    m.get_flag("all")
}

/// Declares the argument for the folders to take.
pub fn include_arg(help: &str) -> (out: Arg)
    ensures
        out@ == include_arg_view(help@),
{
    Arg::new("only").help(help).long("only-folder").short('F').value_name("FOLDER").action(
        ArgAction::Append,
    )
}

/// Reads the folders to take.
pub fn parse_include_arg(m: &Matches) -> (out: Vec<String>)
    ensures
        names_of(out@) == texts_given(m.texts@, include_arg_view(Seq::empty()).id),
{
    m.get_many("only")
}

/// Declares the argument for the folders to leave out.
pub fn exclude_arg(help: &str) -> (out: Arg)
    ensures
        out@ == exclude_arg_view(help@),
{
    Arg::new("except").help(help).long("except-folder").short('x').value_name("FOLDER").action(
        ArgAction::Append,
    )
}

/// Reads the folders to leave out.
pub fn parse_exclude_arg(m: &Matches) -> (out: Vec<String>)
    ensures
        names_of(out@) == texts_given(m.texts@, exclude_arg_view(Seq::empty()).id),
{
    m.get_many("except")
}

/// Declares the argument for the maximum width of a table.
pub fn max_width() -> (out: Arg)
    ensures
        out@ == max_width_view(),
{
    Arg::new("max-width").help("Set a maximum width for the table").long("max-width").short(
        'w',
    ).value_name("INT")
}

/// Reads the maximum width of a table.
pub fn parse_max_width(m: &Matches) -> (out: Option<usize>)
    ensures
        out == number_given(m.numbers@, max_width_view().id),
{
    m.get_number("max-width")
}

} // verus!
