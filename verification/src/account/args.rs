//! The arguments of the account commands.

use crate::cli::{
    flag_set, number_given, subcommand_used, text_given, texts_given, Arg, ArgAction, ArgView,
    Command, CommandView, Matches, SubcommandView, Subcommand,
};
use crate::folder::args::{
    all_arg, all_arg_view, exclude_arg, exclude_arg_view, include_arg, include_arg_view,
    max_width, max_width_view, parse_all_arg, parse_exclude_arg, parse_include_arg,
    parse_max_width, parse_source_arg, source_arg_view,
};
use crate::folder::sync::{resolve, resolved_scope, FolderSet, FolderSyncStrategy, Scope};
use crate::text::text_of;
use vstd::prelude::*;

verus! {

/// Represents the account commands.
#[derive(Debug)]
pub enum Cmd {
    /// Represents the list accounts command, with the maximum table width.
    List(Option<usize>),
    /// Represents the sync account command, with the folders that take part
    /// and whether the changes are only shown.
    Sync(Option<FolderSyncStrategy>, bool),
    /// Configure the current selected account, resetting it first or not.
    Configure(bool),
}

/// An account command as a plain value.
pub enum CmdView {
    List(Option<usize>),
    Sync(Option<Scope>, bool),
    Configure(bool),
}

impl View for Cmd {
    type V = CmdView;

    open spec fn view(&self) -> CmdView {
        match self {
            Cmd::List(max_width) => CmdView::List(*max_width),
            Cmd::Sync(Some(strategy), dry_run) => CmdView::Sync(Some(strategy@), *dry_run),
            Cmd::Sync(None, dry_run) => CmdView::Sync(None, *dry_run),
            Cmd::Configure(reset) => CmdView::Configure(*reset),
        }
    }
}

/// The view of an optional command.
pub open spec fn cmd_of(cmd: Option<Cmd>) -> Option<CmdView> {
    match cmd {
        Some(c) => Some(c@),
        None => None,
    }
}

/// The argument that selects an account.
pub open spec fn arg_view() -> ArgView {
    ArgView {
        id: "account"@,
        help: Some("Set the account"@),
        long_help: None,
        long: Some("account"@),
        short: Some('a'),
        global: true,
        value_name: Some("STRING"@),
        action: ArgAction::Store,
    }
}

/// The flag that keeps a synchronisation from applying its changes.
pub open spec fn dry_run_view() -> ArgView {
    ArgView {
        id: "dry-run"@,
        help: Some("Do not apply changes of the synchronization"@),
        long_help: Some(
            "Do not apply changes of the synchronization.
Changes can be visualized with the RUST_LOG=trace environment variable."@,
        ),
        long: Some("dry-run"@),
        short: Some('d'),
        global: false,
        value_name: None,
        action: ArgAction::SetTrue,
    }
}

/// The flag that resets the configuration.
pub open spec fn reset_flag_view() -> ArgView {
    ArgView {
        id: "reset"@,
        help: Some("Reset the configuration"@),
        long_help: None,
        long: Some("reset"@),
        short: Some('r'),
        global: false,
        value_name: None,
        action: ArgAction::SetTrue,
    }
}

/// The accounts command: list, sync and configure, in this order.
pub open spec fn subcmd_view() -> CommandView {
    CommandView {
        name: "accounts"@,
        about: "Manage accounts"@,
        subcommands: seq![
            SubcommandView {
                name: "list"@,
                about: "List all accounts from the config file"@,
                aliases: Seq::empty(),
                args: seq![max_width_view()],
            },
            SubcommandView {
                name: "sync"@,
                about: "Synchronize the given account locally"@,
                aliases: Seq::empty(),
                args: seq![
                    all_arg_view("Synchronize all folders"@),
                    include_arg_view("Synchronize only the given folders"@),
                    exclude_arg_view("Synchronize all folders except the given ones"@),
                    dry_run_view(),
                ],
            },
            SubcommandView {
                name: "configure"@,
                about: "Configure the current selected account"@,
                aliases: seq!["config"@, "conf"@, "cfg"@],
                args: seq![reset_flag_view()],
            },
        ],
    }
}

/// The command that the parsed arguments stand for.
///
/// Without the accounts command there is none. Under it, sync comes with
/// the scope resolved from the folder arguments and with the dry-run flag,
/// list with the maximum table width, configure with the reset flag; with
/// no subcommand the accounts are listed.
pub open spec fn matched(m: Matches) -> Option<CmdView> {
    match subcommand_used(m, "accounts"@) {
        None => None,
        Some(accounts) => Some(
            match subcommand_used(accounts, "sync"@) {
                Some(sync) => CmdView::Sync(
                    resolved_scope(
                        text_given(sync.texts@, source_arg_view().id),
                        texts_given(sync.texts@, include_arg_view(Seq::empty()).id).to_set(),
                        texts_given(sync.texts@, exclude_arg_view(Seq::empty()).id).to_set(),
                        flag_set(sync.flags@, all_arg_view(Seq::empty()).id),
                    ),
                    flag_set(sync.flags@, dry_run_view().id),
                ),
                None => match subcommand_used(accounts, "list"@) {
                    Some(list) => CmdView::List(number_given(list.numbers@, max_width_view().id)),
                    None => match subcommand_used(accounts, "configure"@) {
                        Some(configure) => CmdView::Configure(
                            flag_set(configure.flags@, reset_flag_view().id),
                        ),
                        None => CmdView::List(None),
                    },
                },
            },
        ),
    }
}

/// Represents the account command matcher.
pub fn matches(m: &Matches) -> (out: Option<Cmd>)
    ensures
        cmd_of(out) == matched(*m),
        out matches Some(Cmd::Sync(Some(strategy), _)) ==> strategy.wf(),
{
    match m.subcommand_matches("accounts") {
        None => None,
        Some(m) => match m.subcommand_matches("sync") {
            Some(m) => {
                let dry_run = parse_dry_run_arg(m);
                let included = FolderSet::from_names(&parse_include_arg(m));
                let excluded = FolderSet::from_names(&parse_exclude_arg(m));
                let folders_strategy = resolve(
                    parse_source_arg(m),
                    included,
                    excluded,
                    parse_all_arg(m),
                );
                Some(Cmd::Sync(folders_strategy, dry_run))
            },
            None => match m.subcommand_matches("list") {
                Some(m) => Some(Cmd::List(parse_max_width(m))),
                None => match m.subcommand_matches("configure") {
                    Some(m) => Some(Cmd::Configure(parse_reset_flag(m))),
                    None => Some(Cmd::List(None)),
                },
            },
        },
    }
}

/// Represents the account subcommand.
pub fn subcmd() -> (out: Command)
    ensures
        out@ == subcmd_view(),
{
    let list = Subcommand::new("list", "List all accounts from the config file").arg(max_width());
    let sync = Subcommand::new("sync", "Synchronize the given account locally").arg(
        all_arg("Synchronize all folders"),
    ).arg(include_arg("Synchronize only the given folders")).arg(
        exclude_arg("Synchronize all folders except the given ones"),
    ).arg(dry_run());
    let configure = Subcommand::new("configure", "Configure the current selected account").alias(
        "config",
    ).alias("conf").alias("cfg").arg(reset_flag());
    assert(list@.args =~= seq![max_width_view()]);
    assert(sync@.args =~= seq![
        all_arg_view("Synchronize all folders"@),
        include_arg_view("Synchronize only the given folders"@),
        exclude_arg_view("Synchronize all folders except the given ones"@),
        dry_run_view(),
    ]);
    assert(configure@.aliases =~= seq!["config"@, "conf"@, "cfg"@]);
    assert(configure@.args =~= seq![reset_flag_view()]);
    let out = Command::new("accounts", "Manage accounts").subcommand(list).subcommand(
        sync,
    ).subcommand(configure);
    assert(out@.subcommands =~= subcmd_view().subcommands);
    out
}

/// Represents the user account name argument. This argument allows the
/// user to select a different account than the default one.
pub fn arg() -> (out: Arg)
    ensures
        out@ == arg_view(),
{
    Arg::new("account").help("Set the account").long("account").short('a').global(
        true,
    ).value_name("STRING")
}

/// Represents the user account name argument parser.
pub fn parse_arg(m: &Matches) -> (out: Option<String>)
    ensures
        text_of(out) == text_given(m.texts@, arg_view().id),
{
    m.get_one("account")
}

/// Represents the user account sync dry run flag. This flag allows the
/// user to see the changes of a sync without applying them.
pub fn dry_run() -> (out: Arg)
    ensures
        out@ == dry_run_view(),
{
    Arg::new("dry-run").help("Do not apply changes of the synchronization").long_help(
        "Do not apply changes of the synchronization.
Changes can be visualized with the RUST_LOG=trace environment variable.",
    ).short('d').long("dry-run").action(ArgAction::SetTrue)
}

/// Represents the user account sync dry run flag parser.
pub fn parse_dry_run_arg(m: &Matches) -> (out: bool)
    ensures
        out == flag_set(m.flags@, dry_run_view().id),
{
    m.get_flag("dry-run")
}

/// Represents the flag that resets the configuration.
pub fn reset_flag() -> (out: Arg)
    ensures
        out@ == reset_flag_view(),
{
    Arg::new("reset").help("Reset the configuration").short('r').long("reset").action(
        ArgAction::SetTrue,
    )
}

/// Represents the reset flag parser.
pub fn parse_reset_flag(m: &Matches) -> (out: bool)
    ensures
        out == flag_set(m.flags@, reset_flag_view().id),
{
    m.get_flag("reset")
}

} // verus!
