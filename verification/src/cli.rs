//! The command line as plain values: what is declared, and what was parsed.

use crate::text::{names_of, text_of};
use vstd::prelude::*;

verus! {

/// What an argument does when it occurs.
#[derive(Clone, Copy, Debug, PartialEq, Eq, Structural)]
pub enum ArgAction {
    /// Takes one value; a later occurrence replaces it.
    Store,
    /// Takes no value; its presence means `true`.
    SetTrue,
    /// Takes values; each occurrence adds to them.
    Append,
}

/// The declaration of an argument.
#[derive(Clone, Debug)]
pub struct Arg {
    pub id: String,
    pub help: Option<String>,
    pub long_help: Option<String>,
    pub long: Option<String>,
    pub short: Option<char>,
    pub global: bool,
    pub value_name: Option<String>,
    pub action: ArgAction,
}

/// An argument declaration as a plain value.
pub struct ArgView {
    pub id: Seq<char>,
    pub help: Option<Seq<char>>,
    pub long_help: Option<Seq<char>>,
    pub long: Option<Seq<char>>,
    pub short: Option<char>,
    pub global: bool,
    pub value_name: Option<Seq<char>>,
    pub action: ArgAction,
}

impl View for Arg {
    type V = ArgView;

    open spec fn view(&self) -> ArgView {
        ArgView {
            id: self.id@,
            help: text_of(self.help),
            long_help: text_of(self.long_help),
            long: text_of(self.long),
            short: self.short,
            global: self.global,
            value_name: text_of(self.value_name),
            action: self.action,
        }
    }
}

impl Arg {
    /// An argument with this id that takes one value and has nothing else
    /// set.
    pub fn new(id: &str) -> (out: Arg)
        ensures
            out@ == (ArgView {
                id: id@,
                help: None,
                long_help: None,
                long: None,
                short: None,
                global: false,
                value_name: None,
                action: ArgAction::Store,
            }),
    {
        Arg {
            id: String::from_str(id),
            help: None,
            long_help: None,
            long: None,
            short: None,
            global: false,
            value_name: None,
            action: ArgAction::Store,
        }
    }

    /// Sets the short help.
    pub fn help(self, text: &str) -> (out: Arg)
        ensures
            out@ == (ArgView { help: Some(text@), ..self@ }),
    {
        Arg { help: Some(String::from_str(text)), ..self }
    }

    /// Sets the long help.
    pub fn long_help(self, text: &str) -> (out: Arg)
        ensures
            out@ == (ArgView { long_help: Some(text@), ..self@ }),
    {
        Arg { long_help: Some(String::from_str(text)), ..self }
    }

    /// Sets the long flag.
    pub fn long(self, name: &str) -> (out: Arg)
        ensures
            out@ == (ArgView { long: Some(name@), ..self@ }),
    {
        Arg { long: Some(String::from_str(name)), ..self }
    }

    /// Sets the short flag.
    pub fn short(self, letter: char) -> (out: Arg)
        ensures
            out@ == (ArgView { short: Some(letter), ..self@ }),
    {
        Arg { short: Some(letter), ..self }
    }

    /// Says whether the argument is also taken by the subcommands.
    pub fn global(self, yes: bool) -> (out: Arg)
        ensures
            out@ == (ArgView { global: yes, ..self@ }),
    {
        Arg { global: yes, ..self }
    }

    /// Sets the placeholder of the value.
    pub fn value_name(self, name: &str) -> (out: Arg)
        ensures
            out@ == (ArgView { value_name: Some(name@), ..self@ }),
    {
        Arg { value_name: Some(String::from_str(name)), ..self }
    }

    /// Sets what the argument does when it occurs.
    pub fn action(self, action: ArgAction) -> (out: Arg)
        ensures
            out@ == (ArgView { action, ..self@ }),
    {
        Arg { action, ..self }
    }
}

/// The argument declarations held by a vector, in order.
pub open spec fn args_of(args: Seq<Arg>) -> Seq<ArgView> {
    args.map_values(|arg: Arg| arg@)
}

/// The declaration of a command without subcommands of its own.
#[derive(Clone, Debug)]
pub struct Subcommand {
    pub name: String,
    pub about: String,
    pub aliases: Vec<String>,
    pub args: Vec<Arg>,
}

/// A subcommand declaration as a plain value.
pub struct SubcommandView {
    pub name: Seq<char>,
    pub about: Seq<char>,
    pub aliases: Seq<Seq<char>>,
    pub args: Seq<ArgView>,
}

impl View for Subcommand {
    type V = SubcommandView;

    open spec fn view(&self) -> SubcommandView {
        SubcommandView {
            name: self.name@,
            about: self.about@,
            aliases: names_of(self.aliases@),
            args: args_of(self.args@),
        }
    }
}

impl Subcommand {
    /// A subcommand with this name and description and nothing else.
    pub fn new(name: &str, about: &str) -> (out: Subcommand)
        ensures
            out@ == (SubcommandView {
                name: name@,
                about: about@,
                aliases: Seq::empty(),
                args: Seq::empty(),
            }),
    {
        let out = Subcommand {
            name: String::from_str(name),
            about: String::from_str(about),
            aliases: Vec::new(),
            args: Vec::new(),
        };
        assert(out@.aliases =~= Seq::empty());
        assert(out@.args =~= Seq::empty());
        out
    }

    /// Adds an argument after those already declared.
    pub fn arg(self, arg: Arg) -> (out: Subcommand)
        ensures
            out@ == (SubcommandView { args: self@.args.push(arg@), ..self@ }),
    {
        let mut out = self;
        out.args.push(arg);
        assert(out@.args =~= self@.args.push(arg@));
        out
    }

    /// Adds another name for the subcommand after those already declared.
    pub fn alias(self, name: &str) -> (out: Subcommand)
        ensures
            out@ == (SubcommandView { aliases: self@.aliases.push(name@), ..self@ }),
    {
        let mut out = self;
        out.aliases.push(String::from_str(name));
        assert(out@.aliases =~= self@.aliases.push(name@));
        out
    }
}

/// The subcommand declarations held by a vector, in order.
pub open spec fn subcommands_of(subcommands: Seq<Subcommand>) -> Seq<SubcommandView> {
    subcommands.map_values(|subcommand: Subcommand| subcommand@)
}

/// The declaration of a command and its subcommands.
#[derive(Clone, Debug)]
pub struct Command {
    pub name: String,
    pub about: String,
    pub subcommands: Vec<Subcommand>,
}

/// A command declaration as a plain value.
pub struct CommandView {
    pub name: Seq<char>,
    pub about: Seq<char>,
    pub subcommands: Seq<SubcommandView>,
}

impl View for Command {
    type V = CommandView;

    open spec fn view(&self) -> CommandView {
        CommandView {
            name: self.name@,
            about: self.about@,
            subcommands: subcommands_of(self.subcommands@),
        }
    }
}

impl Command {
    /// A command with this name and description and no subcommand.
    pub fn new(name: &str, about: &str) -> (out: Command)
        ensures
            out@ == (CommandView { name: name@, about: about@, subcommands: Seq::empty() }),
    {
        let out = Command {
            name: String::from_str(name),
            about: String::from_str(about),
            subcommands: Vec::new(),
        };
        assert(out@.subcommands =~= Seq::empty());
        out
    }

    /// Adds a subcommand after those already declared.
    pub fn subcommand(self, subcommand: Subcommand) -> (out: Command)
        ensures
            out@ == (CommandView { subcommands: self@.subcommands.push(subcommand@), ..self@ }),
    {
        let mut out = self;
        out.subcommands.push(subcommand);
        assert(out@.subcommands =~= self@.subcommands.push(subcommand@));
        out
    }
}

/// What was parsed for one command: its flags, the texts and the numbers
/// given for its arguments, and the subcommand that was used, if any.
#[derive(Debug)]
pub struct Matches {
    pub flags: Vec<(String, bool)>,
    pub texts: Vec<(String, Vec<String>)>,
    pub numbers: Vec<(String, usize)>,
    pub subcommand: Option<(String, Box<Matches>)>,
}

/// Whether the flag `id` is set: some entry for it says so.
pub open spec fn flag_set(flags: Seq<(String, bool)>, id: Seq<char>) -> bool {
    exists|i: int| 0 <= i < flags.len() && (#[trigger] flags[i]).0@ == id && flags[i].1
}

/// The texts given for `id`: those of the first entry for it, none where
/// there is no entry.
pub open spec fn texts_given(texts: Seq<(String, Vec<String>)>, id: Seq<char>) -> Seq<Seq<char>>
    decreases texts.len(),
{
    if texts.len() == 0 {
        Seq::empty()
    } else if texts[0].0@ == id {
        names_of(texts[0].1@)
    } else {
        texts_given(texts.drop_first(), id)
    }
}

/// The first text given for `id`, if any.
pub open spec fn text_given(texts: Seq<(String, Vec<String>)>, id: Seq<char>) -> Option<Seq<char>> {
    if texts_given(texts, id).len() == 0 {
        None
    } else {
        Some(texts_given(texts, id)[0])
    }
}

/// The number given for `id`: that of the first entry for it.
pub open spec fn number_given(numbers: Seq<(String, usize)>, id: Seq<char>) -> Option<usize>
    decreases numbers.len(),
{
    if numbers.len() == 0 {
        None
    } else if numbers[0].0@ == id {
        Some(numbers[0].1)
    } else {
        number_given(numbers.drop_first(), id)
    }
}

/// What was parsed for the subcommand `name`, if that is the one used.
pub open spec fn subcommand_used(m: Matches, name: Seq<char>) -> Option<Matches> {
    match m.subcommand {
        Some((used, inner)) => if used@ == name {
            Some(*inner)
        } else {
            None
        },
        None => None,
    }
}

impl Matches {
    /// Matches in which nothing was given.
    pub fn new() -> (out: Matches)
        ensures
            out.flags@.len() == 0,
            out.texts@.len() == 0,
            out.numbers@.len() == 0,
            out.subcommand is None,
    {
        Matches { flags: Vec::new(), texts: Vec::new(), numbers: Vec::new(), subcommand: None }
    }

    /// What was parsed for the subcommand `name`, if that is the one used.
    pub fn subcommand_matches(&self, name: &str) -> (out: Option<&Matches>)
        ensures
            out is Some <==> subcommand_used(*self, name@) is Some,
            out matches Some(inner) ==> Some(*inner) == subcommand_used(*self, name@),
    {
        match &self.subcommand {
            Some((used, inner)) => {
                let name = String::from_str(name);
                if *used == name {
                    Some(&**inner)
                } else {
                    None
                }
            },
            None => None,
        }
    }

    /// Whether the flag `id` is set.
    pub fn get_flag(&self, id: &str) -> (out: bool)
        ensures
            out == flag_set(self.flags@, id@),
    {
        let wanted = String::from_str(id);
        let mut i: usize = 0;
        while i < self.flags.len()
            invariant
                wanted@ == id@,
                i <= self.flags.len(),
                forall|j: int|
                    0 <= j < i ==> !((#[trigger] self.flags@[j]).0@ == id@ && self.flags@[j].1),
            decreases self.flags.len() - i,
        {
            if self.flags[i].0 == wanted && self.flags[i].1 {
                return true;
            }
            i = i + 1;
        }
        false
    }

    /// The texts given for `id`.
    pub fn get_many(&self, id: &str) -> (out: Vec<String>)
        ensures
            names_of(out@) == texts_given(self.texts@, id@),
    {
        let wanted = String::from_str(id);
        let mut i: usize = 0;
        assert(self.texts@.skip(0) =~= self.texts@);
        while i < self.texts.len()
            invariant
                wanted@ == id@,
                i <= self.texts.len(),
                texts_given(self.texts@, id@) == texts_given(self.texts@.skip(i as int), id@),
            decreases self.texts.len() - i,
        {
            let ghost rest = self.texts@.skip(i as int);
            assert(rest[0] == self.texts@[i as int]);
            assert(rest.drop_first() =~= self.texts@.skip(i as int + 1));
            if self.texts[i].0 == wanted {
                let found = &self.texts[i].1;
                let mut out: Vec<String> = Vec::new();
                let mut k: usize = 0;
                while k < found.len()
                    invariant
                        k <= found.len(),
                        out.len() == k,
                        forall|j: int| 0 <= j < k ==> out@[j]@ == found@[j]@,
                    decreases found.len() - k,
                {
                    out.push(found[k].clone());
                    k = k + 1;
                }
                assert(names_of(out@) =~= names_of(found@));
                return out;
            }
            i = i + 1;
        }
        let out: Vec<String> = Vec::new();
        assert(names_of(out@) =~= Seq::<Seq<char>>::empty());
        out
    }

    /// The first text given for `id`, if any.
    pub fn get_one(&self, id: &str) -> (out: Option<String>)
        ensures
            text_of(out) == text_given(self.texts@, id@),
    {
        let mut all = self.get_many(id);
        if all.len() == 0 {
            None
        } else {
            assert(names_of(all@)[0] == all@[0]@);
            Some(all.swap_remove(0))
        }
    }

    /// The number given for `id`, if any.
    pub fn get_number(&self, id: &str) -> (out: Option<usize>)
        ensures
            out == number_given(self.numbers@, id@),
    {
        let wanted = String::from_str(id);
        let mut i: usize = 0;
        assert(self.numbers@.skip(0) =~= self.numbers@);
        while i < self.numbers.len()
            invariant
                wanted@ == id@,
                i <= self.numbers.len(),
                number_given(self.numbers@, id@) == number_given(
                    self.numbers@.skip(i as int),
                    id@,
                ),
            decreases self.numbers.len() - i,
        {
            let ghost rest = self.numbers@.skip(i as int);
            assert(rest[0] == self.numbers@[i as int]);
            assert(rest.drop_first() =~= self.numbers@.skip(i as int + 1));
            if self.numbers[i].0 == wanted {
                return Some(self.numbers[i].1);
            }
            i = i + 1;
        }
        None
    }
}

} // verus!
