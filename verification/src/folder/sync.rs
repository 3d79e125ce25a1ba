//! Which folders take part in a synchronisation.

use crate::text::{names_of, text_of};
use vstd::prelude::*;

verus! {

/// A set of folder names. Each name is held once, in the order in which it
/// first came in.
#[derive(Clone, Debug)]
pub struct FolderSet {
    names: Vec<String>,
}

impl View for FolderSet {
    type V = Set<Seq<char>>;

    closed spec fn view(&self) -> Set<Seq<char>> {
        names_of(self.names@).to_set()
    }
}

impl FolderSet {
    /// No name is held twice.
    pub closed spec fn wf(&self) -> bool {
        names_of(self.names@).no_duplicates()
    }

    /// The names in the order in which they first came in.
    pub closed spec fn order(&self) -> Seq<Seq<char>> {
        names_of(self.names@)
    }

    /// The order lists the members of the set, each once.
    pub proof fn order_lists_the_set(&self)
        requires
            self.wf(),
        ensures
            self.order().no_duplicates(),
            self.order().to_set() == self@,
            self.order().len() == self@.len(),
            self@.finite(),
    {
        self.order().unique_seq_to_set();
        vstd::seq_lib::seq_to_set_is_finite(self.order());
    }

    /// The empty set.
    pub fn new() -> (out: FolderSet)
        ensures
            out.wf(),
            out@ == Set::<Seq<char>>::empty(),
            out.order() == Seq::<Seq<char>>::empty(),
    {
        let out = FolderSet { names: Vec::new() };
        assert(out@ =~= Set::<Seq<char>>::empty());
        assert(out.order() =~= Seq::<Seq<char>>::empty());
        out
    }

    /// Whether `name` is a member.
    pub fn contains(&self, name: &String) -> (yes: bool)
        ensures
            yes == self@.contains(name@),
    {
        let mut i: usize = 0;
        while i < self.names.len()
            invariant
                i <= self.names.len(),
                forall|j: int| 0 <= j < i ==> names_of(self.names@)[j] != name@,
            decreases self.names.len() - i,
        {
            if self.names[i] == *name {
                assert(names_of(self.names@)[i as int] == name@);
                return true;
            }
            i = i + 1;
        }
        false
    }

    /// Adds `name`; says whether it was new.
    pub fn insert(&mut self, name: String) -> (added: bool)
        requires
            old(self).wf(),
        ensures
            final(self).wf(),
            final(self)@ == old(self)@.insert(name@),
            added == !old(self)@.contains(name@),
            final(self).order() == if added {
                old(self).order().push(name@)
            } else {
                old(self).order()
            },
    {
        if self.contains(&name) {
            assert(self@ =~= old(self)@.insert(name@));
            false
        } else {
            let ghost before = names_of(self.names@);
            self.names.push(name);
            assert(names_of(self.names@) =~= before.push(name@));
            assert(self@ =~= old(self)@.insert(name@)) by {
                assert forall|x: Seq<char>| self@.contains(x) <==> old(self)@.insert(
                    name@,
                ).contains(x) by {
                    if before.contains(x) {
                        let i = choose|i: int| 0 <= i < before.len() && before[i] == x;
                        assert(before.push(name@)[i] == x);
                    }
                    if x == name@ {
                        assert(before.push(name@)[before.len() as int] == x);
                    }
                }
            }
            true
        }
    }

    /// The set of the names given, whatever their order and however often
    /// each occurs.
    pub fn from_names(names: &Vec<String>) -> (out: FolderSet)
        ensures
            out.wf(),
            out@ == names_of(names@).to_set(),
    {
        let mut out = FolderSet::new();
        let mut i: usize = 0;
        assert(names_of(names@).take(0).to_set() =~= Set::<Seq<char>>::empty());
        while i < names.len()
            invariant
                i <= names.len(),
                out.wf(),
                out@ == names_of(names@).take(i as int).to_set(),
            decreases names.len() - i,
        {
            let ghost upto = names_of(names@).take(i as int);
            let ghost next = names_of(names@).take(i as int + 1);
            out.insert(names[i].clone());
            assert(next =~= upto.push(names@[i as int]@));
            assert(next.to_set() =~= upto.to_set().insert(names@[i as int]@)) by {
                assert forall|x: Seq<char>| next.to_set().contains(x) <==> upto.to_set().insert(
                    names@[i as int]@,
                ).contains(x) by {
                    if upto.contains(x) {
                        let j = choose|j: int| 0 <= j < upto.len() && upto[j] == x;
                        assert(next[j] == x);
                    }
                    if x == names@[i as int]@ {
                        assert(next[i as int] == x);
                    }
                }
            }
            i = i + 1;
        }
        assert(names_of(names@).take(i as int) =~= names_of(names@));
        out
    }

    /// The set that holds `name` alone.
    pub fn single(name: String) -> (out: FolderSet)
        ensures
            out.wf(),
            out@ == set![name@],
    {
        let mut out = FolderSet::new();
        out.insert(name);
        assert(out@ =~= set![name@]);
        out
    }

    /// Number of members.
    pub fn len(&self) -> (count: usize)
        requires
            self.wf(),
        ensures
            count == self@.len(),
    {
        proof {
            self.order_lists_the_set();
        }
        self.names.len()
    }

    /// Whether the set has no member.
    pub fn is_empty(&self) -> (yes: bool)
        ensures
            yes == (self@ == Set::<Seq<char>>::empty()),
    {
        if self.names.len() == 0 {
            assert(self@ =~= Set::<Seq<char>>::empty());
            true
        } else {
            assert(names_of(self.names@)[0] == self.names@[0]@);
            assert(self@.contains(self.names@[0]@));
            false
        }
    }

    /// The members in the order in which they first came in.
    pub fn names(&self) -> (out: &Vec<String>)
        ensures
            names_of(out@) == self.order(),
    {
        &self.names
    }
}

/// The scope of one synchronisation.
#[derive(Clone, Debug)]
pub enum FolderSyncStrategy {
    /// Every folder.
    All,
    /// These folders only.
    Include(FolderSet),
    /// Every folder but these.
    Exclude(FolderSet),
}

/// A strategy as a value of sets.
pub enum Scope {
    All,
    Include(Set<Seq<char>>),
    Exclude(Set<Seq<char>>),
}

impl View for FolderSyncStrategy {
    type V = Scope;

    open spec fn view(&self) -> Scope {
        match self {
            FolderSyncStrategy::All => Scope::All,
            FolderSyncStrategy::Include(folders) => Scope::Include(folders@),
            FolderSyncStrategy::Exclude(folders) => Scope::Exclude(folders@),
        }
    }
}

impl FolderSyncStrategy {
    /// The folder set inside is well formed.
    pub open spec fn wf(&self) -> bool {
        match self {
            FolderSyncStrategy::All => true,
            FolderSyncStrategy::Include(folders) => folders.wf(),
            FolderSyncStrategy::Exclude(folders) => folders.wf(),
        }
    }

    /// Whether the folder `name` takes part under this strategy.
    pub open spec fn covers(scope: Scope, name: Seq<char>) -> bool {
        match scope {
            Scope::All => true,
            Scope::Include(folders) => folders.contains(name),
            Scope::Exclude(folders) => !folders.contains(name),
        }
    }

    /// Whether the folder `name` takes part under this strategy.
    pub fn matches_folder(&self, name: &String) -> (yes: bool)
        ensures
            yes == Self::covers(self@, name@),
    {
        match self {
            FolderSyncStrategy::All => true,
            FolderSyncStrategy::Include(folders) => folders.contains(name),
            FolderSyncStrategy::Exclude(folders) => !folders.contains(name),
        }
    }
}

/// The scope that the four input forms stand for, by fixed precedence: a
/// single source folder, then the folders to take, then the folders to
/// leave out, then the flag for all folders. `None` where none is present.
pub open spec fn resolved_scope(
    source: Option<Seq<char>>,
    included: Set<Seq<char>>,
    excluded: Set<Seq<char>>,
    all: bool,
) -> Option<Scope> {
    if source is Some {
        Some(Scope::Include(set![source->Some_0]))
    } else if included != Set::<Seq<char>>::empty() {
        Some(Scope::Include(included))
    } else if excluded != Set::<Seq<char>>::empty() {
        Some(Scope::Exclude(excluded))
    } else if all {
        Some(Scope::All)
    } else {
        None
    }
}

/// The view of an optional strategy.
pub open spec fn scope_of(strategy: Option<FolderSyncStrategy>) -> Option<Scope> {
    match strategy {
        Some(s) => Some(s@),
        None => None,
    }
}

/// Turns the raw inputs of a synchronisation into one scope. Inputs that
/// name several forms at once are not refused: the first form in the order
/// of precedence decides.
pub fn resolve(source: Option<String>, included: FolderSet, excluded: FolderSet, all: bool) -> (out:
    Option<FolderSyncStrategy>)
    requires
        included.wf(),
        excluded.wf(),
    ensures
        scope_of(out) == resolved_scope(text_of(source), included@, excluded@, all),
        out matches Some(s) ==> s.wf(),
        out is None <==> source is None && included@ == Set::<Seq<char>>::empty() && excluded@
            == Set::<Seq<char>>::empty() && !all,
{
    match source {
        Some(folder) => Some(FolderSyncStrategy::Include(FolderSet::single(folder))),
        None => {
            if !included.is_empty() {
                Some(FolderSyncStrategy::Include(included))
            } else if !excluded.is_empty() {
                Some(FolderSyncStrategy::Exclude(excluded))
            } else if all {
                Some(FolderSyncStrategy::All)
            } else {
                None
            }
        },
    }
}

/// The strategy in force: the one resolved from the inputs, else the
/// account's configured default.
pub fn or_default(resolved: Option<FolderSyncStrategy>, default: FolderSyncStrategy) -> (out:
    FolderSyncStrategy)
    ensures
        out == match resolved {
            Some(s) => s,
            None => default,
        },
{
    match resolved {
        Some(s) => s,
        None => default,
    }
}

} // verus!
