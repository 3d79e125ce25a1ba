//! Capability resolution: which source serves each operation a command needs.

use vstd::prelude::*;

verus! {

/// One family of backend operations.
#[derive(Clone, Copy, Debug, PartialEq, Eq, Structural)]
pub enum Capability {
    ListFolders,
    AddFolder,
    DeleteFolder,
    ExpungeFolder,
    GetEnvelope,
    ListEnvelopes,
    SearchEnvelopes,
    AddMessage,
    GetMessages,
    PreviewMessages,
    CopyMessages,
    MoveMessages,
    DeleteMessages,
    AddFlags,
    SetFlags,
    RemoveFlags,
    CloneHandle,
}

/// What the capability lets a command do, in words.
pub open spec fn capability_name(capability: Capability) -> Seq<char> {
    match capability {
        Capability::ListFolders => "list folders"@,
        Capability::AddFolder => "add a folder"@,
        Capability::DeleteFolder => "delete a folder"@,
        Capability::ExpungeFolder => "expunge a folder"@,
        Capability::GetEnvelope => "get an envelope"@,
        Capability::ListEnvelopes => "list envelopes"@,
        Capability::SearchEnvelopes => "search envelopes"@,
        Capability::AddMessage => "add a message"@,
        Capability::GetMessages => "get messages"@,
        Capability::PreviewMessages => "preview messages"@,
        Capability::CopyMessages => "copy messages"@,
        Capability::MoveMessages => "move messages"@,
        Capability::DeleteMessages => "delete messages"@,
        Capability::AddFlags => "add flags"@,
        Capability::SetFlags => "set flags"@,
        Capability::RemoveFlags => "remove flags"@,
        Capability::CloneHandle => "clone the backend"@,
    }
}

impl Capability {
    /// What the capability lets a command do, in words.
    pub fn name(self) -> (out: &'static str)
        ensures
            out@ == capability_name(self),
    {
        match self {
            Capability::ListFolders => "list folders",
            Capability::AddFolder => "add a folder",
            Capability::DeleteFolder => "delete a folder",
            Capability::ExpungeFolder => "expunge a folder",
            Capability::GetEnvelope => "get an envelope",
            Capability::ListEnvelopes => "list envelopes",
            Capability::SearchEnvelopes => "search envelopes",
            Capability::AddMessage => "add a message",
            Capability::GetMessages => "get messages",
            Capability::PreviewMessages => "preview messages",
            Capability::CopyMessages => "copy messages",
            Capability::MoveMessages => "move messages",
            Capability::DeleteMessages => "delete messages",
            Capability::AddFlags => "add flags",
            Capability::SetFlags => "set flags",
            Capability::RemoveFlags => "remove flags",
            Capability::CloneHandle => "clone the backend",
        }
    }
}

/// Where a capability is served from.
#[derive(Clone, Copy, Debug, PartialEq, Eq, Structural)]
pub enum Source {
    /// The provider at this position of the account's provider list.
    Provider(usize),
    /// The synchronisation-aware context, which reuses cached state.
    Context,
}

/// A transport configured for an account and the capabilities it implements.
#[derive(Clone, Debug)]
pub struct Provider {
    pub name: String,
    pub capabilities: Vec<Capability>,
}

/// How the account wants text laid out for reading.
#[derive(Clone, Copy, Debug, PartialEq, Eq, Structural)]
pub enum ReadingFormat {
    /// The content should fit its container.
    Auto,
    /// The content should not be restricted.
    Flowed,
    /// The content should fit in a fixed width.
    Fixed(usize),
}

/// An account with its providers in priority order.
#[derive(Clone, Debug)]
pub struct Account {
    pub name: String,
    /// The folder that commands act on when none is named.
    pub default_folder: String,
    /// How text is laid out for reading.
    pub reading_format: ReadingFormat,
    pub providers: Vec<Provider>,
}

/// Forces one capability to a given source.
#[derive(Clone, Copy, Debug, PartialEq, Eq, Structural)]
pub struct Override {
    pub capability: Capability,
    pub source: Source,
}

/// One capability bound to the source that serves it.
#[derive(Clone, Copy, Debug, PartialEq, Eq, Structural)]
pub struct Binding {
    pub capability: Capability,
    pub source: Source,
}

/// Why a backend could not be built.
#[derive(Clone, Debug)]
pub enum ResolveError {
    /// No override and no provider of the account serves the capability.
    CapabilityUnsupported { capability: Capability, account: String },
}

/// The capabilities resolved for one command, each with its source.
#[derive(Clone, Debug)]
pub struct Backend {
    account: String,
    bindings: Vec<Binding>,
}

/// Whether the provider implements the capability.
pub open spec fn provides(provider: Provider, capability: Capability) -> bool {
    provider.capabilities@.contains(capability)
}

/// `index` is the first provider, in priority order, that implements the
/// capability.
pub open spec fn is_first_provider(
    providers: Seq<Provider>,
    capability: Capability,
    index: int,
) -> bool {
    &&& 0 <= index < providers.len()
    &&& provides(providers[index], capability)
    &&& forall|j: int| 0 <= j < index ==> !provides(#[trigger] providers[j], capability)
}

/// Whether some provider implements the capability.
pub open spec fn provided(providers: Seq<Provider>, capability: Capability) -> bool {
    exists|i: int| 0 <= i < providers.len() && provides(#[trigger] providers[i], capability)
}

/// `index` is the first override given for the capability.
pub open spec fn is_first_override(
    overrides: Seq<Override>,
    capability: Capability,
    index: int,
) -> bool {
    &&& 0 <= index < overrides.len()
    &&& overrides[index].capability == capability
    &&& forall|j: int| 0 <= j < index ==> (#[trigger] overrides[j]).capability != capability
}

/// Whether an override is given for the capability.
pub open spec fn overridden(overrides: Seq<Override>, capability: Capability) -> bool {
    exists|i: int| 0 <= i < overrides.len() && (#[trigger] overrides[i]).capability == capability
}

/// Whether the source can serve the capability: the context can; a provider
/// can where it is one of the account's providers and implements it.
pub open spec fn serves(providers: Seq<Provider>, source: Source, capability: Capability) -> bool {
    match source {
        Source::Context => true,
        Source::Provider(index) => index < providers.len() && provides(
            providers[index as int],
            capability,
        ),
    }
}

/// Whether the capability can be served at all: by the source of the first
/// override given for it, else by some provider.
pub open spec fn satisfiable(
    providers: Seq<Provider>,
    overrides: Seq<Override>,
    capability: Capability,
) -> bool {
    if overridden(overrides, capability) {
        exists|k: int|
            is_first_override(overrides, capability, k) && serves(
                providers,
                (#[trigger] overrides[k]).source,
                capability,
            )
    } else {
        provided(providers, capability)
    }
}

/// `source` is what resolution binds the capability to: the source of the
/// first override given for it, which must be able to serve it, else the
/// first provider that implements it.
pub open spec fn selects(
    providers: Seq<Provider>,
    overrides: Seq<Override>,
    capability: Capability,
    source: Source,
) -> bool {
    if overridden(overrides, capability) {
        serves(providers, source, capability) && exists|k: int|
            is_first_override(overrides, capability, k) && (#[trigger] overrides[k]).source
                == source
    } else {
        source matches Source::Provider(i) && is_first_provider(providers, capability, i as int)
    }
}

/// The bindings read as a map; a later binding of a capability replaces an
/// earlier one.
pub open spec fn bindings_map(bindings: Seq<Binding>) -> Map<Capability, Source>
    decreases bindings.len(),
{
    if bindings.len() == 0 {
        Map::empty()
    } else {
        bindings_map(bindings.drop_last()).insert(
            bindings.last().capability,
            bindings.last().source,
        )
    }
}

/// No capability is bound twice.
pub open spec fn distinct_capabilities(bindings: Seq<Binding>) -> bool {
    forall|i: int, j: int|
        0 <= i < j < bindings.len() ==> (#[trigger] bindings[i]).capability != (
        #[trigger] bindings[j]).capability
}

/// What a finished resolution must look like for these inputs.
pub open spec fn resolved(
    account: Account,
    required: Seq<Capability>,
    overrides: Seq<Override>,
    outcome: Result<Backend, ResolveError>,
) -> bool {
    match outcome {
        Ok(backend) => {
            &&& backend.wf()
            &&& backend.account_name() == account.name@
            &&& forall|c: Capability| #[trigger] backend@.dom().contains(c) <==> required.contains(c)
            &&& forall|c: Capability| #[trigger]
                required.contains(c) ==> selects(account.providers@, overrides, c, backend@[c])
        },
        Err(ResolveError::CapabilityUnsupported { capability, account: name }) => {
            &&& name@ == account.name@
            &&& exists|k: int|
                {
                    &&& 0 <= k < required.len()
                    &&& #[trigger] required[k] == capability
                    &&& !satisfiable(account.providers@, overrides, capability)
                    &&& forall|j: int|
                        0 <= j < k ==> satisfiable(
                            account.providers@,
                            overrides,
                            #[trigger] required[j],
                        )
                }
        },
    }
}

proof fn bindings_map_push(bindings: Seq<Binding>, binding: Binding)
    ensures
        bindings_map(bindings.push(binding)) == bindings_map(bindings).insert(
            binding.capability,
            binding.source,
        ),
{
    assert(bindings.push(binding).drop_last() =~= bindings);
}

proof fn bindings_map_lookup(bindings: Seq<Binding>, capability: Capability)
    requires
        distinct_capabilities(bindings),
    ensures
        bindings_map(bindings).dom().contains(capability) <==> exists|i: int|
            0 <= i < bindings.len() && (#[trigger] bindings[i]).capability == capability,
        forall|i: int|
            0 <= i < bindings.len() && (#[trigger] bindings[i]).capability == capability
                ==> bindings_map(bindings)[capability] == bindings[i].source,
    decreases bindings.len(),
{
    if bindings.len() > 0 {
        let front = bindings.drop_last();
        bindings_map_lookup(front, capability);
        if bindings.last().capability == capability {
            assert(bindings[bindings.len() - 1].capability == capability);
        } else {
            assert forall|i: int|
                0 <= i < bindings.len() && (#[trigger] bindings[i]).capability
                    == capability implies 0 <= i < front.len() && front[i].capability
                == capability by {}
            if exists|i: int|
                0 <= i < front.len() && (#[trigger] front[i]).capability == capability {
                let i = choose|i: int|
                    0 <= i < front.len() && (#[trigger] front[i]).capability == capability;
                assert(bindings[i].capability == capability);
            }
        }
    }
}

impl View for Backend {
    type V = Map<Capability, Source>;

    closed spec fn view(&self) -> Map<Capability, Source> {
        bindings_map(self.bindings@)
    }
}

impl Backend {
    /// Each capability is bound at most once.
    pub closed spec fn wf(&self) -> bool {
        distinct_capabilities(self.bindings@)
    }

    /// Name of the account the backend was built for.
    pub closed spec fn account_name(&self) -> Seq<char> {
        self.account@
    }

    /// Name of the account the backend was built for.
    pub fn account(&self) -> (name: &str)
        ensures
            name@ == self.account_name(),
    {
        self.account.as_str()
    }

    /// The source bound to `capability`, if the backend serves it.
    pub fn source(&self, capability: Capability) -> (found: Option<Source>)
        requires
            self.wf(),
        ensures
            found is Some <==> self@.dom().contains(capability),
            found matches Some(s) ==> self@[capability] == s,
    {
        let mut i: usize = 0;
        while i < self.bindings.len()
            invariant
                self.wf(),
                i <= self.bindings.len(),
                forall|j: int| 0 <= j < i ==> (#[trigger] self.bindings@[j]).capability != capability,
            decreases self.bindings.len() - i,
        {
            if self.bindings[i].capability == capability {
                proof {
                    bindings_map_lookup(self.bindings@, capability);
                }
                return Some(self.bindings[i].source);
            }
            i = i + 1;
        }
        proof {
            bindings_map_lookup(self.bindings@, capability);
        }
        None
    }

    /// Whether the backend serves `capability`.
    pub fn supports(&self, capability: Capability) -> (yes: bool)
        requires
            self.wf(),
        ensures
            yes == self@.dom().contains(capability),
    {
        self.source(capability).is_some()
    }
}

/// Whether the provider implements the capability.
pub fn provider_has(provider: &Provider, capability: Capability) -> (yes: bool)
    ensures
        yes == provides(*provider, capability),
{
    let mut i: usize = 0;
    while i < provider.capabilities.len()
        invariant
            i <= provider.capabilities.len(),
            forall|j: int| 0 <= j < i ==> provider.capabilities@[j] != capability,
        decreases provider.capabilities.len() - i,
    {
        if provider.capabilities[i] == capability {
            return true;
        }
        i = i + 1;
    }
    false
}

/// Position of the first provider that implements the capability.
pub fn first_provider(providers: &Vec<Provider>, capability: Capability) -> (found: Option<usize>)
    ensures
        found is Some <==> provided(providers@, capability),
        found matches Some(i) ==> is_first_provider(providers@, capability, i as int),
{
    let mut i: usize = 0;
    while i < providers.len()
        invariant
            i <= providers.len(),
            forall|j: int| 0 <= j < i ==> !provides(#[trigger] providers@[j], capability),
        decreases providers.len() - i,
    {
        if provider_has(&providers[i], capability) {
            return Some(i);
        }
        i = i + 1;
    }
    None
}

/// Source of the first override given for the capability.
pub fn first_override(overrides: &Vec<Override>, capability: Capability) -> (found: Option<Source>)
    ensures
        found is Some <==> overridden(overrides@, capability),
        found matches Some(s) ==> exists|k: int|
            is_first_override(overrides@, capability, k) && (#[trigger] overrides@[k]).source == s,
{
    let mut i: usize = 0;
    while i < overrides.len()
        invariant
            i <= overrides.len(),
            forall|j: int| 0 <= j < i ==> (#[trigger] overrides@[j]).capability != capability,
        decreases overrides.len() - i,
    {
        if overrides[i].capability == capability {
            assert(is_first_override(overrides@, capability, i as int));
            return Some(overrides[i].source);
        }
        i = i + 1;
    }
    None
}

/// Whether the source can serve the capability.
pub fn source_serves(providers: &Vec<Provider>, source: Source, capability: Capability) -> (yes:
    bool)
    ensures
        yes == serves(providers@, source, capability),
{
    match source {
        Source::Context => true,
        Source::Provider(index) => index < providers.len() && provider_has(
            &providers[index],
            capability,
        ),
    }
}

proof fn first_override_is_unique(overrides: Seq<Override>, capability: Capability, a: int, b: int)
    requires
        is_first_override(overrides, capability, a),
        is_first_override(overrides, capability, b),
    ensures
        a == b,
{
    if a < b {
        assert(overrides[a].capability != capability);
    } else if b < a {
        assert(overrides[b].capability != capability);
    }
}

/// The source that serves the capability: that of the first override given
/// for it, where it can serve, else the first provider that implements it.
/// An override that names a source which cannot serve leaves the capability
/// unserved: no provider is tried in its place.
pub fn select(
    providers: &Vec<Provider>,
    overrides: &Vec<Override>,
    capability: Capability,
) -> (found: Option<Source>)
    ensures
        found is Some <==> satisfiable(providers@, overrides@, capability),
        found matches Some(s) ==> selects(providers@, overrides@, capability, s),
{
    match first_override(overrides, capability) {
        Some(source) => {
            let ghost first = choose|k: int|
                is_first_override(overrides@, capability, k) && (#[trigger] overrides@[k]).source
                    == source;
            if source_serves(providers, source, capability) {
                Some(source)
            } else {
                proof {
                    assert forall|k: int|
                        is_first_override(overrides@, capability, k) implies !serves(
                        providers@,
                        (#[trigger] overrides@[k]).source,
                        capability,
                    ) by {
                        first_override_is_unique(overrides@, capability, k, first);
                    }
                }
                None
            }
        },
        None => match first_provider(providers, capability) {
            Some(i) => Some(Source::Provider(i)),
            None => None,
        },
    }
}

/// Builds the backend for one command.
///
/// Every required capability is bound to the source that `select` gives for
/// it; the backend serves those capabilities and no other, and each through
/// a source that can serve it. The first required capability that nothing
/// serves fails the whole resolution.
pub fn resolve(
    account: &Account,
    required: &Vec<Capability>,
    overrides: &Vec<Override>,
) -> (outcome: Result<Backend, ResolveError>)
    ensures
        resolved(*account, required@, overrides@, outcome),
        outcome is Ok <==> forall|k: int|
            0 <= k < required.len() ==> satisfiable(
                account.providers@,
                overrides@,
                #[trigger] required@[k],
            ),
{
    let mut bindings: Vec<Binding> = Vec::new();
    let mut k: usize = 0;
    while k < required.len()
        invariant
            k <= required.len(),
            distinct_capabilities(bindings@),
            forall|c: Capability| #[trigger]
                bindings_map(bindings@).dom().contains(c) <==> required@.take(k as int).contains(c),
            forall|c: Capability| #[trigger]
                required@.take(k as int).contains(c) ==> selects(
                    account.providers@,
                    overrides@,
                    c,
                    bindings_map(bindings@)[c],
                ),
            forall|j: int|
                0 <= j < k ==> satisfiable(account.providers@, overrides@, #[trigger] required@[j]),
        decreases required.len() - k,
    {
        let capability = required[k];
        let ghost before = bindings@;
        let ghost upto = required@.take(k as int);
        let ghost next = required@.take(k as int + 1);
        proof {
            bindings_map_lookup(before, capability);
            assert(next =~= upto.push(capability));
        }
        match select(&account.providers, overrides, capability) {
            None => {
                return Err(
                    ResolveError::CapabilityUnsupported {
                        capability,
                        account: account.name.clone(),
                    },
                );
            },
            Some(source) => {
                let bound = Backend { account: String::new(), bindings };
                let known = bound.source(capability).is_some();
                bindings = bound.bindings;
                if !known {
                    bindings.push(Binding { capability, source });
                    proof {
                        bindings_map_push(before, Binding { capability, source });
                        assert forall|c: Capability| #[trigger]
                            bindings_map(bindings@).dom().contains(c) <==> next.contains(c) by {
                            if c == capability {
                                assert(next[k as int] == c);
                            } else if upto.contains(c) {
                                let i = choose|i: int|
                                    0 <= i < upto.len() && upto[i] == c;
                                assert(next[i] == c);
                            }
                        }
                        assert forall|c: Capability| #[trigger]
                            next.contains(c) implies selects(
                            account.providers@,
                            overrides@,
                            c,
                            bindings_map(bindings@)[c],
                        ) by {
                            if c != capability {
                                let i = choose|i: int|
                                    0 <= i < next.len() && next[i] == c;
                                assert(upto[i] == c);
                                assert(upto.contains(c));
                            }
                        }
                    }
                } else {
                    proof {
                        assert forall|c: Capability| #[trigger]
                            bindings_map(bindings@).dom().contains(c) <==> next.contains(c) by {
                            if upto.contains(c) {
                                let i = choose|i: int|
                                    0 <= i < upto.len() && upto[i] == c;
                                assert(next[i] == c);
                            }
                        }
                        assert forall|c: Capability| #[trigger]
                            next.contains(c) implies selects(
                            account.providers@,
                            overrides@,
                            c,
                            bindings_map(bindings@)[c],
                        ) by {
                            if c != capability {
                                let i = choose|i: int|
                                    0 <= i < next.len() && next[i] == c;
                                assert(upto[i] == c);
                            }
                            assert(upto.contains(c));
                        }
                    }
                }
            },
        }
        k = k + 1;
    }
    assert(required@.take(k as int) =~= required@);
    Ok(Backend { account: account.name.clone(), bindings })
}

proof fn selects_unique(
    providers: Seq<Provider>,
    overrides: Seq<Override>,
    capability: Capability,
    a: Source,
    b: Source,
)
    requires
        selects(providers, overrides, capability, a),
        selects(providers, overrides, capability, b),
    ensures
        a == b,
        satisfiable(providers, overrides, capability),
{
    if overridden(overrides, capability) {
        let ka = choose|k: int|
            is_first_override(overrides, capability, k) && (#[trigger] overrides[k]).source == a;
        let kb = choose|k: int|
            is_first_override(overrides, capability, k) && (#[trigger] overrides[k]).source == b;
        first_override_is_unique(overrides, capability, ka, kb);
    } else {
        let ia = a->Provider_0 as int;
        let ib = b->Provider_0 as int;
        if ia < ib {
            assert(!provides(providers[ia], capability));
        } else if ib < ia {
            assert(!provides(providers[ib], capability));
        }
        assert(provides(providers[ia], capability));
    }
}

/// A backend is bound only to sources that can serve: the context, or a
/// provider of the account that implements the capability.
pub proof fn bound_sources_serve(
    account: Account,
    required: Seq<Capability>,
    overrides: Seq<Override>,
    backend: Backend,
    capability: Capability,
)
    requires
        resolved(account, required, overrides, Ok(backend)),
        backend@.dom().contains(capability),
    ensures
        serves(account.providers@, backend@[capability], capability),
{
    assert(required.contains(capability));
    assert(selects(account.providers@, overrides, capability, backend@[capability]));
}

/// Resolution is a function of its inputs: two outcomes for the same account,
/// requirements and overrides agree on success, on the failing capability,
/// and on the source of every capability.
pub proof fn resolution_is_deterministic(
    account: Account,
    required: Seq<Capability>,
    overrides: Seq<Override>,
    first: Result<Backend, ResolveError>,
    second: Result<Backend, ResolveError>,
)
    requires
        resolved(account, required, overrides, first),
        resolved(account, required, overrides, second),
    ensures
        first is Ok <==> second is Ok,
        first is Ok ==> first->Ok_0@ == second->Ok_0@,
        first is Err ==> first->Err_0->capability == second->Err_0->capability,
{
    let providers = account.providers@;
    match (first, second) {
        (Ok(a), Ok(b)) => {
            assert forall|c: Capability| a@.dom().contains(c) implies a@[c] == b@[c] by {
                assert(required.contains(c));
                selects_unique(providers, overrides, c, a@[c], b@[c]);
            }
            assert(a@ =~= b@);
        },
        (Ok(a), Err(ResolveError::CapabilityUnsupported { capability, account: _ })) => {
            assert(required.contains(capability));
            selects_unique(providers, overrides, capability, a@[capability], a@[capability]);
        },
        (Err(ResolveError::CapabilityUnsupported { capability, account: _ }), Ok(b)) => {
            assert(required.contains(capability));
            selects_unique(providers, overrides, capability, b@[capability], b@[capability]);
        },
        (
            Err(ResolveError::CapabilityUnsupported { capability: ca, account: _ }),
            Err(ResolveError::CapabilityUnsupported { capability: cb, account: _ }),
        ) => {
            let ka = choose|k: int|
                {
                    &&& 0 <= k < required.len()
                    &&& #[trigger] required[k] == ca
                    &&& !satisfiable(providers, overrides, ca)
                    &&& forall|j: int|
                        0 <= j < k ==> satisfiable(providers, overrides, #[trigger] required[j])
                };
            let kb = choose|k: int|
                {
                    &&& 0 <= k < required.len()
                    &&& #[trigger] required[k] == cb
                    &&& !satisfiable(providers, overrides, cb)
                    &&& forall|j: int|
                        0 <= j < k ==> satisfiable(providers, overrides, #[trigger] required[j])
                };
            if ka < kb {
                assert(satisfiable(providers, overrides, required[ka]));
            } else if kb < ka {
                assert(satisfiable(providers, overrides, required[kb]));
            }
        },
    }
}

} // verus!
