use mailcmd::backend::{
    first_override, first_provider, provider_has, resolve, select, source_serves, Account,
    Capability, Override,
    Provider, ReadingFormat, ResolveError, Source,
};

fn provider(name: &str, capabilities: Vec<Capability>) -> Provider {
    Provider {
        name: String::from(name),
        capabilities,
    }
}

fn account(providers: Vec<Provider>) -> Account {
    Account {
        name: String::from("work"),
        default_folder: String::from("INBOX"),
        reading_format: ReadingFormat::Auto,
        providers,
    }
}

#[test]
fn resolve_binds_the_first_provider_in_priority_order() {
    let account = account(vec![
        provider("imap", vec![Capability::ListFolders, Capability::GetMessages]),
        provider("maildir", vec![Capability::ListFolders]),
    ]);
    let backend = resolve(&account, &vec![Capability::ListFolders], &vec![]).unwrap();
    assert_eq!(backend.source(Capability::ListFolders), Some(Source::Provider(0)));
    assert_eq!(backend.account(), "work");
}

#[test]
fn resolve_passes_over_providers_that_lack_the_capability() {
    let account = account(vec![
        provider("smtp", vec![Capability::AddMessage]),
        provider("imap", vec![Capability::GetMessages]),
        provider("maildir", vec![Capability::GetMessages]),
    ]);
    let backend = resolve(&account, &vec![Capability::GetMessages], &vec![]).unwrap();
    assert_eq!(backend.source(Capability::GetMessages), Some(Source::Provider(1)));
}

#[test]
fn resolve_lets_an_override_win_for_its_capability_only() {
    let account = account(vec![provider(
        "imap",
        vec![Capability::GetMessages, Capability::ListFolders],
    )]);
    let overrides = vec![Override {
        capability: Capability::GetMessages,
        source: Source::Context,
    }];
    let backend = resolve(
        &account,
        &vec![Capability::GetMessages, Capability::ListFolders],
        &overrides,
    )
    .unwrap();
    assert_eq!(backend.source(Capability::GetMessages), Some(Source::Context));
    assert_eq!(backend.source(Capability::ListFolders), Some(Source::Provider(0)));
}

#[test]
fn resolve_takes_the_first_of_two_overrides() {
    let account = account(vec![
        provider("imap", vec![Capability::GetMessages]),
        provider("maildir", vec![Capability::GetMessages]),
    ]);
    let overrides = vec![
        Override {
            capability: Capability::GetMessages,
            source: Source::Provider(1),
        },
        Override {
            capability: Capability::GetMessages,
            source: Source::Context,
        },
    ];
    let backend = resolve(&account, &vec![Capability::GetMessages], &overrides).unwrap();
    assert_eq!(backend.source(Capability::GetMessages), Some(Source::Provider(1)));
}

fn unsupported(account: &Account, overrides: Vec<Override>, wanted: Capability) {
    match resolve(account, &vec![wanted], &overrides) {
        Err(ResolveError::CapabilityUnsupported {
            capability,
            account,
        }) => {
            assert_eq!(capability, wanted);
            assert_eq!(account, "work");
        }
        Ok(_) => panic!("a backend was built on a source that cannot serve"),
    }
}

#[test]
fn resolve_refuses_an_override_to_a_provider_that_does_not_exist() {
    let none = account(vec![]);
    let to = |index| {
        vec![Override {
            capability: Capability::GetMessages,
            source: Source::Provider(index),
        }]
    };
    unsupported(&none, to(0), Capability::GetMessages);
    unsupported(&none, to(7), Capability::GetMessages);
    let one = account(vec![provider("imap", vec![Capability::GetMessages])]);
    unsupported(&one, to(1), Capability::GetMessages);
    assert!(resolve(&one, &vec![Capability::GetMessages], &to(0)).is_ok());
}

#[test]
fn resolve_refuses_an_override_to_a_provider_that_lacks_the_capability() {
    let account = account(vec![
        provider("smtp", vec![Capability::AddMessage]),
        provider("imap", vec![Capability::GetMessages]),
    ]);
    let overrides = vec![Override {
        capability: Capability::GetMessages,
        source: Source::Provider(0),
    }];
    // The provider that could serve is not tried in place of the override.
    unsupported(&account, overrides, Capability::GetMessages);
}

#[test]
fn resolve_goes_by_the_first_override_even_where_a_later_one_could_serve() {
    let account = account(vec![provider("imap", vec![Capability::GetMessages])]);
    let overrides = vec![
        Override {
            capability: Capability::GetMessages,
            source: Source::Provider(5),
        },
        Override {
            capability: Capability::GetMessages,
            source: Source::Context,
        },
    ];
    unsupported(&account, overrides, Capability::GetMessages);
}

#[test]
fn a_source_serves_what_it_can() {
    let providers = vec![
        provider("smtp", vec![Capability::AddMessage]),
        provider("imap", vec![Capability::GetMessages]),
    ];
    assert!(source_serves(&providers, Source::Context, Capability::SetFlags));
    assert!(source_serves(&providers, Source::Provider(1), Capability::GetMessages));
    assert!(!source_serves(&providers, Source::Provider(0), Capability::GetMessages));
    assert!(!source_serves(&providers, Source::Provider(2), Capability::GetMessages));
    assert!(!source_serves(&vec![], Source::Provider(0), Capability::GetMessages));
}

#[test]
fn resolve_serves_an_overridden_capability_without_any_provider() {
    let account = account(vec![]);
    let overrides = vec![Override {
        capability: Capability::GetMessages,
        source: Source::Context,
    }];
    let backend = resolve(&account, &vec![Capability::GetMessages], &overrides).unwrap();
    assert!(backend.supports(Capability::GetMessages));
}

#[test]
fn resolve_fails_with_the_first_unsupported_capability() {
    let account = account(vec![provider("imap", vec![Capability::ListFolders])]);
    let outcome = resolve(
        &account,
        &vec![
            Capability::ListFolders,
            Capability::AddFolder,
            Capability::DeleteFolder,
        ],
        &vec![],
    );
    match outcome {
        Err(ResolveError::CapabilityUnsupported {
            capability,
            account,
        }) => {
            assert_eq!(capability, Capability::AddFolder);
            assert_eq!(account, "work");
        }
        Ok(_) => panic!("a backend was built without a required capability"),
    }
}

#[test]
fn resolve_exposes_the_required_capabilities_and_no_other() {
    let account = account(vec![provider(
        "imap",
        vec![
            Capability::ListFolders,
            Capability::AddFolder,
            Capability::GetMessages,
        ],
    )]);
    let backend = resolve(&account, &vec![Capability::AddFolder], &vec![]).unwrap();
    assert!(backend.supports(Capability::AddFolder));
    assert!(!backend.supports(Capability::ListFolders));
    assert!(!backend.supports(Capability::GetMessages));
    assert_eq!(backend.source(Capability::ListFolders), None);
}

#[test]
fn resolve_with_nothing_required_builds_an_empty_backend() {
    let account = account(vec![provider("imap", vec![Capability::ListFolders])]);
    let backend = resolve(&account, &vec![], &vec![]).unwrap();
    assert!(!backend.supports(Capability::ListFolders));
}

#[test]
fn resolve_tolerates_a_capability_required_twice() {
    let account = account(vec![provider("imap", vec![Capability::ListFolders])]);
    let backend = resolve(
        &account,
        &vec![Capability::ListFolders, Capability::ListFolders],
        &vec![],
    )
    .unwrap();
    assert_eq!(backend.source(Capability::ListFolders), Some(Source::Provider(0)));
}

#[test]
fn resolving_twice_gives_the_same_coverage() {
    let account = account(vec![
        provider("imap", vec![Capability::ListFolders]),
        provider("maildir", vec![Capability::GetMessages, Capability::ListFolders]),
    ]);
    let required = vec![Capability::GetMessages, Capability::ListFolders];
    let first = resolve(&account, &required, &vec![]).unwrap();
    let second = resolve(&account, &required, &vec![]).unwrap();
    for capability in [
        Capability::ListFolders,
        Capability::AddFolder,
        Capability::GetMessages,
        Capability::CloneHandle,
    ] {
        assert_eq!(first.supports(capability), second.supports(capability));
        assert_eq!(first.source(capability), second.source(capability));
    }
    assert_eq!(first.source(Capability::GetMessages), Some(Source::Provider(1)));
    assert_eq!(first.source(Capability::ListFolders), Some(Source::Provider(0)));
}

#[test]
fn resolving_twice_fails_on_the_same_capability() {
    let account = account(vec![provider("imap", vec![Capability::ListFolders])]);
    let required = vec![Capability::SetFlags, Capability::AddFlags];
    for _ in 0..2 {
        match resolve(&account, &required, &vec![]) {
            Err(ResolveError::CapabilityUnsupported { capability, .. }) => {
                assert_eq!(capability, Capability::SetFlags)
            }
            Ok(_) => panic!("resolution should have failed"),
        }
    }
}

#[test]
fn provider_lookups_agree_with_the_lists() {
    let imap = provider("imap", vec![Capability::ListFolders, Capability::MoveMessages]);
    assert!(provider_has(&imap, Capability::MoveMessages));
    assert!(!provider_has(&imap, Capability::CopyMessages));
    let providers = vec![provider("smtp", vec![]), imap];
    assert_eq!(first_provider(&providers, Capability::MoveMessages), Some(1));
    assert_eq!(first_provider(&providers, Capability::CopyMessages), None);
    let overrides = vec![Override {
        capability: Capability::CopyMessages,
        source: Source::Context,
    }];
    assert_eq!(
        first_override(&overrides, Capability::CopyMessages),
        Some(Source::Context)
    );
    assert_eq!(first_override(&overrides, Capability::MoveMessages), None);
    assert_eq!(
        select(&providers, &overrides, Capability::CopyMessages),
        Some(Source::Context)
    );
    assert_eq!(
        select(&providers, &overrides, Capability::MoveMessages),
        Some(Source::Provider(1))
    );
    assert_eq!(select(&providers, &overrides, Capability::SetFlags), None);
}
