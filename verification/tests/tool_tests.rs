use thread_checked_lock::{
    ArgsError, CargoCommand, Channel, Package, ParsedArgs, Target, package_cache_path,
    packages_to_check, packages_to_print,
};

#[test]
fn parse_commands() {
    assert_eq!(CargoCommand::parse("check").unwrap(), CargoCommand::Check);
    assert_eq!(CargoCommand::parse("clippy").unwrap(), CargoCommand::Clippy);
    assert_eq!(CargoCommand::parse("test").unwrap(), CargoCommand::Test);
    assert!(matches!(
        CargoCommand::parse("build"),
        Err(ArgsError::UnknownCommand(name)) if name == "build"
    ));
}

#[test]
fn parse_channels() {
    assert_eq!(Channel::parse("stable").unwrap(), Channel::Stable);
    assert_eq!(Channel::parse("nightly").unwrap(), Channel::Nightly);
    assert!(matches!(
        Channel::parse("beta"),
        Err(ArgsError::UnknownChannel(name)) if name == "beta"
    ));
}

#[test]
fn parse_targets() {
    assert_eq!(Target::parse("native".to_owned()), Target::Native);
    assert_eq!(Target::parse("apple".to_owned()), Target::AppleSilicon);
    assert_eq!(Target::parse("apple-silicon".to_owned()), Target::AppleSilicon);
    assert_eq!(Target::parse("aarch64-apple-darwin".to_owned()), Target::AppleSilicon);
    assert_eq!(Target::parse("linux".to_owned()), Target::Linux);
    assert_eq!(Target::parse("x86_64-unknown-linux-gnu".to_owned()), Target::Linux);
    assert_eq!(Target::parse("windows".to_owned()), Target::Windows);
    assert_eq!(Target::parse("x86_64-pc-windows-msvc".to_owned()), Target::Windows);
    assert_eq!(Target::parse("wasm".to_owned()), Target::Wasm);
    assert_eq!(Target::parse("wasm32".to_owned()), Target::Wasm);
    assert_eq!(Target::parse("wasm32-unknown-unknown".to_owned()), Target::Wasm);
    assert_eq!(
        Target::parse("riscv64gc-unknown-none-elf".to_owned()),
        Target::Custom("riscv64gc-unknown-none-elf".to_owned())
    );
}

#[test]
fn target_triples() {
    assert_eq!(Target::Native.target_triple(), None);
    assert_eq!(Target::AppleSilicon.target_triple(), Some("aarch64-apple-darwin"));
    assert_eq!(Target::Linux.target_triple(), Some("x86_64-unknown-linux-gnu"));
    assert_eq!(Target::Windows.target_triple(), Some("x86_64-pc-windows-msvc"));
    assert_eq!(Target::Wasm.target_triple(), Some("wasm32-unknown-unknown"));
    assert_eq!(Target::Custom("my-triple".to_owned()).target_triple(), Some("my-triple"));
}

#[test]
fn parse_packages() {
    assert_eq!(Package::parse("container").unwrap(), Package::GenericContainer);
    assert_eq!(Package::parse("generic-container").unwrap(), Package::GenericContainer);
    assert_eq!(Package::parse("mutex").unwrap(), Package::ThreadCheckedMutex);
    assert_eq!(Package::parse("thread-checked-mutex").unwrap(), Package::ThreadCheckedMutex);
    assert!(matches!(
        Package::parse("other"),
        Err(ArgsError::UnknownPackage(name)) if name == "other"
    ));
}

#[test]
fn package_names_and_dirs() {
    assert_eq!(Package::GenericContainer.package_name(), "generic-container");
    assert_eq!(Package::ThreadCheckedMutex.package_name(), "thread-checked-mutex");
    assert_eq!(Package::GenericContainer.package_dir(), "crates/generic-container");
    assert_eq!(Package::ThreadCheckedMutex.package_dir(), "crates/thread-checked-mutex");
}

#[test]
fn package_dependencies() {
    let deps = Package::GenericContainer.dependencies();
    assert_eq!(
        deps,
        vec![
            "Cargo.toml".to_owned(),
            "clippy.toml".to_owned(),
            "check".to_owned(),
            "Justfile".to_owned(),
            "crates/generic-container".to_owned(),
        ]
    );
}

#[test]
fn package_flags() {
    let flags = Package::ThreadCheckedMutex.flags(Channel::Stable, &Target::Native);
    assert_eq!(flags, vec!["--package", "thread-checked-mutex"]);
}

#[test]
fn rust_flags_exact() {
    assert_eq!(CargoCommand::Clippy.rust_flags(Channel::Stable), "");
    assert_eq!(CargoCommand::Check.rust_flags(Channel::Nightly), "-Zpolonius");
    assert_eq!(CargoCommand::Test.rust_flags(Channel::Nightly), "-Zpolonius");
    assert_eq!(
        CargoCommand::Clippy.rust_flags(Channel::Nightly),
        "-Zpolonius -Zcrate-attr=feature(strict_provenance_lints,multiple_supertrait_upcastable,\
         must_not_suspend,non_exhaustive_omitted_patterns_lint,supertrait_item_shadowing,\
         unqualified_local_imports) -Wfuzzy_provenance_casts -Wlossy_provenance_casts \
         -Wmultiple_supertrait_upcastable -Wmust_not_suspend -Wnon_exhaustive_omitted_patterns \
         -Wsupertrait_item_shadowing_definition -Wsupertrait_item_shadowing_usage \
         -Wunqualified_local_imports"
    );
}

#[test]
fn base_args_shape() {
    assert_eq!(
        CargoCommand::Clippy.base_args(Channel::Stable),
        vec!["hack", "clippy", "--feature-powerset", "--color", "always"]
    );
    assert_eq!(
        CargoCommand::Check.base_args(Channel::Nightly),
        vec!["+nightly", "hack", "check", "--feature-powerset", "--color", "always"]
    );
    assert_eq!(
        CargoCommand::Test.base_args(Channel::Nightly),
        vec!["+nightly", "hack", "test", "--feature-powerset", "--color", "always"]
    );
}

#[test]
fn cache_paths() {
    assert_eq!(
        package_cache_path(Package::GenericContainer, true),
        ".check-cache/generic-container.msg-fmt-json"
    );
    assert_eq!(
        package_cache_path(Package::ThreadCheckedMutex, false),
        ".check-cache/thread-checked-mutex.ansi"
    );
}

#[test]
fn packages_to_check_honors_no_cache() {
    let args = vec![Package::ThreadCheckedMutex];
    let invalid = vec![];
    assert_eq!(packages_to_check(&args, &invalid, true), vec![Package::ThreadCheckedMutex]);
    assert_eq!(packages_to_check(&args, &invalid, false), vec![]);
}

#[test]
fn packages_to_check_filters_stale_requested() {
    let args = vec![Package::GenericContainer, Package::ThreadCheckedMutex];
    let invalid = vec![Package::ThreadCheckedMutex];
    assert_eq!(packages_to_check(&args, &invalid, false), vec![Package::ThreadCheckedMutex]);

    let only_container = vec![Package::GenericContainer];
    assert_eq!(packages_to_check(&only_container, &invalid, false), vec![]);
}

#[test]
fn packages_to_print_skips_checked() {
    let args = vec![Package::GenericContainer, Package::ThreadCheckedMutex];
    let checked = vec![Package::ThreadCheckedMutex];
    assert_eq!(packages_to_print(&args, &checked, false), vec![Package::GenericContainer]);
    assert_eq!(packages_to_print(&args, &checked, true), vec![]);
}

#[test]
fn try_parse_defaults() {
    let parsed = ParsedArgs::try_parse(vec![]).unwrap();
    assert_eq!(parsed.commands, vec![CargoCommand::Clippy]);
    assert_eq!(parsed.channels, vec![Channel::Stable, Channel::Nightly]);
    assert_eq!(parsed.targets, vec![Target::AppleSilicon, Target::Wasm]);
    assert_eq!(parsed.packages, vec![Package::GenericContainer, Package::ThreadCheckedMutex]);
    assert!(!parsed.on_save);
    assert!(!parsed.no_cache);
    assert!(parsed.trailing_args.is_empty());
}

#[test]
fn try_parse_named_choices() {
    let parsed = ParsedArgs::try_parse(vec![
        "--command".to_owned(),
        "test".to_owned(),
        "--channel".to_owned(),
        "stable".to_owned(),
        "--target".to_owned(),
        "linux".to_owned(),
        "--package".to_owned(),
        "mutex".to_owned(),
        "--on-save".to_owned(),
    ])
    .unwrap();
    assert_eq!(parsed.commands, vec![CargoCommand::Test]);
    assert_eq!(parsed.channels, vec![Channel::Stable]);
    assert_eq!(parsed.targets, vec![Target::Linux]);
    assert_eq!(parsed.packages, vec![Package::ThreadCheckedMutex]);
    assert!(parsed.on_save);
    assert!(!parsed.no_cache);
}

#[test]
fn try_parse_named_choices_keep_canonical_order() {
    let parsed = ParsedArgs::try_parse(vec![
        "--command".to_owned(),
        "test".to_owned(),
        "--command".to_owned(),
        "check".to_owned(),
    ])
    .unwrap();
    // Selections keep the order of the full list, not naming order.
    assert_eq!(parsed.commands, vec![CargoCommand::Check, CargoCommand::Test]);
}

#[test]
fn try_parse_all_flags() {
    let parsed = ParsedArgs::try_parse(vec!["--all".to_owned(), "--no-cache".to_owned()]).unwrap();
    assert_eq!(
        parsed.commands,
        vec![CargoCommand::Check, CargoCommand::Clippy, CargoCommand::Test]
    );
    assert_eq!(parsed.channels, vec![Channel::Stable, Channel::Nightly]);
    assert_eq!(
        parsed.targets,
        vec![Target::AppleSilicon, Target::Linux, Target::Windows, Target::Wasm]
    );
    assert_eq!(parsed.packages, vec![Package::GenericContainer, Package::ThreadCheckedMutex]);
    assert!(parsed.no_cache);
}

#[test]
fn try_parse_trailing_args() {
    let parsed = ParsedArgs::try_parse(vec![
        "--all-targets".to_owned(),
        "--".to_owned(),
        "--command".to_owned(),
        "whatever".to_owned(),
    ])
    .unwrap();
    assert_eq!(
        parsed.targets,
        vec![Target::AppleSilicon, Target::Linux, Target::Windows, Target::Wasm]
    );
    assert_eq!(parsed.trailing_args, vec!["--command".to_owned(), "whatever".to_owned()]);
}

#[test]
fn try_parse_custom_target_selects_nothing() {
    // A custom target can be named, but the selection only ever lists named
    // targets, so naming one alone falls back to filtering them all out.
    let parsed = ParsedArgs::try_parse(vec![
        "--target".to_owned(),
        "riscv64gc-unknown-none-elf".to_owned(),
    ])
    .unwrap();
    assert_eq!(parsed.targets, vec![]);
}

#[test]
fn try_parse_errors() {
    assert!(matches!(
        ParsedArgs::try_parse(vec!["--frobnicate".to_owned()]),
        Err(ArgsError::UnknownArgument(text)) if text == "--frobnicate"
    ));
    assert!(matches!(
        ParsedArgs::try_parse(vec!["--command".to_owned()]),
        Err(ArgsError::MissingValue(flag)) if flag == "--command"
    ));
    assert!(matches!(
        ParsedArgs::try_parse(vec!["--channel".to_owned()]),
        Err(ArgsError::MissingValue(flag)) if flag == "--channel"
    ));
    assert!(matches!(
        ParsedArgs::try_parse(vec!["--target".to_owned()]),
        Err(ArgsError::MissingValue(flag)) if flag == "--target"
    ));
    assert!(matches!(
        ParsedArgs::try_parse(vec!["--package".to_owned()]),
        Err(ArgsError::MissingValue(flag)) if flag == "--package"
    ));
    assert!(matches!(
        ParsedArgs::try_parse(vec!["--command".to_owned(), "fmt".to_owned()]),
        Err(ArgsError::UnknownCommand(name)) if name == "fmt"
    ));
    assert!(matches!(
        ParsedArgs::try_parse(vec!["--channel".to_owned(), "beta".to_owned()]),
        Err(ArgsError::UnknownChannel(name)) if name == "beta"
    ));
    assert!(matches!(
        ParsedArgs::try_parse(vec!["--package".to_owned(), "nope".to_owned()]),
        Err(ArgsError::UnknownPackage(name)) if name == "nope"
    ));
}

#[test]
fn all_and_default_lists() {
    assert_eq!(
        CargoCommand::all_commands(),
        vec![CargoCommand::Check, CargoCommand::Clippy, CargoCommand::Test]
    );
    assert_eq!(CargoCommand::default_commands(), vec![CargoCommand::Clippy]);
    assert_eq!(Channel::all_channels(), vec![Channel::Stable, Channel::Nightly]);
    assert_eq!(Channel::default_channels(), Channel::all_channels());
    assert_eq!(
        Target::all_targets(),
        vec![Target::AppleSilicon, Target::Linux, Target::Windows, Target::Wasm]
    );
    assert_eq!(Target::default_targets(), vec![Target::AppleSilicon, Target::Wasm]);
    assert_eq!(
        Package::all_packages(),
        vec![Package::GenericContainer, Package::ThreadCheckedMutex]
    );
    assert_eq!(Package::default_packages(), Package::all_packages());
}
