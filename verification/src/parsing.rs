use vstd::prelude::*;

use crate::commands::CargoCommand;
use crate::data::{ArgsError, Channel, Package, Target, str_eq};

verus! {

broadcast use vstd::seq_lib::group_filter_ensures;

/// The abstract value of an [`ArgsError`]: the same variants over the text
/// they carry.
pub ghost enum ArgsErrorView {
    UnknownCommand(Seq<char>),
    UnknownChannel(Seq<char>),
    UnknownPackage(Seq<char>),
    MissingValue(Seq<char>),
    UnknownArgument(Seq<char>),
}

impl View for ArgsError {
    type V = ArgsErrorView;

    open spec fn view(&self) -> ArgsErrorView {
        match self {
            ArgsError::UnknownCommand(name) => ArgsErrorView::UnknownCommand(name@),
            ArgsError::UnknownChannel(name) => ArgsErrorView::UnknownChannel(name@),
            ArgsError::UnknownPackage(name) => ArgsErrorView::UnknownPackage(name@),
            ArgsError::MissingValue(flag) => ArgsErrorView::MissingValue(flag@),
            ArgsError::UnknownArgument(text) => ArgsErrorView::UnknownArgument(text@),
        }
    }
}

/// The abstract value of the raw argument record: what each flag
/// accumulated, before defaults and filtering are applied.
#[verifier::ext_equal]
pub ghost struct RawArgsView {
    pub commands: Seq<CargoCommand>,
    pub channels: Seq<Channel>,
    pub targets: Seq<Target>,
    pub packages: Seq<Package>,
    pub on_save: bool,
    pub all_commands: bool,
    pub all_channels: bool,
    pub all_targets: bool,
    pub all_packages: bool,
    pub no_cache: bool,
    pub trailing: Seq<String>,
}

impl RawArgsView {
    /// The record before any argument was read.
    pub open spec fn init() -> RawArgsView {
        RawArgsView {
            commands: Seq::empty(),
            channels: Seq::empty(),
            targets: Seq::empty(),
            packages: Seq::empty(),
            on_save: false,
            all_commands: false,
            all_channels: false,
            all_targets: false,
            all_packages: false,
            no_cache: false,
            trailing: Seq::empty(),
        }
    }
}

/// What parsing the argument list `args` does to the record `acc`: the
/// definition of the tool's command line. Arguments are read left to right;
/// `--` ends parsing and keeps the rest as trailing arguments; `--command`,
/// `--channel`, `--target` and `--package` each consume and parse the next
/// argument; the remaining known flags set their switches; anything else is
/// an error.
pub open spec fn spec_parse_raw(args: Seq<String>, acc: RawArgsView) -> Result<
    RawArgsView,
    ArgsErrorView,
>
    decreases args.len(),
{
    if args.len() == 0 {
        Ok(acc)
    } else {
        let arg = args[0]@;
        if arg == "--"@ {
            Ok(RawArgsView { trailing: args.drop_first(), ..acc })
        } else if arg == "--command"@ {
            if args.len() == 1 {
                Err(ArgsErrorView::MissingValue("--command"@))
            } else {
                match CargoCommand::spec_command_of(args[1]@) {
                    Some(command) => spec_parse_raw(
                        args.skip(2),
                        RawArgsView { commands: acc.commands.push(command), ..acc },
                    ),
                    None => Err(ArgsErrorView::UnknownCommand(args[1]@)),
                }
            }
        } else if arg == "--channel"@ {
            if args.len() == 1 {
                Err(ArgsErrorView::MissingValue("--channel"@))
            } else {
                match Channel::spec_channel_of(args[1]@) {
                    Some(channel) => spec_parse_raw(
                        args.skip(2),
                        RawArgsView { channels: acc.channels.push(channel), ..acc },
                    ),
                    None => Err(ArgsErrorView::UnknownChannel(args[1]@)),
                }
            }
        } else if arg == "--target"@ {
            if args.len() == 1 {
                Err(ArgsErrorView::MissingValue("--target"@))
            } else {
                let target = match Target::spec_named_target_of(args[1]@) {
                    Some(named) => named,
                    None => Target::Custom(args[1]),
                };
                spec_parse_raw(args.skip(2), RawArgsView { targets: acc.targets.push(target), ..acc })
            }
        } else if arg == "--package"@ {
            if args.len() == 1 {
                Err(ArgsErrorView::MissingValue("--package"@))
            } else {
                match Package::spec_package_of(args[1]@) {
                    Some(package) => spec_parse_raw(
                        args.skip(2),
                        RawArgsView { packages: acc.packages.push(package), ..acc },
                    ),
                    None => Err(ArgsErrorView::UnknownPackage(args[1]@)),
                }
            }
        } else if arg == "--all"@ {
            spec_parse_raw(
                args.skip(1),
                RawArgsView {
                    all_commands: true,
                    all_channels: true,
                    all_targets: true,
                    all_packages: true,
                    ..acc
                },
            )
        } else if arg == "--all-commands"@ {
            spec_parse_raw(args.skip(1), RawArgsView { all_commands: true, ..acc })
        } else if arg == "--all-channels"@ {
            spec_parse_raw(args.skip(1), RawArgsView { all_channels: true, ..acc })
        } else if arg == "--all-targets"@ {
            spec_parse_raw(args.skip(1), RawArgsView { all_targets: true, ..acc })
        } else if arg == "--all-packages"@ {
            spec_parse_raw(args.skip(1), RawArgsView { all_packages: true, ..acc })
        } else if arg == "--on-save"@ {
            spec_parse_raw(args.skip(1), RawArgsView { on_save: true, ..acc })
        } else if arg == "--no-cache"@ {
            spec_parse_raw(args.skip(1), RawArgsView { no_cache: true, ..acc })
        } else {
            Err(ArgsErrorView::UnknownArgument(arg))
        }
    }
}

/// The raw flag record accumulated while reading the argument list.
#[derive(Debug)]
struct RawArgs {
    commands: Vec<CargoCommand>,
    channels: Vec<Channel>,
    targets: Vec<Target>,
    packages: Vec<Package>,
    on_save: bool,
    all_commands: bool,
    all_channels: bool,
    all_targets: bool,
    all_packages: bool,
    no_cache: bool,
    trailing_args: Vec<String>,
}

impl View for RawArgs {
    type V = RawArgsView;

    closed spec fn view(&self) -> RawArgsView {
        RawArgsView {
            commands: self.commands@,
            channels: self.channels@,
            targets: self.targets@,
            packages: self.packages@,
            on_save: self.on_save,
            all_commands: self.all_commands,
            all_channels: self.all_channels,
            all_targets: self.all_targets,
            all_packages: self.all_packages,
            no_cache: self.no_cache,
            trailing: self.trailing_args@,
        }
    }
}

impl RawArgs {
    /// The record before any argument was read.
    fn new() -> (raw: RawArgs)
        ensures
            raw@ == RawArgsView::init(),
    {
        let raw = RawArgs {
            commands: Vec::new(),
            channels: Vec::new(),
            targets: Vec::new(),
            packages: Vec::new(),
            on_save: false,
            all_commands: false,
            all_channels: false,
            all_targets: false,
            all_packages: false,
            no_cache: false,
            trailing_args: Vec::new(),
        };
        proof {
            assert(raw@ =~= RawArgsView::init());
        }
        raw
    }

    /// Reads the argument list into a raw flag record, exactly as
    /// [`spec_parse_raw`] describes.
    #[verifier::rlimit(50)]
    fn try_parse(args: &Vec<String>) -> (r: Result<RawArgs, ArgsError>)
        ensures
            match r {
                Ok(raw) => spec_parse_raw(args@, RawArgsView::init()) == Ok::<
                    RawArgsView,
                    ArgsErrorView,
                >(raw@),
                Err(e) => spec_parse_raw(args@, RawArgsView::init()) == Err::<
                    RawArgsView,
                    ArgsErrorView,
                >(e@),
            },
    {
        let mut raw = RawArgs::new();
        let mut i: usize = 0;

        proof {
            assert(args@.skip(0) =~= args@);
        }
        while i < args.len()
            invariant
                i <= args@.len(),
                raw@.trailing == Seq::<String>::empty(),
                spec_parse_raw(args@, RawArgsView::init()) == spec_parse_raw(
                    args@.skip(i as int),
                    raw@,
                ),
            decreases args@.len() - i,
        {
            let ghost pre_view = raw@;
            let ghost rest = args@.skip(i as int);
            proof {
                assert(rest[0] == args@[i as int]);
            }
            let arg = &args[i];

            if str_eq(arg.as_str(), "--") {
                let mut j: usize = i + 1;
                proof {
                    assert(args@.subrange(i as int + 1, i as int + 1) =~= Seq::<String>::empty());
                    assert(raw@ =~= (RawArgsView {
                        trailing: args@.subrange(i as int + 1, i as int + 1),
                        ..pre_view
                    }));
                }
                while j < args.len()
                    invariant
                        i + 1 <= j <= args@.len(),
                        raw@ == (RawArgsView {
                            trailing: args@.subrange(i as int + 1, j as int),
                            ..pre_view
                        }),
                    decreases args@.len() - j,
                {
                    raw.trailing_args.push(args[j].clone());
                    proof {
                        assert(raw@ =~= RawArgsView {
                            trailing: args@.subrange(i as int + 1, j as int + 1),
                            ..pre_view
                        });
                    }
                    j += 1;
                }
                proof {
                    assert(rest.drop_first() =~= args@.subrange(i as int + 1, args@.len() as int));
                    assert(raw@ =~= RawArgsView { trailing: rest.drop_first(), ..pre_view });
                }
                return Ok(raw);
            } else if str_eq(arg.as_str(), "--command") {
                if i + 1 == args.len() {
                    return Err(ArgsError::MissingValue("--command".to_owned()));
                }
                let value = &args[i + 1];
                proof {
                    assert(rest[1] == args@[i as int + 1]);
                }
                match CargoCommand::parse(value.as_str()) {
                    Ok(command) => {
                        raw.commands.push(command);
                        proof {
                            assert(raw@ =~= RawArgsView {
                                commands: pre_view.commands.push(command),
                                ..pre_view
                            });
                            assert(args@.skip(i as int + 2) =~= rest.skip(2));
                        }
                        i += 2;
                    },
                    Err(error) => {
                        return Err(error);
                    },
                }
            } else if str_eq(arg.as_str(), "--channel") {
                if i + 1 == args.len() {
                    return Err(ArgsError::MissingValue("--channel".to_owned()));
                }
                let value = &args[i + 1];
                proof {
                    assert(rest[1] == args@[i as int + 1]);
                }
                match Channel::parse(value.as_str()) {
                    Ok(channel) => {
                        raw.channels.push(channel);
                        proof {
                            assert(raw@ =~= RawArgsView {
                                channels: pre_view.channels.push(channel),
                                ..pre_view
                            });
                            assert(args@.skip(i as int + 2) =~= rest.skip(2));
                        }
                        i += 2;
                    },
                    Err(error) => {
                        return Err(error);
                    },
                }
            } else if str_eq(arg.as_str(), "--target") {
                if i + 1 == args.len() {
                    return Err(ArgsError::MissingValue("--target".to_owned()));
                }
                let value = args[i + 1].clone();
                proof {
                    assert(rest[1] == args@[i as int + 1]);
                }
                let target = Target::parse(value);
                raw.targets.push(target);
                proof {
                    assert(raw@ =~= RawArgsView {
                        targets: pre_view.targets.push(target),
                        ..pre_view
                    });
                    assert(args@.skip(i as int + 2) =~= rest.skip(2));
                }
                i += 2;
            } else if str_eq(arg.as_str(), "--package") {
                if i + 1 == args.len() {
                    return Err(ArgsError::MissingValue("--package".to_owned()));
                }
                let value = &args[i + 1];
                proof {
                    assert(rest[1] == args@[i as int + 1]);
                }
                match Package::parse(value.as_str()) {
                    Ok(package) => {
                        raw.packages.push(package);
                        proof {
                            assert(raw@ =~= RawArgsView {
                                packages: pre_view.packages.push(package),
                                ..pre_view
                            });
                            assert(args@.skip(i as int + 2) =~= rest.skip(2));
                        }
                        i += 2;
                    },
                    Err(error) => {
                        return Err(error);
                    },
                }
            } else if str_eq(arg.as_str(), "--all") {
                raw.all_commands = true;
                raw.all_channels = true;
                raw.all_targets = true;
                raw.all_packages = true;
                proof {
                    assert(raw@ =~= RawArgsView {
                        all_commands: true,
                        all_channels: true,
                        all_targets: true,
                        all_packages: true,
                        ..pre_view
                    });
                    assert(args@.skip(i as int + 1) =~= rest.skip(1));
                }
                i += 1;
            } else if str_eq(arg.as_str(), "--all-commands") {
                raw.all_commands = true;
                proof {
                    assert(raw@ =~= RawArgsView { all_commands: true, ..pre_view });
                    assert(args@.skip(i as int + 1) =~= rest.skip(1));
                }
                i += 1;
            } else if str_eq(arg.as_str(), "--all-channels") {
                raw.all_channels = true;
                proof {
                    assert(raw@ =~= RawArgsView { all_channels: true, ..pre_view });
                    assert(args@.skip(i as int + 1) =~= rest.skip(1));
                }
                i += 1;
            } else if str_eq(arg.as_str(), "--all-targets") {
                raw.all_targets = true;
                proof {
                    assert(raw@ =~= RawArgsView { all_targets: true, ..pre_view });
                    assert(args@.skip(i as int + 1) =~= rest.skip(1));
                }
                i += 1;
            } else if str_eq(arg.as_str(), "--all-packages") {
                raw.all_packages = true;
                proof {
                    assert(raw@ =~= RawArgsView { all_packages: true, ..pre_view });
                    assert(args@.skip(i as int + 1) =~= rest.skip(1));
                }
                i += 1;
            } else if str_eq(arg.as_str(), "--on-save") {
                raw.on_save = true;
                proof {
                    assert(raw@ =~= RawArgsView { on_save: true, ..pre_view });
                    assert(args@.skip(i as int + 1) =~= rest.skip(1));
                }
                i += 1;
            } else if str_eq(arg.as_str(), "--no-cache") {
                raw.no_cache = true;
                proof {
                    assert(raw@ =~= RawArgsView { no_cache: true, ..pre_view });
                    assert(args@.skip(i as int + 1) =~= rest.skip(1));
                }
                i += 1;
            } else {
                return Err(ArgsError::UnknownArgument(arg.clone()));
            }
        }

        proof {
            assert(args@.skip(i as int) =~= Seq::<String>::empty());
        }
        Ok(raw)
    }
}

/// Which items a run works on: `all` wins over named choices, named choices
/// win over the default, and named choices keep the order of `all` rather
/// than the order they were named in.
pub open spec fn spec_selected<A>(
    all: Seq<A>,
    dflt: Seq<A>,
    take_all: bool,
    chosen: Seq<A>,
) -> Seq<A> {
    if take_all {
        all
    } else if chosen.len() == 0 {
        dflt
    } else {
        all.filter(|item: A| chosen.contains(item))
    }
}

/// Whether `chosen` lists a target that is the same as `target` (the same
/// variant, and for custom targets the same triple).
pub open spec fn spec_target_chosen(chosen: Seq<Target>, target: Target) -> bool {
    exists|k: int| 0 <= k < chosen.len() && chosen[k].matches_spec(&target)
}

/// Which targets a run works on: as [`spec_selected`], except that targets
/// compare by contents, and that only named targets are ever selected (a
/// custom target named on the command line selects nothing).
pub open spec fn spec_selected_targets(take_all: bool, chosen: Seq<Target>) -> Seq<Target> {
    if take_all {
        Target::spec_all_targets()
    } else if chosen.len() == 0 {
        seq![Target::AppleSilicon, Target::Wasm]
    } else {
        Target::spec_all_targets().filter(|target: Target| spec_target_chosen(chosen, target))
    }
}

/// Whether `commands` lists `command`.
fn contains_command(commands: &Vec<CargoCommand>, command: CargoCommand) -> (found: bool)
    ensures
        found == commands@.contains(command),
{
    let mut k: usize = 0;
    while k < commands.len()
        invariant
            k <= commands@.len(),
            forall|m: int| 0 <= m < k ==> commands@[m] != command,
        decreases commands@.len() - k,
    {
        if commands[k] == command {
            return true;
        }
        k += 1;
    }
    false
}

/// Whether `channels` lists `channel`.
fn contains_channel(channels: &Vec<Channel>, channel: Channel) -> (found: bool)
    ensures
        found == channels@.contains(channel),
{
    let mut k: usize = 0;
    while k < channels.len()
        invariant
            k <= channels@.len(),
            forall|m: int| 0 <= m < k ==> channels@[m] != channel,
        decreases channels@.len() - k,
    {
        if channels[k] == channel {
            return true;
        }
        k += 1;
    }
    false
}

/// Whether `packages` lists `package`.
fn contains_package(packages: &Vec<Package>, package: Package) -> (found: bool)
    ensures
        found == packages@.contains(package),
{
    let mut k: usize = 0;
    while k < packages.len()
        invariant
            k <= packages@.len(),
            forall|m: int| 0 <= m < k ==> packages@[m] != package,
        decreases packages@.len() - k,
    {
        if packages[k] == package {
            return true;
        }
        k += 1;
    }
    false
}

/// Whether `targets` lists a target with the same contents as `target`.
fn contains_target(targets: &Vec<Target>, target: &Target) -> (found: bool)
    ensures
        found == spec_target_chosen(targets@, *target),
{
    let mut k: usize = 0;
    while k < targets.len()
        invariant
            k <= targets@.len(),
            forall|m: int| 0 <= m < k ==> !targets@[m].matches_spec(target),
        decreases targets@.len() - k,
    {
        if &targets[k] == target {
            return true;
        }
        k += 1;
    }
    false
}

/// Selects the commands a run works on.
fn select_commands(chosen: &Vec<CargoCommand>, take_all: bool) -> (selected: Vec<CargoCommand>)
    ensures
        selected@ == spec_selected(
            CargoCommand::spec_all_commands(),
            seq![CargoCommand::Clippy],
            take_all,
            chosen@,
        ),
{
    if take_all {
        CargoCommand::all_commands()
    } else if chosen.len() == 0 {
        CargoCommand::default_commands()
    } else {
        let ghost pred = |command: CargoCommand| chosen@.contains(command);
        let all = CargoCommand::all_commands();
        let mut selected: Vec<CargoCommand> = Vec::new();
        let mut k: usize = 0;
        while k < all.len()
            invariant
                k <= all@.len(),
                all@ == CargoCommand::spec_all_commands(),
                selected@ == all@.take(k as int).filter(pred),
                pred == (|command: CargoCommand| chosen@.contains(command)),
            decreases all@.len() - k,
        {
            let command = all[k];
            let ghost prev = all@.take(k as int);
            if contains_command(chosen, command) {
                selected.push(command);
                proof {
                    assert(selected@ == prev.filter(pred).push(command));
                }
            }
            proof {
                prev.lemma_filter_push(command, pred);
                assert(all@.take(k + 1) =~= prev.push(command));
            }
            k += 1;
        }
        proof {
            assert(all@.take(all@.len() as int) =~= all@);
        }
        selected
    }
}

/// Selects the channels a run works on.
fn select_channels(chosen: &Vec<Channel>, take_all: bool) -> (selected: Vec<Channel>)
    ensures
        selected@ == spec_selected(
            Channel::spec_all_channels(),
            Channel::spec_all_channels(),
            take_all,
            chosen@,
        ),
{
    if take_all {
        Channel::all_channels()
    } else if chosen.len() == 0 {
        Channel::default_channels()
    } else {
        let ghost pred = |channel: Channel| chosen@.contains(channel);
        let all = Channel::all_channels();
        let mut selected: Vec<Channel> = Vec::new();
        let mut k: usize = 0;
        while k < all.len()
            invariant
                k <= all@.len(),
                all@ == Channel::spec_all_channels(),
                selected@ == all@.take(k as int).filter(pred),
                pred == (|channel: Channel| chosen@.contains(channel)),
            decreases all@.len() - k,
        {
            let channel = all[k];
            let ghost prev = all@.take(k as int);
            if contains_channel(chosen, channel) {
                selected.push(channel);
                proof {
                    assert(selected@ == prev.filter(pred).push(channel));
                }
            }
            proof {
                prev.lemma_filter_push(channel, pred);
                assert(all@.take(k + 1) =~= prev.push(channel));
            }
            k += 1;
        }
        proof {
            assert(all@.take(all@.len() as int) =~= all@);
        }
        selected
    }
}

/// Selects the targets a run works on.
fn select_targets(chosen: &Vec<Target>, take_all: bool) -> (selected: Vec<Target>)
    ensures
        selected@ == spec_selected_targets(take_all, chosen@),
{
    if take_all {
        Target::all_targets()
    } else if chosen.len() == 0 {
        Target::default_targets()
    } else {
        let ghost pred = |target: Target| spec_target_chosen(chosen@, target);
        let all = Target::all_targets();
        let mut selected: Vec<Target> = Vec::new();
        let mut k: usize = 0;
        while k < all.len()
            invariant
                k <= all@.len(),
                all@ == Target::spec_all_targets(),
                selected@ == all@.take(k as int).filter(pred),
                pred == (|target: Target| spec_target_chosen(chosen@, target)),
            decreases all@.len() - k,
        {
            let target = all[k].clone();
            proof {
                assert(all@[k as int].matches_spec(&target) ==> target == all@[k as int]);
            }
            let ghost prev = all@.take(k as int);
            if contains_target(chosen, &target) {
                selected.push(target);
                proof {
                    assert(selected@ == prev.filter(pred).push(target));
                }
            }
            proof {
                prev.lemma_filter_push(target, pred);
                assert(all@.take(k + 1) =~= prev.push(target));
            }
            k += 1;
        }
        proof {
            assert(all@.take(all@.len() as int) =~= all@);
        }
        selected
    }
}

/// Selects the packages a run works on.
fn select_packages(chosen: &Vec<Package>, take_all: bool) -> (selected: Vec<Package>)
    ensures
        selected@ == spec_selected(
            Package::spec_all_packages(),
            Package::spec_all_packages(),
            take_all,
            chosen@,
        ),
{
    if take_all {
        Package::all_packages()
    } else if chosen.len() == 0 {
        Package::default_packages()
    } else {
        let ghost pred = |package: Package| chosen@.contains(package);
        let all = Package::all_packages();
        let mut selected: Vec<Package> = Vec::new();
        let mut k: usize = 0;
        while k < all.len()
            invariant
                k <= all@.len(),
                all@ == Package::spec_all_packages(),
                selected@ == all@.take(k as int).filter(pred),
                pred == (|package: Package| chosen@.contains(package)),
            decreases all@.len() - k,
        {
            let package = all[k];
            let ghost prev = all@.take(k as int);
            if contains_package(chosen, package) {
                selected.push(package);
                proof {
                    assert(selected@ == prev.filter(pred).push(package));
                }
            }
            proof {
                prev.lemma_filter_push(package, pred);
                assert(all@.take(k + 1) =~= prev.push(package));
            }
            k += 1;
        }
        proof {
            assert(all@.take(all@.len() as int) =~= all@);
        }
        selected
    }
}

/// The tool's parsed command line: which commands to run, on which channels,
/// targets and packages, the mode switches, and anything after `--`, which
/// is passed on to the inner command.
#[derive(Debug)]
pub struct ParsedArgs {
    pub commands: Vec<CargoCommand>,
    pub channels: Vec<Channel>,
    pub targets: Vec<Target>,
    pub packages: Vec<Package>,
    pub on_save: bool,
    pub no_cache: bool,
    pub trailing_args: Vec<String>,
}

impl ParsedArgs {
    /// Parses the argument list (without the program's own name).
    ///
    /// Arguments are additive: `--command` arguments and `--all-commands`
    /// add together. The raw record is read exactly as [`spec_parse_raw`]
    /// describes, and each selection is then completed as [`spec_selected`]
    /// and [`spec_selected_targets`] describe: `all` wins over named
    /// choices, named choices win over the default.
    pub fn try_parse(args: Vec<String>) -> (r: Result<ParsedArgs, ArgsError>)
        ensures
            match spec_parse_raw(args@, RawArgsView::init()) {
                Ok(raw) => {
                    &&& r matches Ok(parsed)
                    &&& parsed.commands@ == spec_selected(
                        CargoCommand::spec_all_commands(),
                        seq![CargoCommand::Clippy],
                        raw.all_commands,
                        raw.commands,
                    )
                    &&& parsed.channels@ == spec_selected(
                        Channel::spec_all_channels(),
                        Channel::spec_all_channels(),
                        raw.all_channels,
                        raw.channels,
                    )
                    &&& parsed.targets@ == spec_selected_targets(raw.all_targets, raw.targets)
                    &&& parsed.packages@ == spec_selected(
                        Package::spec_all_packages(),
                        Package::spec_all_packages(),
                        raw.all_packages,
                        raw.packages,
                    )
                    &&& parsed.on_save == raw.on_save
                    &&& parsed.no_cache == raw.no_cache
                    &&& parsed.trailing_args@ == raw.trailing
                },
                Err(expected) => (r matches Err(e) && e@ == expected),
            },
    {
        let raw = match RawArgs::try_parse(&args) {
            Ok(raw) => raw,
            Err(error) => {
                return Err(error);
            },
        };
        Ok(
            ParsedArgs {
                commands: select_commands(&raw.commands, raw.all_commands),
                channels: select_channels(&raw.channels, raw.all_channels),
                targets: select_targets(&raw.targets, raw.all_targets),
                packages: select_packages(&raw.packages, raw.all_packages),
                on_save: raw.on_save,
                no_cache: raw.no_cache,
                trailing_args: raw.trailing_args,
            },
        )
    }
}

} // verus!
