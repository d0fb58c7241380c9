use vstd::prelude::*;

use crate::data::{ArgsError, Channel, str_eq};

verus! {

/// A build-tool command the tool can run over the packages.
#[derive(Debug, Clone, Copy, PartialEq, Eq, Hash, Structural)]
pub enum CargoCommand {
    Check,
    Clippy,
    Test,
}

impl CargoCommand {
    /// Every command, in the order the tool presents them.
    pub open spec fn spec_all_commands() -> Seq<CargoCommand> {
        seq![CargoCommand::Check, CargoCommand::Clippy, CargoCommand::Test]
    }

    /// Every command.
    pub fn all_commands() -> (commands: Vec<CargoCommand>)
        ensures
            commands@ == Self::spec_all_commands(),
    {
        let mut commands: Vec<CargoCommand> = Vec::new();
        commands.push(CargoCommand::Check);
        commands.push(CargoCommand::Clippy);
        commands.push(CargoCommand::Test);
        proof {
            assert(commands@ =~= Self::spec_all_commands());
        }
        commands
    }

    /// The commands used when none is named: `clippy` alone, which runs a
    /// superset of the checks that `check` does.
    pub fn default_commands() -> (commands: Vec<CargoCommand>)
        ensures
            commands@ == seq![CargoCommand::Clippy],
    {
        let mut commands: Vec<CargoCommand> = Vec::new();
        commands.push(CargoCommand::Clippy);
        proof {
            assert(commands@ =~= seq![CargoCommand::Clippy]);
        }
        commands
    }

    /// The command a name denotes, if any: `check`, `clippy` or `test`.
    pub open spec fn spec_command_of(name: Seq<char>) -> Option<CargoCommand> {
        if name == "check"@ {
            Some(CargoCommand::Check)
        } else if name == "clippy"@ {
            Some(CargoCommand::Clippy)
        } else if name == "test"@ {
            Some(CargoCommand::Test)
        } else {
            None
        }
    }

    /// Parses a command name: `check`, `clippy` or `test`. Any other name is
    /// unknown and returned inside the error.
    pub fn parse(command: &str) -> (r: Result<CargoCommand, ArgsError>)
        ensures
            match Self::spec_command_of(command@) {
                Some(parsed) => r == Ok::<CargoCommand, ArgsError>(parsed),
                None => r matches Err(ArgsError::UnknownCommand(name)) && name@ == command@,
            },
    {
        if str_eq(command, "check") {
            Ok(CargoCommand::Check)
        } else if str_eq(command, "clippy") {
            Ok(CargoCommand::Clippy)
        } else if str_eq(command, "test") {
            Ok(CargoCommand::Test)
        } else {
            Err(ArgsError::UnknownCommand(command.to_owned()))
        }
    }

    /// The subcommand name this command passes to the build tool.
    pub open spec fn spec_subcommand(self) -> Seq<char> {
        match self {
            CargoCommand::Check => "check"@,
            CargoCommand::Clippy => "clippy"@,
            CargoCommand::Test => "test"@,
        }
    }

    /// The arguments of the base invocation for this command on the given
    /// channel, in order: the channel selector for the nightly channel, the
    /// subcommand run under `hack` over the feature powerset, and always-on
    /// color output. The caller places them after the build tool's own name
    /// and sets the flags of [`CargoCommand::rust_flags`] in the
    /// environment.
    pub fn base_args(self, channel: Channel) -> (args: Vec<&'static str>)
        ensures
            channel is Stable ==> args@.len() == 5,
            channel is Nightly ==> (args@.len() == 6 && args@[0]@ == "+nightly"@),
            args@[args@.len() - 5]@ == "hack"@,
            args@[args@.len() - 4]@ == self.spec_subcommand(),
            args@[args@.len() - 3]@ == "--feature-powerset"@,
            args@[args@.len() - 2]@ == "--color"@,
            args@[args@.len() - 1]@ == "always"@,
    {
        let mut args: Vec<&'static str> = Vec::new();
        match channel {
            Channel::Stable => {},
            Channel::Nightly => {
                args.push("+nightly");
            },
        }
        args.push("hack");
        match self {
            CargoCommand::Check => {
                args.push("check");
            },
            CargoCommand::Clippy => {
                args.push("clippy");
            },
            CargoCommand::Test => {
                args.push("test");
            },
        }
        args.push("--feature-powerset");
        args.push("--color");
        args.push("always");
        args
    }

    /// The extra compiler flags for this command on the given channel. The
    /// stable channel runs with none; the nightly channel adds the
    /// borrow-checker experiment, and for `clippy` also the gated lints the
    /// tool watches.
    pub fn rust_flags(self, channel: Channel) -> (flags: &'static str)
        ensures
            channel is Stable ==> flags@ == ""@,
            channel is Nightly && !(self is Clippy) ==> flags@ == "-Zpolonius"@,
            channel is Nightly && self is Clippy ==> flags@
                == "-Zpolonius -Zcrate-attr=feature(strict_provenance_lints,multiple_supertrait_upcastable,must_not_suspend,non_exhaustive_omitted_patterns_lint,supertrait_item_shadowing,unqualified_local_imports) -Wfuzzy_provenance_casts -Wlossy_provenance_casts -Wmultiple_supertrait_upcastable -Wmust_not_suspend -Wnon_exhaustive_omitted_patterns -Wsupertrait_item_shadowing_definition -Wsupertrait_item_shadowing_usage -Wunqualified_local_imports"@,
    {
        match (self, channel) {
            (_, Channel::Stable) => "",
            (CargoCommand::Check, Channel::Nightly) | (CargoCommand::Test, Channel::Nightly) => {
                "-Zpolonius"
            },
            (CargoCommand::Clippy, Channel::Nightly) => {
                "-Zpolonius -Zcrate-attr=feature(strict_provenance_lints,multiple_supertrait_upcastable,must_not_suspend,non_exhaustive_omitted_patterns_lint,supertrait_item_shadowing,unqualified_local_imports) -Wfuzzy_provenance_casts -Wlossy_provenance_casts -Wmultiple_supertrait_upcastable -Wmust_not_suspend -Wnon_exhaustive_omitted_patterns -Wsupertrait_item_shadowing_definition -Wsupertrait_item_shadowing_usage -Wunqualified_local_imports"
            },
        }
    }
}

} // verus!
