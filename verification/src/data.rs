use vstd::prelude::*;

use vstd::string::StringExecFns;

verus! {

/// An error from parsing the tool's command-line arguments: each variant
/// carries the text that was not understood, or the flag whose value was
/// missing.
#[derive(Debug)]
pub enum ArgsError {
    /// The value after `--command` names no known command.
    UnknownCommand(String),
    /// The value after `--channel` names no known channel.
    UnknownChannel(String),
    /// The value after `--package` names no known package.
    UnknownPackage(String),
    /// A flag that takes a value was the last argument.
    MissingValue(String),
    /// An argument that is no known flag (and stood before any `--`).
    UnknownArgument(String),
}

/// Compares two string slices by contents.
pub(crate) fn str_eq(a: &str, b: &str) -> (r: bool)
    ensures
        r == (a@ == b@),
{
    let a_owned: String = a.to_owned();
    let b_owned: String = b.to_owned();
    a_owned == b_owned
}

/// A toolchain channel that the tool can run commands on.
#[derive(Debug, Clone, Copy, PartialEq, Eq, Hash, Structural)]
pub enum Channel {
    Stable,
    Nightly,
}

impl Channel {
    /// Every channel, in the order the tool presents them.
    pub open spec fn spec_all_channels() -> Seq<Channel> {
        seq![Channel::Stable, Channel::Nightly]
    }

    /// Every channel.
    pub fn all_channels() -> (channels: Vec<Channel>)
        ensures
            channels@ == Self::spec_all_channels(),
    {
        let mut channels: Vec<Channel> = Vec::new();
        channels.push(Channel::Stable);
        channels.push(Channel::Nightly);
        proof {
            assert(channels@ =~= Self::spec_all_channels());
        }
        channels
    }

    /// The channels used when none is named: every channel.
    pub fn default_channels() -> (channels: Vec<Channel>)
        ensures
            channels@ == Self::spec_all_channels(),
    {
        Self::all_channels()
    }

    /// The channel a name denotes, if any: `stable` or `nightly`.
    pub open spec fn spec_channel_of(name: Seq<char>) -> Option<Channel> {
        if name == "stable"@ {
            Some(Channel::Stable)
        } else if name == "nightly"@ {
            Some(Channel::Nightly)
        } else {
            None
        }
    }

    /// Parses a channel name: `stable` or `nightly`. Any other name is
    /// unknown and returned inside the error.
    pub fn parse(channel: &str) -> (r: Result<Channel, ArgsError>)
        ensures
            match Self::spec_channel_of(channel@) {
                Some(parsed) => r == Ok::<Channel, ArgsError>(parsed),
                None => r matches Err(ArgsError::UnknownChannel(name)) && name@ == channel@,
            },
    {
        if str_eq(channel, "stable") {
            Ok(Channel::Stable)
        } else if str_eq(channel, "nightly") {
            Ok(Channel::Nightly)
        } else {
            Err(ArgsError::UnknownChannel(channel.to_owned()))
        }
    }
}

/// A build target that the tool can run commands for.
#[derive(Debug, Hash)]
pub enum Target {
    Native,
    AppleSilicon,
    Linux,
    Windows,
    Wasm,
    Custom(String),
}

impl Clone for Target {
    fn clone(&self) -> (r: Self)
        ensures
            r.matches_spec(self),
    {
        match self {
            Target::Native => Target::Native,
            Target::AppleSilicon => Target::AppleSilicon,
            Target::Linux => Target::Linux,
            Target::Windows => Target::Windows,
            Target::Wasm => Target::Wasm,
            Target::Custom(triple) => Target::Custom(triple.clone()),
        }
    }
}

impl vstd::std_specs::cmp::PartialEqSpecImpl for Target {
    open spec fn obeys_eq_spec() -> bool {
        true
    }

    open spec fn eq_spec(&self, other: &Self) -> bool {
        self.matches_spec(other)
    }
}

impl PartialEq for Target {
    fn eq(&self, other: &Self) -> bool {
        match (self, other) {
            (Target::Native, Target::Native) => true,
            (Target::AppleSilicon, Target::AppleSilicon) => true,
            (Target::Linux, Target::Linux) => true,
            (Target::Windows, Target::Windows) => true,
            (Target::Wasm, Target::Wasm) => true,
            (Target::Custom(a), Target::Custom(b)) => str_eq(a.as_str(), b.as_str()),
            _ => false,
        }
    }
}

impl Eq for Target {

}

impl Target {
    /// Whether two targets are the same: the same variant, and for custom
    /// targets the same triple text.
    pub open spec fn matches_spec(&self, other: &Target) -> bool {
        match (self, other) {
            (Target::Native, Target::Native) => true,
            (Target::AppleSilicon, Target::AppleSilicon) => true,
            (Target::Linux, Target::Linux) => true,
            (Target::Windows, Target::Windows) => true,
            (Target::Wasm, Target::Wasm) => true,
            (Target::Custom(a), Target::Custom(b)) => a@ == b@,
            _ => false,
        }
    }

    /// The named (non-native, non-custom) targets, in the order the tool
    /// presents them.
    pub open spec fn spec_all_targets() -> Seq<Target> {
        seq![Target::AppleSilicon, Target::Linux, Target::Windows, Target::Wasm]
    }

    /// Every named target.
    pub fn all_targets() -> (targets: Vec<Target>)
        ensures
            targets@ == Self::spec_all_targets(),
    {
        let mut targets: Vec<Target> = Vec::new();
        targets.push(Target::AppleSilicon);
        targets.push(Target::Linux);
        targets.push(Target::Windows);
        targets.push(Target::Wasm);
        proof {
            assert(targets@ =~= Self::spec_all_targets());
        }
        targets
    }

    /// The targets used when none is named.
    pub fn default_targets() -> (targets: Vec<Target>)
        ensures
            targets@ == seq![Target::AppleSilicon, Target::Wasm],
    {
        let mut targets: Vec<Target> = Vec::new();
        targets.push(Target::AppleSilicon);
        targets.push(Target::Wasm);
        proof {
            assert(targets@ =~= seq![Target::AppleSilicon, Target::Wasm]);
        }
        targets
    }

    /// The named target a name denotes, if any. Known aliases and full
    /// triples map to the named targets; any other text denotes a custom
    /// target.
    pub open spec fn spec_named_target_of(name: Seq<char>) -> Option<Target> {
        if name == "native"@ {
            Some(Target::Native)
        } else if name == "apple"@ || name == "apple-silicon"@ || name
            == "aarch64-apple-darwin"@ {
            Some(Target::AppleSilicon)
        } else if name == "linux"@ || name == "x86_64-unknown-linux-gnu"@ {
            Some(Target::Linux)
        } else if name == "windows"@ || name == "x86_64-pc-windows-msvc"@ {
            Some(Target::Windows)
        } else if name == "wasm"@ || name == "wasm32"@ || name == "wasm32-unknown-unknown"@ {
            Some(Target::Wasm)
        } else {
            None
        }
    }

    /// Parses a target name. Known aliases and full triples map to the named
    /// targets; any other text names a custom target and is kept as its
    /// triple.
    pub fn parse(target: String) -> (r: Target)
        ensures
            match Self::spec_named_target_of(target@) {
                Some(named) => r == named,
                None => r == Target::Custom(target),
            },
    {
        if str_eq(target.as_str(), "native") {
            Target::Native
        } else if str_eq(target.as_str(), "apple") || str_eq(target.as_str(), "apple-silicon")
            || str_eq(target.as_str(), "aarch64-apple-darwin") {
            Target::AppleSilicon
        } else if str_eq(target.as_str(), "linux") || str_eq(
            target.as_str(),
            "x86_64-unknown-linux-gnu",
        ) {
            Target::Linux
        } else if str_eq(target.as_str(), "windows") || str_eq(
            target.as_str(),
            "x86_64-pc-windows-msvc",
        ) {
            Target::Windows
        } else if str_eq(target.as_str(), "wasm") || str_eq(target.as_str(), "wasm32") || str_eq(
            target.as_str(),
            "wasm32-unknown-unknown",
        ) {
            Target::Wasm
        } else {
            Target::Custom(target)
        }
    }

    /// The target triple passed to the build tool: `None` for the native
    /// target (the platform the compiler runs on), the fixed triple for each
    /// named target, and the kept text for a custom target.
    pub fn target_triple(&self) -> (r: Option<&str>)
        ensures
            self is Native ==> r is None,
            self is AppleSilicon ==> (r matches Some(t) && t@ == "aarch64-apple-darwin"@),
            self is Linux ==> (r matches Some(t) && t@ == "x86_64-unknown-linux-gnu"@),
            self is Windows ==> (r matches Some(t) && t@ == "x86_64-pc-windows-msvc"@),
            self is Wasm ==> (r matches Some(t) && t@ == "wasm32-unknown-unknown"@),
            self matches Target::Custom(triple) ==> (r matches Some(t) && t@ == triple@),
    {
        match self {
            Target::Native => None,
            Target::AppleSilicon => Some("aarch64-apple-darwin"),
            Target::Linux => Some("x86_64-unknown-linux-gnu"),
            Target::Windows => Some("x86_64-pc-windows-msvc"),
            Target::Wasm => Some("wasm32-unknown-unknown"),
            Target::Custom(triple) => Some(triple.as_str()),
        }
    }
}

/// A package of the repository that the tool can run commands on.
#[derive(Debug, Clone, Copy, PartialEq, Eq, Hash, Structural)]
pub enum Package {
    GenericContainer,
    ThreadCheckedMutex,
}

impl Package {
    /// Every package, in the order the tool presents them.
    pub open spec fn spec_all_packages() -> Seq<Package> {
        seq![Package::GenericContainer, Package::ThreadCheckedMutex]
    }

    /// The name of this package.
    pub open spec fn spec_package_name(self) -> Seq<char> {
        match self {
            Package::GenericContainer => "generic-container"@,
            Package::ThreadCheckedMutex => "thread-checked-mutex"@,
        }
    }

    /// Every package.
    pub fn all_packages() -> (packages: Vec<Package>)
        ensures
            packages@ == Self::spec_all_packages(),
    {
        let mut packages: Vec<Package> = Vec::new();
        packages.push(Package::GenericContainer);
        packages.push(Package::ThreadCheckedMutex);
        proof {
            assert(packages@ =~= Self::spec_all_packages());
        }
        packages
    }

    /// The packages used when none is named: every package.
    pub fn default_packages() -> (packages: Vec<Package>)
        ensures
            packages@ == Self::spec_all_packages(),
    {
        Self::all_packages()
    }

    /// The package a name denotes, if any; the `generic-` and
    /// `thread-checked-` prefixes are optional.
    pub open spec fn spec_package_of(name: Seq<char>) -> Option<Package> {
        if name == "container"@ || name == "generic-container"@ {
            Some(Package::GenericContainer)
        } else if name == "mutex"@ || name == "thread-checked-mutex"@ {
            Some(Package::ThreadCheckedMutex)
        } else {
            None
        }
    }

    /// Parses a package name; the `generic-` and `thread-checked-` prefixes
    /// are optional. Any other name is unknown and returned inside the
    /// error.
    pub fn parse(package: &str) -> (r: Result<Package, ArgsError>)
        ensures
            match Self::spec_package_of(package@) {
                Some(parsed) => r == Ok::<Package, ArgsError>(parsed),
                None => r matches Err(ArgsError::UnknownPackage(name)) && name@ == package@,
            },
    {
        if str_eq(package, "container") || str_eq(package, "generic-container") {
            Ok(Package::GenericContainer)
        } else if str_eq(package, "mutex") || str_eq(package, "thread-checked-mutex") {
            Ok(Package::ThreadCheckedMutex)
        } else {
            Err(ArgsError::UnknownPackage(package.to_owned()))
        }
    }

    /// The name of this package.
    pub fn package_name(self) -> (name: &'static str)
        ensures
            name@ == self.spec_package_name(),
    {
        match self {
            Package::GenericContainer => "generic-container",
            Package::ThreadCheckedMutex => "thread-checked-mutex",
        }
    }

    /// The directory of this package, relative to the repository root.
    pub fn package_dir(self) -> (dir: String)
        ensures
            dir@ == "crates/"@ + self.spec_package_name(),
    {
        let mut dir: String = "crates/".to_owned();
        dir.append(self.package_name());
        dir
    }

    /// Everything this package's build outputs depend on: the workspace
    /// manifest and configuration, the tool itself, and the package's own
    /// directory.
    pub fn dependencies(self) -> (deps: Vec<String>)
        ensures
            deps@.len() == 5,
            deps@[0]@ == "Cargo.toml"@,
            deps@[1]@ == "clippy.toml"@,
            deps@[2]@ == "check"@,
            deps@[3]@ == "Justfile"@,
            deps@[4]@ == "crates/"@ + self.spec_package_name(),
    {
        let mut deps: Vec<String> = Vec::new();
        deps.push("Cargo.toml".to_owned());
        deps.push("clippy.toml".to_owned());
        deps.push("check".to_owned());
        deps.push("Justfile".to_owned());
        deps.push(self.package_dir());
        deps
    }

    /// The flags that select this package in an invocation of the build
    /// tool. The channel and target do not change them.
    pub fn flags(self, _channel: Channel, _target: &Target) -> (flags: Vec<&'static str>)
        ensures
            flags@.len() == 2,
            flags@[0]@ == "--package"@,
            flags@[1]@ == self.spec_package_name(),
    {
        let mut flags: Vec<&'static str> = Vec::new();
        flags.push("--package");
        flags.push(self.package_name());
        flags
    }
}

} // verus!
