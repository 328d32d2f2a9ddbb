//! The platform that the compiler generates code for, and how it is chosen
//! from what is known about the host.

use vstd::prelude::*;
use vstd::string::StringExecFns;

verus! {

/// The processor architecture of a target.
#[allow(non_camel_case_types)]
#[derive(Clone, Copy, Debug, PartialEq, Eq, Structural)]
pub enum Arch {
    x86_32,
    x86_64,
}

impl Arch {
    /// The name of the architecture as it is shown to the user.
    pub open spec fn name_text(self) -> Seq<char> {
        match self {
            Arch::x86_32 => "x86-32"@,
            Arch::x86_64 => "x86-64"@,
        }
    }

    /// The name of the architecture as it is shown to the user.
    pub fn name(&self) -> (s: &'static str)
        ensures
            s@ == self.name_text(),
    {
        match self {
            Arch::x86_32 => "x86-32",
            Arch::x86_64 => "x86-64",
        }
    }

    /// Tells the architecture from the width of a pointer in bits, where
    /// the width is known and is one that the compiler has a target for.
    pub fn detect(pointer_width: Option<u32>) -> (arch: Option<Arch>)
        ensures
            arch == detected_arch(pointer_width),
    {
        match pointer_width {
            Some(32) => Some(Arch::x86_32),
            Some(64) => Some(Arch::x86_64),
            _ => None,
        }
    }
}

/// The family of operating systems of a target.
#[derive(Clone, Copy, Debug, PartialEq, Eq, Structural)]
pub enum PlatformName {
    Linux,
    Bsd,
    Windows,
    MacOs,
}

impl PlatformName {
    /// The name of the family as it is shown to the user.
    pub open spec fn name_text(self) -> Seq<char> {
        match self {
            PlatformName::Linux => "Linux"@,
            PlatformName::Bsd => "BSD"@,
            PlatformName::Windows => "Windows"@,
            PlatformName::MacOs => "macOS"@,
        }
    }

    /// The name of the family as it is shown to the user.
    pub fn name(&self) -> (s: &'static str)
        ensures
            s@ == self.name_text(),
    {
        match self {
            PlatformName::Linux => "Linux",
            PlatformName::Bsd => "BSD",
            PlatformName::Windows => "Windows",
            PlatformName::MacOs => "macOS",
        }
    }

    /// Tells the family from the signals of the host, where it raises any.
    pub fn detect(os: &OsSignals) -> (name: Option<PlatformName>)
        ensures
            name == detected_platform_name(*os),
    {
        if os.freebsd || os.dragonfly || os.openbsd || os.netbsd {
            Some(PlatformName::Bsd)
        } else if os.linux {
            Some(PlatformName::Linux)
        } else if os.windows {
            Some(PlatformName::Windows)
        } else if os.macos {
            Some(PlatformName::MacOs)
        } else {
            None
        }
    }
}

/// Which operating systems the host reports itself to be. Each field is one
/// yes-or-no signal; nothing stops a host from raising none of them.
#[derive(Clone, Copy, Debug, PartialEq, Eq, Structural)]
pub struct OsSignals {
    pub freebsd: bool,
    pub dragonfly: bool,
    pub openbsd: bool,
    pub netbsd: bool,
    pub linux: bool,
    pub windows: bool,
    pub macos: bool,
}

/// What is known about the host when the target is chosen.
#[derive(Clone, Copy, Debug, PartialEq, Eq, Structural)]
pub struct HostSignals {
    pub os: OsSignals,
    /// The width of a pointer in bits, where the host tells it.
    pub pointer_width: Option<u32>,
}

/// The family that the signals point to: one of the BSDs before Linux,
/// Linux before Windows, Windows before macOS; `None` where no signal is
/// raised.
pub open spec fn detected_platform_name(os: OsSignals) -> Option<PlatformName> {
    if os.freebsd || os.dragonfly || os.openbsd || os.netbsd {
        Some(PlatformName::Bsd)
    } else if os.linux {
        Some(PlatformName::Linux)
    } else if os.windows {
        Some(PlatformName::Windows)
    } else if os.macos {
        Some(PlatformName::MacOs)
    } else {
        None
    }
}

/// The architecture that a pointer width points to; `None` where the width
/// is unknown or is neither 32 nor 64.
pub open spec fn detected_arch(pointer_width: Option<u32>) -> Option<Arch> {
    match pointer_width {
        Some(width) => if width == 32 {
            Some(Arch::x86_32)
        } else if width == 64 {
            Some(Arch::x86_64)
        } else {
            None
        },
        None => None,
    }
}

/// Something that the user should be told about how the target was chosen.
/// It is no error: compilation goes on with the assumed value.
#[derive(Clone, Copy, Debug, PartialEq, Eq, Structural)]
pub enum PlatformWarning {
    /// No operating system was recognised; the given one is assumed.
    UnknownOs(PlatformName),
    /// No architecture was recognised; the given one is assumed.
    UnknownArch(Arch),
}

impl PlatformWarning {
    /// The text of the warning.
    pub open spec fn message_text(self) -> Seq<char> {
        match self {
            PlatformWarning::UnknownOs(assumed) =>
                "Failed to determine the native OS. Assuming it's "@ + assumed.name_text(),
            PlatformWarning::UnknownArch(assumed) =>
                "Failed to determine the native architecture. Assuming it's "@
                    + assumed.name_text(),
        }
    }

    /// Renders the warning as a line for the user.
    pub fn message(&self) -> (s: String)
        ensures
            s@ == self.message_text(),
    {
        match self {
            PlatformWarning::UnknownOs(assumed) => String::from_str(
                "Failed to determine the native OS. Assuming it's ",
            ).concat(assumed.name()),
            PlatformWarning::UnknownArch(assumed) => String::from_str(
                "Failed to determine the native architecture. Assuming it's ",
            ).concat(assumed.name()),
        }
    }
}

/// A target: an operating system family and an architecture. Both are
/// always known; there is no "unknown" target.
#[derive(Clone, Copy, Debug, PartialEq, Eq, Structural)]
pub struct TargetPlatform {
    pub platform_name: PlatformName,
    pub arch: Arch,
}

impl TargetPlatform {
    /// The target that is assumed where nothing else is known.
    pub open spec fn default_target() -> TargetPlatform {
        TargetPlatform { platform_name: PlatformName::Linux, arch: Arch::x86_64 }
    }

    /// The target that `signals` lead to. The family and the architecture
    /// are found apart from each other, and each falls back to that of
    /// the default target by itself.
    pub open spec fn native_target(signals: HostSignals) -> TargetPlatform {
        TargetPlatform {
            platform_name: match detected_platform_name(signals.os) {
                Some(name) => name,
                None => Self::default_target().platform_name,
            },
            arch: match detected_arch(signals.pointer_width) {
                Some(arch) => arch,
                None => Self::default_target().arch,
            },
        }
    }

    /// The warnings that go with `native_target`: one for the family, then
    /// one for the architecture, each only where the default was taken.
    pub open spec fn native_warnings(signals: HostSignals) -> Seq<PlatformWarning> {
        let os_part = if detected_platform_name(signals.os) is None {
            seq![PlatformWarning::UnknownOs(Self::default_target().platform_name)]
        } else {
            Seq::<PlatformWarning>::empty()
        };
        let arch_part = if detected_arch(signals.pointer_width) is None {
            seq![PlatformWarning::UnknownArch(Self::default_target().arch)]
        } else {
            Seq::<PlatformWarning>::empty()
        };
        os_part + arch_part
    }

    /// Chooses the target for the host that raised `signals`, and says what
    /// the user is to be told about the choice, in the order in which it is
    /// to be shown. This never fails: what cannot be told from the signals
    /// is taken from the default target, with a warning for each half that
    /// was.
    pub fn native(signals: &HostSignals) -> (choice: (TargetPlatform, Vec<PlatformWarning>))
        ensures
            choice.0 == Self::native_target(*signals),
            choice.1@ == Self::native_warnings(*signals),
    {
        let mut warnings: Vec<PlatformWarning> = Vec::new();
        let platform_name = match PlatformName::detect(&signals.os) {
            Some(name) => name,
            None => {
                let assumed = TargetPlatform::default().platform_name;
                warnings.push(PlatformWarning::UnknownOs(assumed));
                assumed
            },
        };
        let arch = match Arch::detect(signals.pointer_width) {
            Some(arch) => arch,
            None => {
                let assumed = TargetPlatform::default().arch;
                warnings.push(PlatformWarning::UnknownArch(assumed));
                assumed
            },
        };
        assert(warnings@ =~= Self::native_warnings(*signals));
        (TargetPlatform { platform_name, arch }, warnings)
    }
}

/// Each half of the target is chosen by itself: the family from the signals
/// of the operating system alone, the architecture from the pointer width
/// alone. Where one of them cannot be told, that half alone is taken from
/// the default target, and a warning says so.
pub proof fn lemma_native_by_component(signals: HostSignals)
    ensures
        detected_platform_name(signals.os) matches Some(name)
            ==> TargetPlatform::native_target(signals).platform_name == name,
        detected_platform_name(signals.os) is None ==> TargetPlatform::native_target(
            signals,
        ).platform_name == PlatformName::Linux,
        detected_arch(signals.pointer_width) matches Some(arch) ==> TargetPlatform::native_target(
            signals,
        ).arch == arch,
        detected_arch(signals.pointer_width) is None ==> TargetPlatform::native_target(
            signals,
        ).arch == Arch::x86_64,
        detected_platform_name(signals.os) is None <==> TargetPlatform::native_warnings(
            signals,
        ).contains(PlatformWarning::UnknownOs(PlatformName::Linux)),
        detected_arch(signals.pointer_width) is None <==> TargetPlatform::native_warnings(
            signals,
        ).contains(PlatformWarning::UnknownArch(Arch::x86_64)),
{
    let warnings = TargetPlatform::native_warnings(signals);
    if detected_platform_name(signals.os) is None {
        assert(warnings[0] == PlatformWarning::UnknownOs(PlatformName::Linux));
    }
    if detected_arch(signals.pointer_width) is None {
        assert(warnings[warnings.len() - 1] == PlatformWarning::UnknownArch(Arch::x86_64));
    }
}

/// The family that is chosen does not depend on the pointer width, nor the
/// architecture on the signals of the operating system.
pub proof fn lemma_native_halves_are_independent(first: HostSignals, second: HostSignals)
    ensures
        first.os == second.os ==> TargetPlatform::native_target(first).platform_name
            == TargetPlatform::native_target(second).platform_name,
        first.pointer_width == second.pointer_width ==> TargetPlatform::native_target(first).arch
            == TargetPlatform::native_target(second).arch,
{
}

impl Default for TargetPlatform {
    fn default() -> (target: TargetPlatform)
        ensures
            target == TargetPlatform::default_target(),
    {
        TargetPlatform { platform_name: PlatformName::Linux, arch: Arch::x86_64 }
    }
}

/// The switches that every stage of the compiler reads.
#[derive(Clone, Copy, Debug, PartialEq, Eq, Structural)]
pub struct CompilerOptions {
    pub target_platform: TargetPlatform,
}

impl Default for CompilerOptions {
    fn default() -> (options: CompilerOptions)
        ensures
            options.target_platform == (TargetPlatform {
                platform_name: PlatformName::Linux,
                arch: Arch::x86_64,
            }),
    {
        CompilerOptions { target_platform: TargetPlatform::default() }
    }
}

} // verus!
