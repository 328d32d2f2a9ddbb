use blang_config::platform::{
    Arch, CompilerOptions, HostSignals, OsSignals, PlatformName, PlatformWarning, TargetPlatform,
};

fn no_os() -> OsSignals {
    OsSignals {
        freebsd: false,
        dragonfly: false,
        openbsd: false,
        netbsd: false,
        linux: false,
        windows: false,
        macos: false,
    }
}

fn host(os: OsSignals, pointer_width: Option<u32>) -> HostSignals {
    HostSignals { os, pointer_width }
}

#[test]
fn arch_names() {
    assert_eq!(Arch::x86_32.name(), "x86-32");
    assert_eq!(Arch::x86_64.name(), "x86-64");
}

#[test]
fn platform_names() {
    assert_eq!(PlatformName::Linux.name(), "Linux");
    assert_eq!(PlatformName::Bsd.name(), "BSD");
    assert_eq!(PlatformName::Windows.name(), "Windows");
    assert_eq!(PlatformName::MacOs.name(), "macOS");
}

#[test]
fn default_target_is_linux_on_x86_64() {
    let target = TargetPlatform::default();
    assert_eq!(target.platform_name, PlatformName::Linux);
    assert_eq!(target.arch, Arch::x86_64);
}

#[test]
fn default_options_target_linux_on_x86_64() {
    let options = CompilerOptions::default();
    assert_eq!(
        options.target_platform,
        TargetPlatform { platform_name: PlatformName::Linux, arch: Arch::x86_64 }
    );
}

#[test]
fn native_on_linux_64() {
    let (target, warnings) = TargetPlatform::native(&host(OsSignals { linux: true, ..no_os() }, Some(64)));
    assert_eq!(target, TargetPlatform { platform_name: PlatformName::Linux, arch: Arch::x86_64 });
    assert!(warnings.is_empty());
}

#[test]
fn native_on_windows_32() {
    let (target, warnings) =
        TargetPlatform::native(&host(OsSignals { windows: true, ..no_os() }, Some(32)));
    assert_eq!(target, TargetPlatform { platform_name: PlatformName::Windows, arch: Arch::x86_32 });
    assert!(warnings.is_empty());
}

#[test]
fn native_on_macos() {
    let (target, warnings) =
        TargetPlatform::native(&host(OsSignals { macos: true, ..no_os() }, Some(64)));
    assert_eq!(target.platform_name, PlatformName::MacOs);
    assert!(warnings.is_empty());
}

#[test]
fn native_on_each_bsd() {
    let hosts = [
        OsSignals { freebsd: true, ..no_os() },
        OsSignals { dragonfly: true, ..no_os() },
        OsSignals { openbsd: true, ..no_os() },
        OsSignals { netbsd: true, ..no_os() },
    ];
    for os in hosts {
        let (target, warnings) = TargetPlatform::native(&host(os, Some(64)));
        assert_eq!(target.platform_name, PlatformName::Bsd);
        assert!(warnings.is_empty());
    }
}

#[test]
fn native_checks_bsd_before_linux_before_windows_before_macos() {
    let all = OsSignals {
        freebsd: true,
        dragonfly: true,
        openbsd: true,
        netbsd: true,
        linux: true,
        windows: true,
        macos: true,
    };
    assert_eq!(TargetPlatform::native(&host(all, Some(64))).0.platform_name, PlatformName::Bsd);
    let no_bsd = OsSignals { linux: true, windows: true, macos: true, ..no_os() };
    assert_eq!(
        TargetPlatform::native(&host(no_bsd, Some(64))).0.platform_name,
        PlatformName::Linux
    );
    let rest = OsSignals { windows: true, macos: true, ..no_os() };
    assert_eq!(
        TargetPlatform::native(&host(rest, Some(64))).0.platform_name,
        PlatformName::Windows
    );
}

#[test]
fn detection_alone_tells_what_is_known() {
    assert_eq!(PlatformName::detect(&no_os()), None);
    assert_eq!(
        PlatformName::detect(&OsSignals { netbsd: true, linux: true, ..no_os() }),
        Some(PlatformName::Bsd)
    );
    assert_eq!(
        PlatformName::detect(&OsSignals { macos: true, ..no_os() }),
        Some(PlatformName::MacOs)
    );
    assert_eq!(Arch::detect(Some(32)), Some(Arch::x86_32));
    assert_eq!(Arch::detect(Some(64)), Some(Arch::x86_64));
    assert_eq!(Arch::detect(Some(16)), None);
    assert_eq!(Arch::detect(Some(0)), None);
    assert_eq!(Arch::detect(None), None);
}

#[test]
fn native_without_os_signal_assumes_linux_and_warns() {
    let (target, warnings) = TargetPlatform::native(&host(no_os(), Some(32)));
    assert_eq!(target.platform_name, PlatformName::Linux);
    assert_eq!(target.arch, Arch::x86_32);
    assert_eq!(warnings, vec![PlatformWarning::UnknownOs(PlatformName::Linux)]);
    assert_eq!(warnings[0].message(), "Failed to determine the native OS. Assuming it's Linux");
}

#[test]
fn native_with_unrecognized_pointer_width_keeps_the_os() {
    let (target, warnings) =
        TargetPlatform::native(&host(OsSignals { openbsd: true, ..no_os() }, Some(16)));
    assert_eq!(target.platform_name, PlatformName::Bsd);
    assert_eq!(target.arch, Arch::x86_64);
    assert_eq!(warnings, vec![PlatformWarning::UnknownArch(Arch::x86_64)]);
    assert_eq!(
        warnings[0].message(),
        "Failed to determine the native architecture. Assuming it's x86-64"
    );
}

#[test]
fn native_without_pointer_width_assumes_x86_64() {
    let (target, warnings) =
        TargetPlatform::native(&host(OsSignals { windows: true, ..no_os() }, None));
    assert_eq!(target.platform_name, PlatformName::Windows);
    assert_eq!(target.arch, Arch::x86_64);
    assert_eq!(warnings, vec![PlatformWarning::UnknownArch(Arch::x86_64)]);
}

#[test]
fn native_with_nothing_known_is_the_default_with_two_warnings() {
    let (target, warnings) = TargetPlatform::native(&host(no_os(), None));
    assert_eq!(target, TargetPlatform::default());
    assert_eq!(
        warnings,
        vec![
            PlatformWarning::UnknownOs(PlatformName::Linux),
            PlatformWarning::UnknownArch(Arch::x86_64),
        ]
    );
}

#[test]
fn native_is_total_over_all_signal_combinations() {
    let widths = [None, Some(0), Some(16), Some(32), Some(64), Some(128), Some(u32::MAX)];
    for bits in 0u32..128 {
        let os = OsSignals {
            freebsd: bits & 1 != 0,
            dragonfly: bits & 2 != 0,
            openbsd: bits & 4 != 0,
            netbsd: bits & 8 != 0,
            linux: bits & 16 != 0,
            windows: bits & 32 != 0,
            macos: bits & 64 != 0,
        };
        for width in widths {
            let (target, warnings) = TargetPlatform::native(&host(os, width));
            let os_known = bits != 0;
            let arch_known = width == Some(32) || width == Some(64);
            if !os_known {
                assert_eq!(target.platform_name, PlatformName::Linux);
            }
            if !arch_known {
                assert_eq!(target.arch, Arch::x86_64);
            }
            let expected = usize::from(!os_known) + usize::from(!arch_known);
            assert_eq!(warnings.len(), expected);
        }
    }
}

#[test]
fn native_halves_do_not_depend_on_each_other() {
    let os = OsSignals { macos: true, ..no_os() };
    let (a, _) = TargetPlatform::native(&host(os, Some(32)));
    let (b, _) = TargetPlatform::native(&host(os, Some(7)));
    assert_eq!(a.platform_name, b.platform_name);
    let (c, _) = TargetPlatform::native(&host(no_os(), Some(32)));
    assert_eq!(a.arch, c.arch);
}

#[test]
fn warning_messages_name_what_is_assumed() {
    assert_eq!(
        PlatformWarning::UnknownOs(PlatformName::Bsd).message(),
        "Failed to determine the native OS. Assuming it's BSD"
    );
    assert_eq!(
        PlatformWarning::UnknownArch(Arch::x86_32).message(),
        "Failed to determine the native architecture. Assuming it's x86-32"
    );
}
