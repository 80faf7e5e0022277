use onnx_embedding::{check_version, dylib_file_name, resolve, DylibName, FileType, ProvisionError};

#[test]
fn resolve_linux_x86_64() {
    let d = resolve("linux", "x86_64", "1.20.0").unwrap();
    assert_eq!(
        d.url,
        "https://github.com/microsoft/onnxruntime/releases/download/v1.20.0/onnxruntime-linux-x64-1.20.0.tgz"
    );
    assert_eq!(d.package_name, "onnxruntime-linux-x64-1.20.0");
    assert_eq!(d.archive_ext, "tgz");
    assert!(matches!(d.dylib_name, DylibName::So));
    assert!(matches!(d.file_type, FileType::Tgz));
}

#[test]
fn resolve_linux_aarch64() {
    let d = resolve("linux", "aarch64", "1.20.0").unwrap();
    assert_eq!(
        d.url,
        "https://github.com/microsoft/onnxruntime/releases/download/v1.20.0/onnxruntime-linux-aarch64-1.20.0.tgz"
    );
    assert_eq!(d.package_name, "onnxruntime-linux-aarch64-1.20.0");
    assert!(matches!(d.dylib_name, DylibName::So));
    assert!(matches!(d.file_type, FileType::Tgz));
}

#[test]
fn resolve_macos_x86_64() {
    let d = resolve("macos", "x86_64", "1.20.0").unwrap();
    assert_eq!(
        d.url,
        "https://github.com/microsoft/onnxruntime/releases/download/v1.20.0/onnxruntime-osx-x86_64-1.20.0.tgz"
    );
    assert_eq!(d.package_name, "onnxruntime-osx-x86_64-1.20.0");
    assert!(matches!(d.dylib_name, DylibName::Dylib));
    assert!(matches!(d.file_type, FileType::Tgz));
}

#[test]
fn resolve_macos_aarch64() {
    let d = resolve("macos", "aarch64", "1.20.0").unwrap();
    assert_eq!(
        d.url,
        "https://github.com/microsoft/onnxruntime/releases/download/v1.20.0/onnxruntime-osx-arm64-1.20.0.tgz"
    );
    assert_eq!(d.package_name, "onnxruntime-osx-arm64-1.20.0");
    assert!(matches!(d.dylib_name, DylibName::Dylib));
    assert!(matches!(d.file_type, FileType::Tgz));
}

#[test]
fn resolve_windows_x86_64() {
    let d = resolve("windows", "x86_64", "1.20.0").unwrap();
    assert_eq!(
        d.url,
        "https://github.com/microsoft/onnxruntime/releases/download/v1.20.0/onnxruntime-win-x64-1.20.0.zip"
    );
    assert_eq!(d.package_name, "onnxruntime-win-x64-1.20.0");
    assert_eq!(d.archive_ext, "zip");
    assert!(matches!(d.dylib_name, DylibName::Dll));
    assert!(matches!(d.file_type, FileType::Zip));
}

#[test]
fn resolve_windows_aarch64() {
    let d = resolve("windows", "aarch64", "1.20.0").unwrap();
    assert_eq!(
        d.url,
        "https://github.com/microsoft/onnxruntime/releases/download/v1.20.0/onnxruntime-win-arm64-1.20.0.zip"
    );
    assert!(matches!(d.dylib_name, DylibName::Dll));
    assert!(matches!(d.file_type, FileType::Zip));
}

#[test]
fn resolved_urls_are_nonempty_and_contain_the_version() {
    let pairs = [
        ("linux", "x86_64"),
        ("linux", "aarch64"),
        ("macos", "x86_64"),
        ("macos", "aarch64"),
        ("windows", "x86_64"),
        ("windows", "aarch64"),
    ];
    for (os, arch) in pairs {
        let d = resolve(os, arch, "1.20.0").unwrap();
        assert!(!d.url.is_empty());
        assert!(d.url.contains("1.20.0"));
        // The version is embedded twice: in the release tag and in the
        // archive file name.
        assert_eq!(d.url.matches("1.20.0").count(), 2);
    }
}

#[test]
fn resolve_rejects_unsupported_pairs() {
    for (os, arch) in [
        ("linux", "riscv64"),
        ("freebsd", "x86_64"),
        ("windows", "i686"),
        ("", ""),
        ("Linux", "x86_64"),
    ] {
        match resolve(os, arch, "1.20.0") {
            Err(ProvisionError::UnsupportedPlatform { os: eo, arch: ea }) => {
                assert_eq!(eo, os);
                assert_eq!(ea, arch);
            }
            _ => panic!("expected UnsupportedPlatform for {} {}", os, arch),
        }
    }
}

#[test]
fn unsupported_platform_message_names_the_pair() {
    let e = resolve("freebsd", "riscv64", "1.20.0").unwrap_err();
    assert_eq!(
        e.describe(),
        "unsupported platform or architecture: freebsd riscv64"
    );
}

#[test]
fn version_allow_list_accepts_only_the_listed_version() {
    assert!(check_version("1.20.0").is_ok());
    match check_version("9.9.9") {
        Err(ProvisionError::UnsupportedVersion { version }) => assert_eq!(version, "9.9.9"),
        _ => panic!("expected UnsupportedVersion"),
    }
    assert!(check_version("1.20").is_err());
    assert!(check_version("").is_err());
}

#[test]
fn unsupported_version_message_lists_the_allowed_versions() {
    let e = check_version("9.9.9").unwrap_err();
    assert_eq!(
        e.describe(),
        "9.9.9 passed in as version, only the following versions are supported: 1.20.0"
    );
}

#[test]
fn dylib_file_names_per_platform() {
    assert_eq!(dylib_file_name(DylibName::So), "libonnxruntime.so");
    assert_eq!(dylib_file_name(DylibName::Dylib), "libonnxruntime.dylib");
    assert_eq!(dylib_file_name(DylibName::Dll), "onnxruntime.dll");
}

#[test]
fn dylib_byte_tags_round_trip() {
    assert_eq!(u8::from(DylibName::So), 1);
    assert_eq!(u8::from(DylibName::Dylib), 2);
    assert_eq!(u8::from(DylibName::Dll), 3);
    assert!(matches!(DylibName::try_from(1u8), Ok(DylibName::So)));
    assert!(matches!(DylibName::try_from(2u8), Ok(DylibName::Dylib)));
    assert!(matches!(DylibName::try_from(3u8), Ok(DylibName::Dll)));
    match DylibName::try_from(4u8) {
        Err(ProvisionError::UnknownLibraryTag { tag }) => assert_eq!(tag, 4),
        _ => panic!("expected UnknownLibraryTag"),
    }
}

#[test]
fn unknown_tag_message_names_the_tag() {
    let e = DylibName::try_from(4u8).unwrap_err();
    assert_eq!(e.describe(), "4 is not a supported library kind tag");
    let e = DylibName::try_from(200u8).unwrap_err();
    assert_eq!(e.describe(), "200 is not a supported library kind tag");
    let e = DylibName::try_from(37u8).unwrap_err();
    assert_eq!(e.describe(), "37 is not a supported library kind tag");
}
