use alxr_common::text::{decimal_string, parse_u64};
use alxr_common::version::{
    uwp_version, with_cargo_version, with_deb_control_version, with_gradle_version,
    with_rpm_spec_version,
};
use alxr_common::android::wifi_lock_mode;

#[test]
fn decimal_numbers() {
    assert_eq!(parse_u64("0"), Some(0));
    assert_eq!(parse_u64("+42"), Some(42));
    assert_eq!(parse_u64("18446744073709551615"), Some(u64::MAX));
    assert_eq!(parse_u64("18446744073709551616"), None);
    assert_eq!(parse_u64(""), None);
    assert_eq!(parse_u64("+"), None);
    assert_eq!(parse_u64("12a"), None);
    assert_eq!(parse_u64(" 1"), None);
    assert_eq!(decimal_string(0), "0");
    assert_eq!(decimal_string(907), "907");
    assert_eq!(decimal_string(u64::MAX), "18446744073709551615");
}

#[test]
fn cargo_and_deb_versions() {
    assert_eq!(
        with_cargo_version("[package]\nversion = \"1.0.0\"\n", "2.0.0-rc1"),
        Some("[package]\nversion = \"2.0.0-rc1\"\n".to_string())
    );
    assert_eq!(with_cargo_version("[package]\n", "2"), None);
    assert_eq!(
        with_deb_control_version("Package: alvr\nVersion: 1.0\nArch: x\n", "19.0.0"),
        Some("Package: alvr\nVersion: 19.0.0\nArch: x\n".to_string())
    );
}

#[test]
fn rpm_versions() {
    let spec = "Version: 18.0.0\nRelease: 1.0.0\nSource: https://x/archive/refs/tags/v18.0.0.tar.gz\n";
    assert_eq!(
        with_rpm_spec_version(spec, "19.0.0-rc1", false),
        Some("Version: 19.0.0\nRelease: 0.0.1rc1\nSource: https://x/archive/refs/tags/v19.0.0-rc1.tar.gz\n".to_string())
    );
    assert_eq!(
        with_rpm_spec_version(spec, "19.0.0", true),
        Some("Version: 19.0.0\nRelease: 1.0.0\nSource: https://x/archive/refs/tags/v18.0.0.tar.gz\n".to_string())
    );
}

#[test]
fn gradle_versions() {
    let g = "versionCode 41\nversionName \"1.0\"\n";
    assert_eq!(
        with_gradle_version(g, "1.1", false),
        Some("versionCode 42\nversionName \"1.1\"\n".to_string())
    );
    assert_eq!(
        with_gradle_version(g, "1.1", true),
        Some("versionCode 41\nversionName \"1.1\"\n".to_string())
    );
    assert_eq!(with_gradle_version("versionCode x\nversionName \"1\"\n", "2", false), None);
}

#[test]
fn uwp_versions() {
    assert_eq!(uwp_version("0.9.1"), Some("1.9.1".to_string()));
    assert_eq!(uwp_version("18.2.3-dev"), Some("19.2.3-dev".to_string()));
    assert_eq!(uwp_version("18"), None);
    assert_eq!(uwp_version("4294967295.0"), None);
}

#[test]
fn wifi_modes() {
    assert_eq!(wifi_lock_mode(29), 4);
    assert_eq!(wifi_lock_mode(28), 3);
}
