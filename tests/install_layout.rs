use alxr_common::build_flags::{android_flavor_dir, batch_arch_str, AlxBuildFlags, AndroidFlavor, UWPArch};
use alxr_common::layout::{
    alxr_android_build_dir, alxr_client_build_dir, alxr_uwp_build_dir, build_dir, deps_dir,
    dynlib_fname, exec_fname, filesystem_layout_from_invalid, filesystem_layout_from_launcher_exe,
    filesystem_layout_from_openvr_driver_root_dir, is_dynlib_file, server_build_dir, InstallEnv,
    Layout, LayoutOverrides, Platform,
};
use alxr_common::paths::{extension, file_name, join_path, parent_path};
use alxr_common::version::{alxr_version, split_string, version};

fn no_overrides() -> LayoutOverrides {
    LayoutOverrides {
        executables_dir: String::new(),
        libraries_dir: String::new(),
        static_resources_dir: String::new(),
        config_dir: String::new(),
        log_dir: String::new(),
        openvr_driver_root_dir: String::new(),
        vrcompositor_wrapper_dir: String::new(),
        vulkan_layer_manifest_dir: String::new(),
    }
}

fn env(platform: Platform) -> InstallEnv {
    InstallEnv { platform, root: String::new(), overrides: no_overrides() }
}

#[test]
fn paths_join_and_split() {
    assert_eq!(join_path("a", "b"), "a/b");
    assert_eq!(join_path("a/", "b"), "a/b");
    assert_eq!(join_path("", "b"), "b");
    assert_eq!(join_path("a", "/b"), "/b");
    assert_eq!(parent_path("/opt/alvr/bin/alvr_launcher"), Some("/opt/alvr/bin".to_string()));
    assert_eq!(parent_path("x"), Some(String::new()));
    assert_eq!(parent_path("/x"), Some("/".to_string()));
    assert_eq!(parent_path("/"), None);
    assert_eq!(parent_path(""), None);
    assert_eq!(file_name("a/b.txt"), Some("b.txt".to_string()));
    assert_eq!(file_name("a/"), None);
    assert_eq!(extension("b.tar.gz"), Some("gz".to_string()));
    assert_eq!(extension(".hidden"), None);
    assert_eq!(extension("plain"), None);
}

#[test]
fn file_names_per_platform() {
    assert_eq!(exec_fname("alvr_installer", Platform::Windows), "alvr_installer.exe");
    assert_eq!(exec_fname("alvr_installer", Platform::Linux), "alvr_installer");
    assert_eq!(dynlib_fname("x", Platform::Windows), "x.dll");
    assert_eq!(dynlib_fname("x", Platform::Linux), "libx.so");
    assert_eq!(dynlib_fname("x", Platform::MacOs), "libx.dylib");
}

#[test]
fn shared_libraries_are_recognised() {
    assert!(is_dynlib_file("/usr/lib/libavcodec.so.58", Platform::Linux));
    assert!(is_dynlib_file("lib/libfoo-bar.so", Platform::Linux));
    assert!(!is_dynlib_file("lib/foo.so", Platform::Linux));
    assert!(!is_dynlib_file("lib/libfoo.so.1.2.3.4", Platform::Linux));
    assert!(is_dynlib_file("libx.1.2.dylib", Platform::MacOs));
    assert!(!is_dynlib_file("libx.so", Platform::MacOs));
    assert!(is_dynlib_file("C:/bin/avcodec-58.dll", Platform::Windows));
    assert!(!is_dynlib_file("C:/bin/avcodec.exe", Platform::Windows));
    assert!(!is_dynlib_file("dir/", Platform::Linux));
}

#[test]
fn build_directories() {
    assert_eq!(deps_dir("/ws"), "/ws/deps");
    assert_eq!(build_dir("/ws"), "/ws/build");
    assert_eq!(server_build_dir("/ws", Platform::Linux), "/ws/build/alvr_server_linux");
    assert_eq!(server_build_dir("/ws", Platform::Windows), "/ws/build/alvr_server_windows");
    assert_eq!(alxr_android_build_dir("/ws", "release"), "/ws/build/release/alxr_client_android");
    assert_eq!(
        alxr_client_build_dir("/ws", "debug", true, Platform::Linux),
        "/ws/build/debug/alxr_client_linux_cuda"
    );
    assert_eq!(
        alxr_client_build_dir("/ws", "debug", true, Platform::MacOs),
        "/ws/build/debug/alxr_client_macos"
    );
    assert_eq!(
        alxr_client_build_dir("/ws", "debug", false, Platform::Android),
        "/ws/build/debug/alxr_client_android"
    );
    assert_eq!(alxr_uwp_build_dir("/ws", "release"), "/ws/build/release/alxr_client_uwp");
}

#[test]
fn windows_layout_is_flat() {
    let l = filesystem_layout_from_launcher_exe("C:/ALVR/ALVR Launcher.exe", &env(Platform::Windows)).unwrap();
    assert_eq!(l.executables_dir, "C:/ALVR");
    assert_eq!(l.config_dir, "C:/ALVR");
    assert_eq!(l.launcher_exe(), "C:/ALVR/ALVR Launcher.exe");
    assert_eq!(l.session(), "C:/ALVR/session.json");
    assert_eq!(l.session_log(), "C:/ALVR/session_log.txt");
    assert_eq!(l.crash_log(), "C:/ALVR/crash_log.txt");
    assert_eq!(l.openvr_driver_lib(), "C:/ALVR/bin/win64/driver_alvr_server.dll");
    assert_eq!(l.vulkan_layer(), "C:/ALVR/alvr_vulkan_layer.dll");
}

#[test]
fn linux_layout_follows_the_hierarchy() {
    let e = env(Platform::Linux);
    let l = Layout::from_dirs("/usr", &e, Some("/home/u/.config".to_string()), Some("/home/u".to_string())).unwrap();
    assert_eq!(l.executables_dir, "/usr/bin");
    assert_eq!(l.libraries_dir, "/usr/lib64");
    assert_eq!(l.config_dir, "/home/u/.config/alvr");
    assert_eq!(l.log_dir, "/home/u");
    assert_eq!(l.launcher_exe(), "/usr/bin/alvr_launcher");
    assert_eq!(l.resources_dir(), "/usr/lib64/alvr/resources");
    assert_eq!(l.dashboard_dir(), "/usr/share/alvr/dashboard");
    assert_eq!(l.presets_dir(), "/usr/share/alvr/presets");
    assert_eq!(l.session_log(), "/home/u/alvr_session_log.txt");
    assert_eq!(l.openvr_driver_lib_dir(), "/usr/lib64/alvr/bin/linux64");
    assert_eq!(l.openvr_driver_lib(), "/usr/lib64/alvr/bin/linux64/driver_alvr_server.so");
    assert_eq!(l.openvr_driver_manifest(), "/usr/lib64/alvr/driver.vrdrivermanifest");
    assert_eq!(l.vrcompositor_wrapper(), "/usr/libexec/alvr/vrcompositor-wrapper");
    assert_eq!(l.vulkan_layer(), "/usr/lib64/libalvr_vulkan_layer.so");
    assert_eq!(l.vulkan_layer_manifest(), "/usr/share/vulkan/explicit_layer.d/alvr_x86_64.json");
    assert!(Layout::from_dirs("/usr", &e, None, Some("/h".to_string())).is_none());
}

#[test]
fn linux_overrides_win() {
    let mut e = env(Platform::Linux);
    e.overrides.config_dir = "/etc/alvr".to_string();
    e.overrides.log_dir = "/var/log/alvr".to_string();
    e.overrides.executables_dir = "/opt/bin".to_string();
    let l = Layout::from_dirs("/usr", &e, None, None).unwrap();
    assert_eq!(l.config_dir, "/etc/alvr");
    assert_eq!(l.log_dir, "/var/log/alvr");
    assert_eq!(l.executables_dir, "/opt/bin");
    let d = filesystem_layout_from_openvr_driver_root_dir("/usr/lib64/alvr", &e).unwrap();
    assert_eq!(d.executables_dir, "/opt/bin");
    assert_eq!(d.libraries_dir, "/usr/lib64");
}

#[test]
fn fixed_root_wins_and_android_has_no_layout() {
    let mut e = env(Platform::MacOs);
    e.root = "/Applications/ALVR".to_string();
    let l = filesystem_layout_from_launcher_exe("/elsewhere/alvr_launcher", &e).unwrap();
    assert_eq!(l.executables_dir, "/Applications/ALVR");
    assert!(filesystem_layout_from_invalid(&env(Platform::Android)).is_none());
    let w = filesystem_layout_from_invalid(&env(Platform::Windows)).unwrap();
    assert_eq!(w.session(), "session.json");
    assert!(filesystem_layout_from_launcher_exe("", &env(Platform::Windows)).is_none());
}

#[test]
fn layout_new_asks_the_system_on_linux() {
    let l = Layout::new("/usr", &env(Platform::Linux));
    if let Some(l) = l {
        assert_eq!(l.executables_dir, "/usr/bin");
        assert!(l.config_dir.ends_with("/alvr"));
    }
    let w = Layout::new("D:/x", &env(Platform::Windows)).unwrap();
    assert_eq!(w.log_dir, "D:/x");
}

#[test]
fn manifest_versions() {
    let manifest = "[package]\nname = \"alvr_common\"\nversion = \"18.2.3\"\nedition = \"2021\"\n";
    assert_eq!(version(manifest), Some("18.2.3".to_string()));
    assert_eq!(alxr_version("version = \"0.9.0\""), Some("0.9.0".to_string()));
    assert_eq!(version("name = \"x\""), None);
    assert_eq!(
        split_string("a=[b]c", "=[", ']'),
        Some(("a=[".to_string(), "b".to_string(), "]c".to_string()))
    );
    assert_eq!(split_string("a=[b", "=[", ']'), None);
    assert_eq!(
        split_string("1.2-rc1", "", '-'),
        Some((String::new(), "1.2".to_string(), "-rc1".to_string()))
    );
}

#[test]
fn build_strings() {
    let d = AlxBuildFlags::default();
    assert_eq!(d.make_build_string(Platform::Linux), "--release --offline --locked --features bundled-ffmpeg");
    assert_eq!(d.make_build_string(Platform::Windows), "--release --offline --locked");
    let f = AlxBuildFlags {
        is_release: false,
        reproducible: false,
        no_nvidia: false,
        bundle_ffmpeg: false,
        fetch_crates: false,
        oculus_ext: true,
    };
    assert_eq!(f.make_build_string(Platform::Windows), "--features cuda-interop,oculus-ext-headers");
    let none = AlxBuildFlags { no_nvidia: true, ..f };
    assert_eq!(none.make_build_string(Platform::Linux), "");
}

#[test]
fn architecture_and_flavor_names() {
    assert_eq!(UWPArch::X86_64.name(), "x86_64");
    assert_eq!(UWPArch::Aarch64.name(), "aarch64");
    assert_eq!(batch_arch_str(UWPArch::X86_64), "x64");
    assert_eq!(batch_arch_str(UWPArch::Aarch64), "arm64");
    assert_eq!(android_flavor_dir(AndroidFlavor::OculusQuest), "quest");
    assert_eq!(android_flavor_dir(AndroidFlavor::PicoV4), "pico-v4");
    assert_eq!(android_flavor_dir(AndroidFlavor::Generic), "");
}
