//! Where an installation keeps its files, for each target platform.
use vstd::prelude::*;
use crate::paths::{extension, extension_spec, file_name, file_name_spec, join_path, join_spec, parent_path, parent_spec};

verus! {

/// Target platform of an installation.
#[derive(Clone, Copy, Debug, PartialEq, Eq, Structural)]
pub enum Platform {
    Windows,
    Linux,
    MacOs,
    Android,
}

/// Whether the regular expression `pattern` compiles.
pub uninterp spec fn regex_accepts(pattern: Seq<char>) -> bool;

/// Whether the compiled `pattern` matches somewhere in `haystack`.
pub uninterp spec fn regex_is_match(pattern: Seq<char>, haystack: Seq<char>) -> bool;

/// Relies on regex::Regex::new, which compiles `pattern` or reports a syntax
/// error, and on regex::Regex::is_match, which tells whether the compiled
/// expression matches somewhere in `haystack`.
#[verifier::external_body]
fn regex_match(pattern: &str, haystack: &str) -> (r: Option<bool>)
    ensures
        r is Some <==> regex_accepts(pattern@),
        r matches Some(b) ==> b == regex_is_match(pattern@, haystack@),
{
    match regex::Regex::new(pattern) {
        Ok(re) => Some(re.is_match(haystack)),
        Err(_) => None,
    }
}

/// Relies on dirs::config_dir: the user's configuration directory, which
/// depends on the environment.
#[verifier::external_body]
fn system_config_dir() -> (r: Option<String>) {
    match dirs::config_dir() {
        Some(p) => Some(p.to_string_lossy().into_owned()),
        None => None,
    }
}

/// Relies on dirs::home_dir: the user's home directory, which depends on the
/// environment.
#[verifier::external_body]
fn system_home_dir() -> (r: Option<String>) {
    match dirs::home_dir() {
        Some(p) => Some(p.to_string_lossy().into_owned()),
        None => None,
    }
}

pub open spec fn exe_suffix(platform: Platform) -> Seq<char> {
    if platform == Platform::Windows { ".exe"@ } else { ""@ }
}

pub open spec fn dynlib_prefix(platform: Platform) -> Seq<char> {
    if platform == Platform::Windows { ""@ } else { "lib"@ }
}

pub open spec fn dynlib_suffix(platform: Platform) -> Seq<char> {
    match platform {
        Platform::Windows => ".dll"@,
        Platform::MacOs => ".dylib"@,
        _ => ".so"@,
    }
}

/// Shared-library file names as the loader of a platform expects them.
pub open spec fn dynlib_pattern(platform: Platform) -> Seq<char> {
    if platform == Platform::MacOs {
        r"^lib([[:word:]]|[-])+(([.]\d+){0,3})[.]dylib$"@
    } else {
        r"^lib([[:word:]]|[-])+[.]so(([.]\d+){0,3})$"@
    }
}

/// File name of executable `name`.
pub fn exec_fname(name: &str, platform: Platform) -> (r: String)
    ensures
        r@ == name@ + exe_suffix(platform),
{
    let s = String::from_str(name);
    match platform {
        Platform::Windows => s.concat(".exe"),
        _ => s.concat(""),
    }
}

/// File name of shared library `name`.
pub fn dynlib_fname(name: &str, platform: Platform) -> (r: String)
    ensures
        r@ == dynlib_prefix(platform) + name@ + dynlib_suffix(platform),
{
    match platform {
        Platform::Windows => String::from_str("").concat(name).concat(".dll"),
        Platform::MacOs => String::from_str("lib").concat(name).concat(".dylib"),
        _ => String::from_str("lib").concat(name).concat(".so"),
    }
}

/// Whether `path` names a shared library: on Windows by its `dll` extension,
/// elsewhere by the platform's library file-name pattern.
pub fn is_dynlib_file(path: &str, platform: Platform) -> (r: bool)
    ensures
        r == (file_name_spec(path@) matches Some(n) && if platform == Platform::Windows {
            extension_spec(n) == Some("dll"@)
        } else {
            regex_accepts(dynlib_pattern(platform)) && regex_is_match(dynlib_pattern(platform), n)
        }),
{
    let name = match file_name(path) {
        None => return false,
        Some(n) => n,
    };
    if platform == Platform::Windows {
        match extension(name.as_str()) {
            None => false,
            Some(ext) => {
                let dll = String::from_str("dll");
                ext == dll
            },
        }
    } else {
        let pattern = if platform == Platform::MacOs {
            r"^lib([[:word:]]|[-])+(([.]\d+){0,3})[.]dylib$"
        } else {
            r"^lib([[:word:]]|[-])+[.]so(([.]\d+){0,3})$"
        };
        match regex_match(pattern, name.as_str()) {
            None => false,
            Some(b) => b,
        }
    }
}

/// Directory of downloaded and built dependencies under workspace `ws`.
pub fn deps_dir(ws: &str) -> (r: String)
    ensures
        r@ == join_spec(ws@, "deps"@),
{
    join_path(ws, "deps")
}

/// Build output directory under workspace `ws`.
pub fn build_dir(ws: &str) -> (r: String)
    ensures
        r@ == join_spec(ws@, "build"@),
{
    join_path(ws, "build")
}

pub open spec fn server_build_name(platform: Platform) -> Seq<char> {
    match platform {
        Platform::Windows => "alvr_server_windows"@,
        Platform::MacOs => "alvr_server_macos"@,
        _ => "alvr_server_linux"@,
    }
}

/// Where the server build is assembled. There is no server for Android.
pub fn server_build_dir(ws: &str, platform: Platform) -> (r: String)
    requires
        platform != Platform::Android,
    ensures
        r@ == join_spec(join_spec(ws@, "build"@), server_build_name(platform)),
{
    let b = build_dir(ws);
    let name = match platform {
        Platform::Windows => "alvr_server_windows",
        Platform::MacOs => "alvr_server_macos",
        _ => "alvr_server_linux",
    };
    join_path(b.as_str(), name)
}

/// Where the Android client build of kind `prefix` is assembled.
pub fn alxr_android_build_dir(ws: &str, prefix: &str) -> (r: String)
    ensures
        r@ == join_spec(join_spec(join_spec(ws@, "build"@), prefix@), "alxr_client_android"@),
{
    let b = build_dir(ws);
    let p = join_path(b.as_str(), prefix);
    join_path(p.as_str(), "alxr_client_android")
}

pub open spec fn client_build_name(platform: Platform, cuda_enabled: bool) -> Seq<char> {
    match platform {
        Platform::Windows => if cuda_enabled { "alxr_client_windows_cuda"@ } else { "alxr_client_windows"@ },
        Platform::MacOs => "alxr_client_macos"@,
        Platform::Android => "alxr_client_android"@,
        Platform::Linux => if cuda_enabled { "alxr_client_linux_cuda"@ } else { "alxr_client_linux"@ },
    }
}

/// Where the desktop client build of kind `prefix` is assembled; CUDA builds
/// get their own directory on Windows and Linux.
pub fn alxr_client_build_dir(ws: &str, prefix: &str, cuda_enabled: bool, platform: Platform) -> (r: String)
    ensures
        r@ == join_spec(join_spec(join_spec(ws@, "build"@), prefix@), client_build_name(platform, cuda_enabled)),
{
    if platform == Platform::Android {
        return alxr_android_build_dir(ws, prefix);
    }
    let name = match platform {
        Platform::Windows => if cuda_enabled { "alxr_client_windows_cuda" } else { "alxr_client_windows" },
        Platform::MacOs => "alxr_client_macos",
        _ => if cuda_enabled { "alxr_client_linux_cuda" } else { "alxr_client_linux" },
    };
    let b = build_dir(ws);
    let p = join_path(b.as_str(), prefix);
    join_path(p.as_str(), name)
}

/// Where the UWP client build of kind `prefix` is assembled.
pub fn alxr_uwp_build_dir(ws: &str, prefix: &str) -> (r: String)
    ensures
        r@ == join_spec(join_spec(join_spec(ws@, "build"@), prefix@), "alxr_client_uwp"@),
{
    let b = build_dir(ws);
    let p = join_path(b.as_str(), prefix);
    join_path(p.as_str(), "alxr_client_uwp")
}


/// Directories an installation may fix at build time; an empty string leaves
/// the platform's default in place.
#[derive(Clone, Debug)]
pub struct LayoutOverrides {
    pub executables_dir: String,
    pub libraries_dir: String,
    pub static_resources_dir: String,
    pub config_dir: String,
    pub log_dir: String,
    pub openvr_driver_root_dir: String,
    pub vrcompositor_wrapper_dir: String,
    pub vulkan_layer_manifest_dir: String,
}

/// How an installation was built: its platform, its fixed root (empty for a
/// portable build, whose root comes from where it runs) and its overrides.
#[derive(Clone, Debug)]
pub struct InstallEnv {
    pub platform: Platform,
    pub root: String,
    pub overrides: LayoutOverrides,
}

/// Layout of an installation. All paths are absolute when the root is.
#[derive(Clone, Debug)]
pub struct Layout {
    pub platform: Platform,
    /// directory containing the launcher executable
    pub executables_dir: String,
    /// directory of the Vulkan layer library (Linux)
    pub libraries_dir: String,
    /// parent directory of resources like the dashboard and presets
    pub static_resources_dir: String,
    /// directory of configuration files
    pub config_dir: String,
    /// directory of logs
    pub log_dir: String,
    /// directory registered as the OpenVR driver path
    pub openvr_driver_root_dir: String,
    /// parent directory of the compositor wrapper executable (Linux)
    pub vrcompositor_wrapper_dir: String,
    /// directory of the Vulkan layer manifest (Linux)
    pub vulkan_layer_manifest_dir: String,
}

pub open spec fn dir_or(over: Seq<char>, default: Seq<char>) -> Seq<char> {
    if over.len() > 0 { over } else { default }
}

/// Windows and macOS keep everything in the root directory.
pub open spec fn is_flat_layout(l: Layout, platform: Platform, root: Seq<char>) -> bool {
    &&& l.platform == platform
    &&& l.executables_dir@ == root
    &&& l.libraries_dir@ == root
    &&& l.static_resources_dir@ == root
    &&& l.config_dir@ == root
    &&& l.log_dir@ == root
    &&& l.openvr_driver_root_dir@ == root
    &&& l.vrcompositor_wrapper_dir@ == root
    &&& l.vulkan_layer_manifest_dir@ == root
}

/// Linux follows the filesystem hierarchy under the root, but for the
/// configuration (under the user's configuration directory) and the logs
/// (in the home directory); overrides win.
pub open spec fn is_fhs_layout(l: Layout, root: Seq<char>, o: LayoutOverrides, config_home: Seq<char>, home: Seq<char>) -> bool {
    &&& is_fhs_under_root(l, root, o)
    &&& l.config_dir@ == dir_or(o.config_dir@, join_spec(config_home, "alvr"@))
    &&& l.log_dir@ == dir_or(o.log_dir@, home)
}

/// The Linux directories that derive from the root or from overrides alone.
pub open spec fn is_fhs_under_root(l: Layout, root: Seq<char>, o: LayoutOverrides) -> bool {
    &&& l.platform == Platform::Linux
    &&& l.executables_dir@ == dir_or(o.executables_dir@, join_spec(root, "bin"@))
    &&& l.libraries_dir@ == dir_or(o.libraries_dir@, join_spec(root, "lib64"@))
    &&& l.static_resources_dir@ == dir_or(o.static_resources_dir@, join_spec(root, "share/alvr"@))
    &&& l.openvr_driver_root_dir@ == dir_or(o.openvr_driver_root_dir@, join_spec(root, "lib64/alvr"@))
    &&& l.vrcompositor_wrapper_dir@ == dir_or(o.vrcompositor_wrapper_dir@, join_spec(root, "libexec/alvr"@))
    &&& l.vulkan_layer_manifest_dir@ == dir_or(o.vulkan_layer_manifest_dir@, join_spec(root, "share/vulkan/explicit_layer.d"@))
}

/// Whether a Linux layout can be made: a directory that is not overridden
/// needs the system's answer.
pub open spec fn fhs_dirs_known(o: LayoutOverrides, config_home: Option<String>, home: Option<String>) -> bool {
    &&& (o.config_dir@.len() == 0 ==> config_home is Some)
    &&& (o.log_dir@.len() == 0 ==> home is Some)
}

pub open spec fn opt_view(s: Option<String>) -> Seq<char> {
    match s {
        Some(v) => v@,
        None => Seq::empty(),
    }
}

fn dir_or_join(over: &String, base: &str, rel: &str) -> (r: String)
    ensures
        r@ == dir_or(over@, join_spec(base@, rel@)),
{
    if over.unicode_len() > 0 {
        over.clone()
    } else {
        join_path(base, rel)
    }
}

impl Layout {
    /// The layout under `root` for the build described by `env`, given what the
    /// system reports as the user's configuration and home directories. `None`
    /// on Android, which has no installation layout, and on Linux when a
    /// directory that is not overridden has no system answer.
    pub fn from_dirs(root: &str, env: &InstallEnv, config_home: Option<String>, home: Option<String>) -> (r: Option<Layout>)
        ensures
            match env.platform {
                Platform::Windows | Platform::MacOs => r matches Some(l) && is_flat_layout(l, env.platform, root@),
                Platform::Android => r is None,
                Platform::Linux => if fhs_dirs_known(env.overrides, config_home, home) {
                    r matches Some(l) && is_fhs_layout(l, root@, env.overrides, opt_view(config_home), opt_view(home))
                } else {
                    r is None
                },
            },
    {
        match env.platform {
            Platform::Windows | Platform::MacOs => {
                let r = String::from_str(root);
                Some(Layout {
                    platform: env.platform,
                    executables_dir: r.clone(),
                    libraries_dir: r.clone(),
                    static_resources_dir: r.clone(),
                    config_dir: r.clone(),
                    log_dir: r.clone(),
                    openvr_driver_root_dir: r.clone(),
                    vrcompositor_wrapper_dir: r.clone(),
                    vulkan_layer_manifest_dir: r,
                })
            },
            Platform::Android => None,
            Platform::Linux => {
                let o = &env.overrides;
                let config_dir = if o.config_dir.unicode_len() > 0 {
                    o.config_dir.clone()
                } else {
                    match &config_home {
                        Some(c) => join_path(c.as_str(), "alvr"),
                        None => return None,
                    }
                };
                let log_dir = if o.log_dir.unicode_len() > 0 {
                    o.log_dir.clone()
                } else {
                    match &home {
                        Some(h) => h.clone(),
                        None => return None,
                    }
                };
                Some(Layout {
                    platform: Platform::Linux,
                    executables_dir: dir_or_join(&o.executables_dir, root, "bin"),
                    libraries_dir: dir_or_join(&o.libraries_dir, root, "lib64"),
                    static_resources_dir: dir_or_join(&o.static_resources_dir, root, "share/alvr"),
                    config_dir,
                    log_dir,
                    openvr_driver_root_dir: dir_or_join(&o.openvr_driver_root_dir, root, "lib64/alvr"),
                    vrcompositor_wrapper_dir: dir_or_join(&o.vrcompositor_wrapper_dir, root, "libexec/alvr"),
                    vulkan_layer_manifest_dir: dir_or_join(&o.vulkan_layer_manifest_dir, root, "share/vulkan/explicit_layer.d"),
                })
            },
        }
    }

    /// The layout under `root`, asking the system for the user's directories.
    pub fn new(root: &str, env: &InstallEnv) -> (r: Option<Layout>)
        ensures
            match env.platform {
                Platform::Windows | Platform::MacOs => r matches Some(l) && is_flat_layout(l, env.platform, root@),
                Platform::Android => r is None,
                Platform::Linux => r matches Some(l) ==> is_fhs_under_root(l, root@, env.overrides),
            },
    {
        if env.platform != Platform::Linux {
            return Layout::from_dirs(root, env, None, None);
        }
        let config_home = system_config_dir();
        let home = system_home_dir();
        Layout::from_dirs(root, env, config_home, home)
    }

    pub open spec fn launcher_name(platform: Platform) -> Seq<char> {
        if platform == Platform::Windows { "ALVR Launcher.exe"@ } else { "alvr_launcher"@ }
    }

    /// The launcher executable. Android has none.
    pub fn launcher_exe(&self) -> (r: String)
        requires
            self.platform != Platform::Android,
        ensures
            r@ == join_spec(self.executables_dir@, Self::launcher_name(self.platform)),
    {
        let exe = if self.platform == Platform::Windows { "ALVR Launcher.exe" } else { "alvr_launcher" };
        join_path(self.executables_dir.as_str(), exe)
    }

    pub fn resources_dir(&self) -> (r: String)
        ensures
            r@ == join_spec(self.openvr_driver_root_dir@, "resources"@),
    {
        join_path(self.openvr_driver_root_dir.as_str(), "resources")
    }

    pub fn dashboard_dir(&self) -> (r: String)
        ensures
            r@ == join_spec(self.static_resources_dir@, "dashboard"@),
    {
        join_path(self.static_resources_dir.as_str(), "dashboard")
    }

    pub fn presets_dir(&self) -> (r: String)
        ensures
            r@ == join_spec(self.static_resources_dir@, "presets"@),
    {
        join_path(self.static_resources_dir.as_str(), "presets")
    }

    /// The session settings file.
    pub fn session(&self) -> (r: String)
        ensures
            r@ == join_spec(self.config_dir@, "session.json"@),
    {
        join_path(self.config_dir.as_str(), "session.json")
    }

    pub open spec fn session_log_name(platform: Platform) -> Seq<char> {
        if platform == Platform::Windows { "session_log.txt"@ } else { "alvr_session_log.txt"@ }
    }

    pub fn session_log(&self) -> (r: String)
        ensures
            r@ == join_spec(self.log_dir@, Self::session_log_name(self.platform)),
    {
        let name = if self.platform == Platform::Windows { "session_log.txt" } else { "alvr_session_log.txt" };
        join_path(self.log_dir.as_str(), name)
    }

    pub fn crash_log(&self) -> (r: String)
        ensures
            r@ == join_spec(self.log_dir@, "crash_log.txt"@),
    {
        join_path(self.log_dir.as_str(), "crash_log.txt")
    }

    pub open spec fn driver_platform_name(platform: Platform) -> Seq<char> {
        match platform {
            Platform::Windows => "win64"@,
            Platform::MacOs => "macos"@,
            _ => "linux64"@,
        }
    }

    /// Directory of the OpenVR driver library. Android has none.
    pub fn openvr_driver_lib_dir(&self) -> (r: String)
        requires
            self.platform != Platform::Android,
        ensures
            r@ == join_spec(join_spec(self.openvr_driver_root_dir@, "bin"@), Self::driver_platform_name(self.platform)),
    {
        let bin = join_path(self.openvr_driver_root_dir.as_str(), "bin");
        let platform = match self.platform {
            Platform::Windows => "win64",
            Platform::MacOs => "macos",
            _ => "linux64",
        };
        join_path(bin.as_str(), platform)
    }

    pub open spec fn driver_lib_name(platform: Platform) -> Seq<char> {
        match platform {
            Platform::Windows => "driver_alvr_server.dll"@,
            Platform::MacOs => "driver_alvr_server.dylib"@,
            _ => "driver_alvr_server.so"@,
        }
    }

    /// The shared library that OpenVR loads. Android has none.
    pub fn openvr_driver_lib(&self) -> (r: String)
        requires
            self.platform != Platform::Android,
        ensures
            r@ == join_spec(
                join_spec(join_spec(self.openvr_driver_root_dir@, "bin"@), Self::driver_platform_name(self.platform)),
                Self::driver_lib_name(self.platform),
            ),
    {
        let dir = self.openvr_driver_lib_dir();
        let name = match self.platform {
            Platform::Windows => "driver_alvr_server.dll",
            Platform::MacOs => "driver_alvr_server.dylib",
            _ => "driver_alvr_server.so",
        };
        join_path(dir.as_str(), name)
    }

    /// The manifest file that OpenVR reads.
    pub fn openvr_driver_manifest(&self) -> (r: String)
        ensures
            r@ == join_spec(self.openvr_driver_root_dir@, "driver.vrdrivermanifest"@),
    {
        join_path(self.openvr_driver_root_dir.as_str(), "driver.vrdrivermanifest")
    }

    pub fn vrcompositor_wrapper(&self) -> (r: String)
        ensures
            r@ == join_spec(self.vrcompositor_wrapper_dir@, "vrcompositor-wrapper"@),
    {
        join_path(self.vrcompositor_wrapper_dir.as_str(), "vrcompositor-wrapper")
    }

    pub fn vulkan_layer(&self) -> (r: String)
        ensures
            r@ == join_spec(self.libraries_dir@, dynlib_prefix(self.platform) + "alvr_vulkan_layer"@ + dynlib_suffix(self.platform)),
    {
        let name = dynlib_fname("alvr_vulkan_layer", self.platform);
        join_path(self.libraries_dir.as_str(), name.as_str())
    }

    pub fn vulkan_layer_manifest(&self) -> (r: String)
        ensures
            r@ == join_spec(self.vulkan_layer_manifest_dir@, "alvr_x86_64.json"@),
    {
        join_path(self.vulkan_layer_manifest_dir.as_str(), "alvr_x86_64.json")
    }
}

/// The root that a portable build derives from a directory inside it: the
/// directory itself on Windows and macOS, its grandparent on Linux.
pub open spec fn portable_root(platform: Platform, dir: Seq<char>) -> Option<Seq<char>> {
    if platform == Platform::Linux {
        match parent_spec(dir) {
            Some(p) => parent_spec(p),
            None => None,
        }
    } else {
        Some(dir)
    }
}

/// What the three constructors below promise: a fixed root wins; otherwise
/// the derived root must exist; the layout is then made as `Layout::new` makes it.
pub open spec fn layout_from_root(env: &InstallEnv, root: Option<Seq<char>>, r: Option<Layout>) -> bool {
    let chosen = if env.root@.len() > 0 { Some(env.root@) } else { root };
    match chosen {
        None => r is None,
        Some(root) => match env.platform {
            Platform::Windows | Platform::MacOs => r matches Some(l) && is_flat_layout(l, env.platform, root),
            Platform::Android => r is None,
            Platform::Linux => r matches Some(l) ==> is_fhs_under_root(l, root, env.overrides),
        },
    }
}

fn portable_root_of(platform: Platform, dir: &str) -> (r: Option<String>)
    ensures
        r matches Some(s) ==> portable_root(platform, dir@) == Some(s@),
        r is None ==> portable_root(platform, dir@) is None,
{
    if platform == Platform::Linux {
        match parent_path(dir) {
            Some(p) => parent_path(p.as_str()),
            None => None,
        }
    } else {
        Some(String::from_str(dir))
    }
}

fn layout_for(env: &InstallEnv, root: Option<String>) -> (r: Option<Layout>)
    ensures
        layout_from_root(env, match root { Some(s) => Some(s@), None => None }, r),
{
    if env.root.unicode_len() > 0 {
        return Layout::new(env.root.as_str(), env);
    }
    match root {
        Some(root) => Layout::new(root.as_str(), env),
        None => None,
    }
}

/// The layout of the installation whose launcher is `path` (the executable
/// file itself). The path decides only for a portable build.
pub fn filesystem_layout_from_launcher_exe(path: &str, env: &InstallEnv) -> (r: Option<Layout>)
    ensures
        layout_from_root(env, match parent_spec(path@) {
            Some(dir) => portable_root(env.platform, dir),
            None => None,
        }, r),
{
    let root = match parent_path(path) {
        Some(dir) => portable_root_of(env.platform, dir.as_str()),
        None => None,
    };
    layout_for(env, root)
}

/// The layout of the installation whose OpenVR driver directory is `dir`. The
/// directory decides only for a portable build.
pub fn filesystem_layout_from_openvr_driver_root_dir(dir: &str, env: &InstallEnv) -> (r: Option<Layout>)
    ensures
        layout_from_root(env, portable_root(env.platform, dir@), r),
{
    let root = portable_root_of(env.platform, dir);
    layout_for(env, root)
}

/// The layout when the running location is unknown: paths relative to an
/// empty root, valid only where overridden or not derived from the root.
pub fn filesystem_layout_from_invalid(env: &InstallEnv) -> (r: Option<Layout>)
    ensures
        layout_from_root(env, Some(Seq::empty()), r),
{
    let empty = String::new();
    assert(empty@ =~= Seq::<char>::empty());
    layout_for(env, Some(empty))
}

} // verus!
