//! Cargo arguments for building the OpenXR client.
use vstd::prelude::*;
use crate::layout::Platform;
use crate::text::{join_seq, join_strs, views_of};

verus! {

/// Options of a client build.
#[derive(Clone, Copy, Debug)]
pub struct AlxBuildFlags {
    pub is_release: bool,
    pub reproducible: bool,
    pub no_nvidia: bool,
    pub bundle_ffmpeg: bool,
    pub fetch_crates: bool,
    pub oculus_ext: bool,
}

impl Default for AlxBuildFlags {
    fn default() -> (r: Self)
        ensures
            r.is_release && r.reproducible && r.no_nvidia && r.bundle_ffmpeg,
            !r.fetch_crates && !r.oculus_ext,
    {
        AlxBuildFlags {
            is_release: true,
            reproducible: true,
            no_nvidia: true,
            bundle_ffmpeg: true,
            fetch_crates: false,
            oculus_ext: false,
        }
    }
}

/// `[s]` when `on`, else nothing.
pub open spec fn when(on: bool, s: Seq<char>) -> Seq<Seq<char>> {
    if on { seq![s] } else { Seq::empty() }
}

/// Cargo features that the flags turn on for `platform`.
pub open spec fn build_features(f: AlxBuildFlags, platform: Platform) -> Seq<Seq<char>> {
    when(platform == Platform::Linux && f.bundle_ffmpeg, "bundled-ffmpeg"@)
        + when(!f.no_nvidia, "cuda-interop"@)
        + when(platform == Platform::Windows && f.oculus_ext, "oculus-ext-headers"@)
}

/// Cargo options that the flags turn on.
pub open spec fn build_options(f: AlxBuildFlags) -> Seq<Seq<char>> {
    when(f.is_release, "--release"@) + when(f.reproducible, "--offline --locked"@)
}

/// The options separated by spaces, then `--features` with the features
/// separated by commas, when there are any.
pub open spec fn build_string(f: AlxBuildFlags, platform: Platform) -> Seq<char> {
    let options = join_seq(build_options(f), " "@);
    let features = join_seq(build_features(f, platform), ","@);
    if features.len() > 0 {
        (if options.len() > 0 { options + " "@ } else { options }) + "--features "@ + features
    } else {
        options
    }
}

fn push_when(v: &mut Vec<&'static str>, on: bool, s: &'static str)
    ensures
        views_of(final(v)@) == views_of(old(v)@) + when(on, s@),
{
    if on {
        v.push(s);
        assert(views_of(v@) =~= views_of(old(v)@) + seq![s@]);
    } else {
        assert(views_of(old(v)@) + when(on, s@) =~= views_of(old(v)@));
    }
}

impl AlxBuildFlags {
    /// The arguments to hand to cargo for these flags on `platform`.
    pub fn make_build_string(&self, platform: Platform) -> (r: String)
        ensures
            r@ == build_string(*self, platform),
    {
        let mut features: Vec<&'static str> = Vec::new();
        assert(views_of(features@) =~= Seq::<Seq<char>>::empty());
        push_when(&mut features, platform == Platform::Linux && self.bundle_ffmpeg, "bundled-ffmpeg");
        push_when(&mut features, !self.no_nvidia, "cuda-interop");
        push_when(&mut features, platform == Platform::Windows && self.oculus_ext, "oculus-ext-headers");
        assert(views_of(features@) =~= build_features(*self, platform));
        let mut options: Vec<&'static str> = Vec::new();
        assert(views_of(options@) =~= Seq::<Seq<char>>::empty());
        push_when(&mut options, self.is_release, "--release");
        push_when(&mut options, self.reproducible, "--offline --locked");
        assert(views_of(options@) =~= build_options(*self));
        let features = join_strs(&features, ",");
        let mut build_str = join_strs(&options, " ");
        if features.unicode_len() > 0 {
            if build_str.unicode_len() > 0 {
                build_str.append(" ");
            }
            build_str.append("--features ");
            build_str.append(features.as_str());
        }
        build_str
    }
}

/// Processor architecture of a UWP package.
#[derive(Clone, Copy, Debug, PartialEq, Eq, Structural)]
pub enum UWPArch {
    X86_64,
    Aarch64,
}

impl UWPArch {
    /// The architecture as a Rust target names it.
    pub fn name(&self) -> (r: &'static str)
        ensures
            r@ == match *self {
                UWPArch::X86_64 => "x86_64"@,
                UWPArch::Aarch64 => "aarch64"@,
            },
    {
        match self {
            UWPArch::X86_64 => "x86_64",
            UWPArch::Aarch64 => "aarch64",
        }
    }
}

/// The architecture as the UWP packaging script names it.
pub fn batch_arch_str(arch: UWPArch) -> (r: &'static str)
    ensures
        r@ == match arch {
            UWPArch::X86_64 => "x64"@,
            UWPArch::Aarch64 => "arm64"@,
        },
{
    match arch {
        UWPArch::X86_64 => "x64",
        UWPArch::Aarch64 => "arm64",
    }
}

/// Vendor variant of the Android client.
#[derive(Clone, Copy, Debug, PartialEq, Eq, Structural)]
pub enum AndroidFlavor {
    Generic,
    /// Quest 1 or 2
    OculusQuest,
    /// Pico with PUI 5.2 or later
    Pico,
    /// Pico with PUI from 4.7 up to 5.2
    PicoV4,
}

/// Sub-directory of the variant's package and build output; the generic
/// variant has none.
pub fn android_flavor_dir(flavor: AndroidFlavor) -> (r: &'static str)
    ensures
        r@ == match flavor {
            AndroidFlavor::OculusQuest => "quest"@,
            AndroidFlavor::Pico => "pico"@,
            AndroidFlavor::PicoV4 => "pico-v4"@,
            AndroidFlavor::Generic => ""@,
        },
{
    match flavor {
        AndroidFlavor::OculusQuest => "quest",
        AndroidFlavor::Pico => "pico",
        AndroidFlavor::PicoV4 => "pico-v4",
        AndroidFlavor::Generic => "",
    }
}

} // verus!
