//! Client start-up options: graphics, decoder and colour-space choices read
//! from text, and the options that platform properties override.
use vstd::prelude::*;
use crate::layout::Platform;
use crate::text::{str_eq, trim, trim_of, views_of};

verus! {

#[derive(Clone, Copy, Debug, PartialEq, Eq, Structural)]
pub enum ALXRGraphicsApi {
    Auto,
    Vulkan2,
    Vulkan,
    D3D12,
    D3D11,
    OpenGLES,
    OpenGL,
}

#[derive(Clone, Copy, Debug, PartialEq, Eq, Structural)]
pub enum ALXRDecoderType {
    D311VA,
    NVDEC,
    CUVID,
    VAAPI,
    CPU,
}

#[derive(Clone, Copy, Debug, PartialEq, Eq, Structural)]
pub enum ALXRColorSpace {
    Unmanaged,
    Rec2020,
    Rec709,
    RiftCV1,
    RiftS,
    Quest,
    P3,
    AdobeRgb,
    Default,
}

/// The graphics API a (trimmed) name selects; unknown names select `Auto`.
pub open spec fn graphics_api_named(name: Seq<char>) -> ALXRGraphicsApi {
    if name == "Vulkan2"@ {
        ALXRGraphicsApi::Vulkan2
    } else if name == "Vulkan"@ {
        ALXRGraphicsApi::Vulkan
    } else if name == "D3D12"@ {
        ALXRGraphicsApi::D3D12
    } else if name == "D3D11"@ {
        ALXRGraphicsApi::D3D11
    } else if name == "OpenGLES"@ {
        ALXRGraphicsApi::OpenGLES
    } else if name == "OpenGL"@ {
        ALXRGraphicsApi::OpenGL
    } else {
        ALXRGraphicsApi::Auto
    }
}

/// The decoder a (trimmed) name selects; unknown names select the
/// platform's own (D3D11 video acceleration on Windows, VA-API elsewhere).
pub open spec fn decoder_type_named(name: Seq<char>, platform: Platform) -> ALXRDecoderType {
    if name == "D311VA"@ {
        ALXRDecoderType::D311VA
    } else if name == "NVDEC"@ {
        ALXRDecoderType::NVDEC
    } else if name == "CUVID"@ {
        ALXRDecoderType::CUVID
    } else if name == "VAAPI"@ {
        ALXRDecoderType::VAAPI
    } else if name == "CPU"@ {
        ALXRDecoderType::CPU
    } else if platform == Platform::Windows {
        ALXRDecoderType::D311VA
    } else {
        ALXRDecoderType::VAAPI
    }
}

/// The colour space a (trimmed) name selects; unknown names select Rec. 2020.
pub open spec fn color_space_named(name: Seq<char>) -> ALXRColorSpace {
    if name == "Unmanaged"@ {
        ALXRColorSpace::Unmanaged
    } else if name == "Rec709"@ {
        ALXRColorSpace::Rec709
    } else if name == "RiftCV1"@ {
        ALXRColorSpace::RiftCV1
    } else if name == "RiftS"@ {
        ALXRColorSpace::RiftS
    } else if name == "Quest"@ {
        ALXRColorSpace::Quest
    } else if name == "P3"@ {
        ALXRColorSpace::P3
    } else if name == "AdobeRgb"@ {
        ALXRColorSpace::AdobeRgb
    } else {
        ALXRColorSpace::Rec2020
    }
}

impl<'a> From<&'a str> for ALXRGraphicsApi {
    fn from(input: &'a str) -> (r: ALXRGraphicsApi)
        ensures
            r == graphics_api_named(trim_of(input@)),
    {
        let t = trim(input);
        if str_eq(t, "Vulkan2") {
            ALXRGraphicsApi::Vulkan2
        } else if str_eq(t, "Vulkan") {
            ALXRGraphicsApi::Vulkan
        } else if str_eq(t, "D3D12") {
            ALXRGraphicsApi::D3D12
        } else if str_eq(t, "D3D11") {
            ALXRGraphicsApi::D3D11
        } else if str_eq(t, "OpenGLES") {
            ALXRGraphicsApi::OpenGLES
        } else if str_eq(t, "OpenGL") {
            ALXRGraphicsApi::OpenGL
        } else {
            ALXRGraphicsApi::Auto
        }
    }
}

impl<'a> vstd::std_specs::convert::FromSpecImpl<&'a str> for ALXRGraphicsApi {
    open spec fn obeys_from_spec() -> bool {
        true
    }

    open spec fn from_spec(v: &'a str) -> ALXRGraphicsApi {
        graphics_api_named(trim_of(v@))
    }
}

impl<'a> From<&'a str> for ALXRColorSpace {
    fn from(input: &'a str) -> (r: ALXRColorSpace)
        ensures
            r == color_space_named(trim_of(input@)),
    {
        let t = trim(input);
        if str_eq(t, "Unmanaged") {
            ALXRColorSpace::Unmanaged
        } else if str_eq(t, "Rec709") {
            ALXRColorSpace::Rec709
        } else if str_eq(t, "RiftCV1") {
            ALXRColorSpace::RiftCV1
        } else if str_eq(t, "RiftS") {
            ALXRColorSpace::RiftS
        } else if str_eq(t, "Quest") {
            ALXRColorSpace::Quest
        } else if str_eq(t, "P3") {
            ALXRColorSpace::P3
        } else if str_eq(t, "AdobeRgb") {
            ALXRColorSpace::AdobeRgb
        } else {
            ALXRColorSpace::Rec2020
        }
    }
}

impl<'a> vstd::std_specs::convert::FromSpecImpl<&'a str> for ALXRColorSpace {
    open spec fn obeys_from_spec() -> bool {
        true
    }

    open spec fn from_spec(v: &'a str) -> ALXRColorSpace {
        color_space_named(trim_of(v@))
    }
}

impl ALXRDecoderType {
    /// The decoder that `input` names on `platform`.
    pub fn from_name(input: &str, platform: Platform) -> (r: ALXRDecoderType)
        ensures
            r == decoder_type_named(trim_of(input@), platform),
    {
        let t = trim(input);
        if str_eq(t, "D311VA") {
            ALXRDecoderType::D311VA
        } else if str_eq(t, "NVDEC") {
            ALXRDecoderType::NVDEC
        } else if str_eq(t, "CUVID") {
            ALXRDecoderType::CUVID
        } else if str_eq(t, "VAAPI") {
            ALXRDecoderType::VAAPI
        } else if str_eq(t, "CPU") {
            ALXRDecoderType::CPU
        } else if platform == Platform::Windows {
            ALXRDecoderType::D311VA
        } else {
            ALXRDecoderType::VAAPI
        }
    }
}

/// What `bool::from_str` makes of text: exactly `true` or `false`.
pub open spec fn parse_bool_spec(s: Seq<char>) -> Option<bool> {
    if s == "true"@ {
        Some(true)
    } else if s == "false"@ {
        Some(false)
    } else {
        None
    }
}

pub fn parse_bool(s: &str) -> (r: Option<bool>)
    ensures
        r == parse_bool_spec(s@),
{
    if str_eq(s, "true") {
        Some(true)
    } else if str_eq(s, "false") {
        Some(false)
    } else {
        None
    }
}

/// Start-up options of the client.
#[derive(Clone, Copy, Debug)]
pub struct Options {
    /// the server runs on the same host
    pub localhost: bool,
    pub graphics_api: Option<ALXRGraphicsApi>,
    pub decoder_type: Option<ALXRDecoderType>,
    /// threads for CPU decoding
    pub decoder_thread_count: u32,
    pub color_space: Option<ALXRColorSpace>,
    /// skip sRGB linearization
    pub no_linearize_srgb: bool,
    pub verbose: bool,
    /// no discovery of, nor connection to, a server
    pub no_alvr_server: bool,
    /// no suggested bindings, hence no input
    pub no_bindings: bool,
    /// do not lock the client frame rate to the server's
    pub no_server_framerate_lock: bool,
    pub no_frameskip: bool,
    pub disable_localdimming: bool,
    /// headless session where the runtime supports one
    pub headless_session: bool,
}

/// `value` parsed as a boolean, or `current` when it is not one.
pub open spec fn bool_or(value: Seq<char>, current: bool) -> bool {
    match parse_bool_spec(value) {
        Some(b) => b,
        None => current,
    }
}

/// The options after the platform property `name` was read as `value`;
/// properties that are not known leave them as they are.
pub open spec fn with_property(o: Options, name: Seq<char>, value: Seq<char>) -> Options {
    if name == "debug.alxr.graphicsPlugin"@ {
        Options { graphics_api: Some(graphics_api_named(trim_of(value))), ..o }
    } else if name == "debug.alxr.verbose"@ {
        Options { verbose: bool_or(value, o.verbose), ..o }
    } else if name == "debug.alxr.no_linearize_srgb"@ {
        Options { no_linearize_srgb: bool_or(value, o.no_linearize_srgb), ..o }
    } else if name == "debug.alxr.no_server_framerate_lock"@ {
        Options { no_server_framerate_lock: bool_or(value, o.no_server_framerate_lock), ..o }
    } else if name == "debug.alxr.no_frameskip"@ {
        Options { no_frameskip: bool_or(value, o.no_frameskip), ..o }
    } else if name == "debug.alxr.disable_localdimming"@ {
        Options { disable_localdimming: bool_or(value, o.disable_localdimming), ..o }
    } else if name == "debug.alxr.color_space"@ {
        Options { color_space: Some(color_space_named(trim_of(value))), ..o }
    } else if name == "debug.alxr.headless_session"@ {
        Options { headless_session: bool_or(value, o.headless_session), ..o }
    } else {
        o
    }
}

/// Names of the platform properties that the options read.
pub open spec fn system_property_names_spec() -> Seq<Seq<char>> {
    seq![
        "debug.alxr.graphicsPlugin"@,
        "debug.alxr.verbose"@,
        "debug.alxr.no_linearize_srgb"@,
        "debug.alxr.no_server_framerate_lock"@,
        "debug.alxr.no_frameskip"@,
        "debug.alxr.disable_localdimming"@,
        "debug.alxr.color_space"@,
        "debug.alxr.headless_session"@,
    ]
}

/// The platform properties that the options read, in the order they are read.
pub fn system_property_names() -> (r: Vec<&'static str>)
    ensures
        views_of(r@) == system_property_names_spec(),
{
    let r = vec![
        "debug.alxr.graphicsPlugin",
        "debug.alxr.verbose",
        "debug.alxr.no_linearize_srgb",
        "debug.alxr.no_server_framerate_lock",
        "debug.alxr.no_frameskip",
        "debug.alxr.disable_localdimming",
        "debug.alxr.color_space",
        "debug.alxr.headless_session",
    ];
    assert(views_of(r@) =~= system_property_names_spec());
    r
}

impl Options {
    /// Options on Android before properties are read; `verbose` follows the
    /// build's debug assertions.
    pub fn android_defaults(debug_build: bool) -> (r: Options)
        ensures
            r == Options::android_defaults_spec(debug_build),
    {
        Options {
            localhost: false,
            verbose: debug_build,
            graphics_api: Some(ALXRGraphicsApi::Auto),
            decoder_type: None,
            decoder_thread_count: 0,
            color_space: Some(ALXRColorSpace::Default),
            no_linearize_srgb: false,
            no_alvr_server: false,
            no_bindings: false,
            no_server_framerate_lock: false,
            no_frameskip: false,
            disable_localdimming: false,
            headless_session: false,
        }
    }

    /// Options of a UWP build, which reads no properties.
    pub fn uwp_defaults(debug_build: bool) -> (r: Options)
        ensures
            r == (Options {
                localhost: false,
                verbose: debug_build,
                graphics_api: Some(ALXRGraphicsApi::D3D12),
                decoder_type: Some(ALXRDecoderType::D311VA),
                decoder_thread_count: 0,
                color_space: Some(ALXRColorSpace::Default),
                no_linearize_srgb: false,
                no_alvr_server: false,
                no_bindings: false,
                no_server_framerate_lock: false,
                no_frameskip: false,
                disable_localdimming: false,
                headless_session: false,
            }),
    {
        Options {
            localhost: false,
            verbose: debug_build,
            graphics_api: Some(ALXRGraphicsApi::D3D12),
            decoder_type: Some(ALXRDecoderType::D311VA),
            decoder_thread_count: 0,
            color_space: Some(ALXRColorSpace::Default),
            no_linearize_srgb: false,
            no_alvr_server: false,
            no_bindings: false,
            no_server_framerate_lock: false,
            no_frameskip: false,
            disable_localdimming: false,
            headless_session: false,
        }
    }

    /// Applies one platform property that was found set.
    pub fn apply_system_property(&mut self, name: &str, value: &str)
        ensures
            *final(self) == with_property(*old(self), name@, value@),
    {
        if str_eq(name, "debug.alxr.graphicsPlugin") {
            self.graphics_api = Some(ALXRGraphicsApi::from(value));
        } else if str_eq(name, "debug.alxr.verbose") {
            self.verbose = match parse_bool(value) { Some(b) => b, None => self.verbose };
        } else if str_eq(name, "debug.alxr.no_linearize_srgb") {
            self.no_linearize_srgb = match parse_bool(value) { Some(b) => b, None => self.no_linearize_srgb };
        } else if str_eq(name, "debug.alxr.no_server_framerate_lock") {
            self.no_server_framerate_lock = match parse_bool(value) { Some(b) => b, None => self.no_server_framerate_lock };
        } else if str_eq(name, "debug.alxr.no_frameskip") {
            self.no_frameskip = match parse_bool(value) { Some(b) => b, None => self.no_frameskip };
        } else if str_eq(name, "debug.alxr.disable_localdimming") {
            self.disable_localdimming = match parse_bool(value) { Some(b) => b, None => self.disable_localdimming };
        } else if str_eq(name, "debug.alxr.color_space") {
            self.color_space = Some(ALXRColorSpace::from(value));
        } else if str_eq(name, "debug.alxr.headless_session") {
            self.headless_session = match parse_bool(value) { Some(b) => b, None => self.headless_session };
        }
    }
}


/// The options after applying `props` (name, value) in order.
pub open spec fn with_properties(o: Options, props: Seq<(Seq<char>, Seq<char>)>) -> Options
    decreases props.len(),
{
    if props.len() == 0 {
        o
    } else {
        let prev = with_properties(o, props.drop_last());
        with_property(prev, props.last().0, props.last().1)
    }
}

pub open spec fn pairs_view(props: Seq<(String, String)>) -> Seq<(Seq<char>, Seq<char>)> {
    props.map_values(|p: (String, String)| (p.0@, p.1@))
}

impl Options {
    /// Android options: the defaults, overridden by the platform properties
    /// that were found set, each given as (name, value).
    pub fn from_system_properties(debug_build: bool, props: &Vec<(String, String)>) -> (r: Options)
        ensures
            r == with_properties(Options::android_defaults_spec(debug_build), pairs_view(props@)),
    {
        let mut o = Options::android_defaults(debug_build);
        let mut i: usize = 0;
        while i < props.len()
            invariant
                i <= props@.len(),
                o == with_properties(Options::android_defaults_spec(debug_build), pairs_view(props@.subrange(0, i as int))),
            decreases props@.len() - i,
        {
            assert(pairs_view(props@.subrange(0, i as int + 1)).drop_last() =~= pairs_view(props@.subrange(0, i as int)));
            let (name, value) = &props[i];
            o.apply_system_property(name.as_str(), value.as_str());
            i = i + 1;
        }
        assert(props@.subrange(0, i as int) =~= props@);
        o
    }

    pub open spec fn android_defaults_spec(debug_build: bool) -> Options {
        Options {
            localhost: false,
            verbose: debug_build,
            graphics_api: Some(ALXRGraphicsApi::Auto),
            decoder_type: None,
            decoder_thread_count: 0,
            color_space: Some(ALXRColorSpace::Default),
            no_linearize_srgb: false,
            no_alvr_server: false,
            no_bindings: false,
            no_server_framerate_lock: false,
            no_frameskip: false,
            disable_localdimming: false,
            headless_session: false,
        }
    }
}

} // verus!
