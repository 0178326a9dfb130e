//! Decisions of the Android client around the platform: the resolution
//! preferred per headset model, reacting to activity lifecycle events, and
//! which permissions still have to be requested.
use vstd::prelude::*;
use crate::text::{find_char, find_char_from, str_eq, views_of};

verus! {

/// Eye resolution that suits a headset better than the runtime's
/// recommendation, by system or model name.
pub open spec fn resolution_for(name: Seq<char>) -> Option<(u32, u32)> {
    if name == "Lynx"@ {
        Some((1600u32, 1600u32))
    } else if name == "Meta Quest Pro"@ {
        Some((1800u32, 1920u32))
    } else if name == "Pico Neo 3"@ || name == "Pico Neo 3 Link"@ || name == "Oculus Quest2"@ || name == "Oculus Quest 2"@ {
        Some((1832u32, 1920u32))
    } else if name == "Oculus Quest"@ {
        Some((1440u32, 1600u32))
    } else if name == "Pico 4"@ || name == "A8150"@ {
        Some((2160u32, 2160u32))
    } else {
        None
    }
}

fn resolution_of(name: &str) -> (r: Option<(u32, u32)>)
    ensures
        r == resolution_for(name@),
{
    if str_eq(name, "Lynx") {
        Some((1600, 1600))
    } else if str_eq(name, "Meta Quest Pro") {
        Some((1800, 1920))
    } else if str_eq(name, "Pico Neo 3") || str_eq(name, "Pico Neo 3 Link") || str_eq(name, "Oculus Quest2") || str_eq(name, "Oculus Quest 2") {
        Some((1832, 1920))
    } else if str_eq(name, "Oculus Quest") {
        Some((1440, 1600))
    } else if str_eq(name, "Pico 4") || str_eq(name, "A8150") {
        Some((2160, 2160))
    } else {
        None
    }
}

/// The preferred eye resolution: by the runtime's system name first, then by
/// the device model.
pub fn preferred_resolution(system_name: &str, model_name: &str) -> (r: Option<(u32, u32)>)
    ensures
        r == match resolution_for(system_name@) {
            Some(res) => Some(res),
            None => resolution_for(model_name@),
        },
{
    match resolution_of(system_name) {
        Some(res) => Some(res),
        None => resolution_of(model_name),
    }
}

/// Activity lifecycle events the client reacts to.
#[derive(Clone, Copy, Debug, PartialEq, Eq, Structural)]
pub enum LifecycleEvent {
    Pause,
    Resume,
    Destroy,
    Other,
}

/// What to do on a lifecycle event.
#[derive(Clone, Copy, Debug, PartialEq, Eq, Structural)]
pub enum LifecycleAction {
    Nothing,
    /// Pause the XR runtime, then release the Wi-Fi lock.
    PauseRuntime,
    /// Acquire the Wi-Fi lock, then resume the XR runtime.
    ResumeRuntime,
}

/// State of the activity.
#[derive(Clone, Copy, Debug, PartialEq, Eq, Structural)]
pub struct AppData {
    pub destroy_requested: bool,
    pub resumed: bool,
}

impl AppData {
    pub fn new() -> (r: AppData)
        ensures
            !r.destroy_requested && !r.resumed,
    {
        AppData { destroy_requested: false, resumed: false }
    }

    pub fn handle_lifecycle_event(&mut self, event: LifecycleEvent) -> (r: LifecycleAction)
        ensures
            match event {
                LifecycleEvent::Pause => r == LifecycleAction::PauseRuntime && *final(self) == (AppData { resumed: false, ..*old(self) }),
                LifecycleEvent::Resume => r == LifecycleAction::ResumeRuntime && *final(self) == (AppData { resumed: true, ..*old(self) }),
                LifecycleEvent::Destroy => r == LifecycleAction::Nothing && *final(self) == (AppData { destroy_requested: true, ..*old(self) }),
                LifecycleEvent::Other => r == LifecycleAction::Nothing && *final(self) == *old(self),
            },
    {
        match event {
            LifecycleEvent::Pause => {
                self.resumed = false;
                LifecycleAction::PauseRuntime
            },
            LifecycleEvent::Resume => {
                self.resumed = true;
                LifecycleAction::ResumeRuntime
            },
            LifecycleEvent::Destroy => {
                self.destroy_requested = true;
                LifecycleAction::Nothing
            },
            LifecycleEvent::Other => LifecycleAction::Nothing,
        }
    }

    /// Whether the event pump may wait for events without bound: only while
    /// nothing is running and nothing is pending.
    pub fn should_block(&self, session_running: bool) -> (r: bool)
        ensures
            r == (!self.destroy_requested && !self.resumed && !session_running),
    {
        !self.destroy_requested && !self.resumed && !session_running
    }
}

/// Permissions the client asks for.
pub open spec fn required_permissions_spec() -> Seq<Seq<char>> {
    seq![
        "RECORD_AUDIO"@,
        "READ_EXTERNAL_STORAGE"@,
        "com.oculus.permission.EYE_TRACKING"@,
        "com.oculus.permission.FACE_TRACKING"@,
        "com.magicleap.permission.EYE_TRACKING"@,
        "com.picovr.permission.EYE_TRACKING"@,
    ]
}

pub fn required_permissions() -> (r: Vec<&'static str>)
    ensures
        views_of(r@) == required_permissions_spec(),
{
    let r = vec![
        "RECORD_AUDIO",
        "READ_EXTERNAL_STORAGE",
        "com.oculus.permission.EYE_TRACKING",
        "com.oculus.permission.FACE_TRACKING",
        "com.magicleap.permission.EYE_TRACKING",
        "com.picovr.permission.EYE_TRACKING",
    ];
    assert(views_of(r@) =~= required_permissions_spec());
    r
}

/// A vendor permission is named in full (it holds a dot); a platform one by
/// its short name in the manifest's permission list.
pub fn is_custom_permission(name: &str) -> (r: bool)
    ensures
        r == (find_char_from(name@, '.', 0) >= 0),
{
    find_char(name, '.', 0).is_some()
}

/// Names whose permission is not granted, in order.
pub open spec fn missing_permissions(names: Seq<Seq<char>>, granted: Seq<bool>) -> Seq<Seq<char>>
    decreases names.len(),
{
    if names.len() == 0 {
        Seq::empty()
    } else {
        let prev = missing_permissions(names.drop_last(), granted.drop_last());
        if granted.last() { prev } else { prev.push(names.last()) }
    }
}

/// The permissions still to request, given which are granted.
pub fn permissions_to_request(names: &Vec<&'static str>, granted: &Vec<bool>) -> (r: Vec<&'static str>)
    requires
        names@.len() == granted@.len(),
    ensures
        views_of(r@) == missing_permissions(views_of(names@), granted@),
{
    let mut r: Vec<&'static str> = Vec::new();
    let mut i: usize = 0;
    while i < names.len()
        invariant
            i <= names@.len() == granted@.len(),
            views_of(r@) == missing_permissions(views_of(names@.subrange(0, i as int)), granted@.subrange(0, i as int)),
        decreases names@.len() - i,
    {
        assert(views_of(names@.subrange(0, i as int + 1)).drop_last() =~= views_of(names@.subrange(0, i as int)));
        assert(granted@.subrange(0, i as int + 1).drop_last() =~= granted@.subrange(0, i as int));
        if !granted[i] {
            r.push(names[i]);
            assert(views_of(r@) =~= missing_permissions(views_of(names@.subrange(0, i as int)), granted@.subrange(0, i as int)).push(names@[i as int]@));
        }
        i = i + 1;
    }
    assert(names@.subrange(0, i as int) =~= names@);
    assert(granted@.subrange(0, i as int) =~= granted@);
    r
}


/// Wi-Fi lock mode that disables scans; needs API level 29.
pub const WIFI_MODE_FULL_LOW_LATENCY: i32 = 4;
/// Wi-Fi lock mode for older API levels.
pub const WIFI_MODE_FULL_HIGH_PERF: i32 = 3;

/// The Wi-Fi lock mode to take at `api_level`: low latency where the
/// platform offers it, since it also stops the scans that disrupt streaming.
pub fn wifi_lock_mode(api_level: i32) -> (r: i32)
    ensures
        r == if api_level >= 29 { WIFI_MODE_FULL_LOW_LATENCY } else { WIFI_MODE_FULL_HIGH_PERF },
{
    if api_level >= 29 {
        WIFI_MODE_FULL_LOW_LATENCY
    } else {
        WIFI_MODE_FULL_HIGH_PERF
    }
}

} // verus!
