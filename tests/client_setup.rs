use alxr_common::android::{
    is_custom_permission, permissions_to_request, preferred_resolution, required_permissions,
    AppData, LifecycleAction, LifecycleEvent,
};
use alxr_common::client_options::{
    parse_bool, system_property_names, ALXRColorSpace, ALXRDecoderType, ALXRGraphicsApi, Options,
};
use alxr_common::identity::{create_identity, hostname_from_digits};
use alxr_common::layout::Platform;

#[test]
fn names_select_apis_after_trimming() {
    assert_eq!(ALXRGraphicsApi::from("  Vulkan2\n"), ALXRGraphicsApi::Vulkan2);
    assert_eq!(ALXRGraphicsApi::from("OpenGLES"), ALXRGraphicsApi::OpenGLES);
    assert_eq!(ALXRGraphicsApi::from("vulkan"), ALXRGraphicsApi::Auto);
    assert_eq!(ALXRColorSpace::from(" RiftS "), ALXRColorSpace::RiftS);
    assert_eq!(ALXRColorSpace::from("sRGB"), ALXRColorSpace::Rec2020);
    assert_eq!(ALXRDecoderType::from_name("\tCPU", Platform::Linux), ALXRDecoderType::CPU);
    assert_eq!(ALXRDecoderType::from_name("?", Platform::Windows), ALXRDecoderType::D311VA);
    assert_eq!(ALXRDecoderType::from_name("?", Platform::Linux), ALXRDecoderType::VAAPI);
}

#[test]
fn properties_override_android_defaults() {
    let mut o = Options::android_defaults(false);
    assert_eq!(o.graphics_api, Some(ALXRGraphicsApi::Auto));
    o.apply_system_property("debug.alxr.graphicsPlugin", " OpenGLES ");
    o.apply_system_property("debug.alxr.verbose", "true");
    o.apply_system_property("debug.alxr.no_frameskip", "yes");
    o.apply_system_property("debug.alxr.headless_session", "true");
    o.apply_system_property("debug.alxr.color_space", "P3");
    o.apply_system_property("debug.alxr.unknown", "true");
    assert_eq!(o.graphics_api, Some(ALXRGraphicsApi::OpenGLES));
    assert!(o.verbose);
    assert!(!o.no_frameskip);
    assert!(o.headless_session);
    assert_eq!(o.color_space, Some(ALXRColorSpace::P3));
    assert_eq!(system_property_names().len(), 8);
    let u = Options::uwp_defaults(true);
    assert_eq!(u.decoder_type, Some(ALXRDecoderType::D311VA));
    assert!(u.verbose);
}

#[test]
fn booleans_parse_exactly() {
    assert_eq!(parse_bool("true"), Some(true));
    assert_eq!(parse_bool("false"), Some(false));
    assert_eq!(parse_bool("True"), None);
    assert_eq!(parse_bool(" true"), None);
}

#[test]
fn identities() {
    let given = create_identity(Some("192.168.1.5".to_string()));
    assert_eq!(given.hostname, "192.168.1.5");
    assert!(given.certificate_pem.is_empty());
    let made = create_identity(None);
    assert_eq!(made.hostname.len(), 16);
    assert!(made.hostname[..4].chars().all(|c| c.is_ascii_digit()));
    assert!(made.hostname.ends_with(".client.alvr"));
    assert_eq!(hostname_from_digits(0, 4, 2, 9), "0429.client.alvr");
    assert_eq!(made.public().hostname, made.hostname);
}

#[test]
fn preferred_resolutions() {
    assert_eq!(preferred_resolution("Oculus Quest2", "x"), Some((1832, 1920)));
    assert_eq!(preferred_resolution("unknown", "Pico 4"), Some((2160, 2160)));
    assert_eq!(preferred_resolution("Lynx", "Pico 4"), Some((1600, 1600)));
    assert_eq!(preferred_resolution("a", "b"), None);
}

#[test]
fn lifecycle_events() {
    let mut a = AppData::new();
    assert!(a.should_block(false));
    assert_eq!(a.handle_lifecycle_event(LifecycleEvent::Resume), LifecycleAction::ResumeRuntime);
    assert!(a.resumed);
    assert!(!a.should_block(false));
    assert_eq!(a.handle_lifecycle_event(LifecycleEvent::Pause), LifecycleAction::PauseRuntime);
    assert!(!a.resumed);
    assert!(!a.should_block(true));
    assert_eq!(a.handle_lifecycle_event(LifecycleEvent::Destroy), LifecycleAction::Nothing);
    assert!(a.destroy_requested);
}

#[test]
fn permissions() {
    let names = required_permissions();
    assert_eq!(names.len(), 6);
    assert!(!is_custom_permission("RECORD_AUDIO"));
    assert!(is_custom_permission("com.picovr.permission.EYE_TRACKING"));
    let granted = vec![true, false, true, false, true, true];
    assert_eq!(
        permissions_to_request(&names, &granted),
        vec!["READ_EXTERNAL_STORAGE", "com.oculus.permission.FACE_TRACKING"]
    );
}
