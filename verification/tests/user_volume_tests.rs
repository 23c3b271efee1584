use base64::Engine;
use oadiscord::audio_device::AudioDeviceType;
use oadiscord::user_volume::{
    avatar_request, create_dimmed_svg_uri, dimmed_svg, encode_avatar,
    get_avatar_url, icon_image_uri, png_data_uri, svg_data_uri, toggled_mute,
    with_user_metadata, UserVoiceSettings, UserVolumeControlAction, UserVolumeControlActionType, UserVolumeControlSettings,
    UserVolumePlan,
};

fn original_svg(image_data_uri: &str) -> String {
    format!(
        r#"<svg xmlns="http://www.w3.org/2000/svg" width="144" height="144">
            <filter id="dim">
                <feColorMatrix type="matrix" values="
                    0.66 0    0    0 0
                    0    0.66 0    0 0
                    0    0    0.66 0 0
                    0    0    0    1 0" />
            </filter>
            <image href="{}" width="144" height="144" filter="url(#dim)" opacity="0.4"/>
        </svg>"#,
        image_data_uri
    )
}

fn voice_user(nick: &str, mute: bool, avatar: Option<&str>) -> UserVoiceSettings {
    UserVoiceSettings {
        nick: nick.to_string(),
        mute,
        self_mute: false,
        self_deaf: false,
        server_mute: false,
        server_deaf: false,
        avatar: avatar.map(|a| a.to_string()),
    }
}

fn settings_for(user: Option<&str>, action: UserVolumeControlActionType) -> UserVolumeControlSettings {
    UserVolumeControlSettings {
        action_type: action,
        step_size: 7,
        set_volume: 42,
        user_id: user.map(|u| u.to_string()),
        user_nick: None,
        user_avatar: None,
    }
}

#[test]
fn max_volume_per_device() {
    assert_eq!(AudioDeviceType::Input.max_volume(), 100);
    assert_eq!(AudioDeviceType::Output.max_volume(), 200);
}

#[test]
fn default_settings() {
    let s = UserVolumeControlSettings::default();
    assert_eq!(s.action_type, UserVolumeControlActionType::Increase);
    assert_eq!(s.step_size, 5);
    assert_eq!(s.set_volume, 100);
    assert!(s.user_id.is_none());
    assert!(s.user_nick.is_none());
    assert!(s.user_avatar.is_none());
    assert_eq!(UserVolumeControlActionType::default(), UserVolumeControlActionType::Increase);
}

#[test]
fn avatar_url_with_hash() {
    assert_eq!(
        get_avatar_url("123", Some("abc")),
        "https://cdn.discordapp.com/avatars/123/abc.png"
    );
}

#[test]
fn avatar_url_without_hash() {
    assert_eq!(get_avatar_url("123", None), "https://cdn.discordapp.com/embed/avatars/0.png");
    assert_eq!(get_avatar_url("", None), get_avatar_url("999", None));
}

#[test]
fn dimmed_svg_matches_template() {
    assert_eq!(dimmed_svg("data:x"), original_svg("data:x"));
    assert_eq!(dimmed_svg(""), original_svg(""));
}

#[test]
fn dimmed_svg_uri_is_base64_of_template() {
    let uri = "data:image/png;base64,AAAA";
    let expected = format!(
        "data:image/svg+xml;base64,{}",
        base64::engine::general_purpose::STANDARD.encode(original_svg(uri).as_bytes())
    );
    assert_eq!(create_dimmed_svg_uri(uri), expected);
}

#[test]
fn data_uris() {
    assert_eq!(png_data_uri("QUJD"), "data:image/png;base64,QUJD");
    assert_eq!(svg_data_uri("QUJD"), "data:image/svg+xml;base64,QUJD");
}

#[test]
fn avatar_encoding() {
    assert_eq!(encode_avatar(b"hello"), "aGVsbG8=");
    assert_eq!(encode_avatar(b"hell"), "aGVsbA==");
    assert_eq!(encode_avatar(b"hel"), "aGVs");
    assert_eq!(encode_avatar(b""), "");
}

#[test]
fn icon_in_voice_is_the_avatar() {
    assert_eq!(icon_image_uri("QUJD", true), "data:image/png;base64,QUJD");
}

#[test]
fn icon_out_of_voice_is_dimmed() {
    assert_eq!(
        icon_image_uri("QUJD", false),
        create_dimmed_svg_uri("data:image/png;base64,QUJD")
    );
}

#[test]
fn no_avatar_request_without_user() {
    let s = settings_for(None, UserVolumeControlActionType::Increase);
    assert!(avatar_request(&s, None).is_none());
    let s = settings_for(Some(""), UserVolumeControlActionType::Increase);
    assert!(avatar_request(&s, Some(&voice_user("n", false, Some("h")))).is_none());
}

#[test]
fn avatar_request_prefers_voice_avatar() {
    let mut s = settings_for(Some("42"), UserVolumeControlActionType::Increase);
    s.user_avatar = Some("saved".to_string());
    let r = avatar_request(&s, Some(&voice_user("n", false, Some("live")))).unwrap();
    assert_eq!(r.url, "https://cdn.discordapp.com/avatars/42/live.png");
    assert!(r.in_voice);
    let r = avatar_request(&s, Some(&voice_user("n", false, None))).unwrap();
    assert_eq!(r.url, "https://cdn.discordapp.com/avatars/42/saved.png");
    assert!(r.in_voice);
    let r = avatar_request(&s, None).unwrap();
    assert_eq!(r.url, "https://cdn.discordapp.com/avatars/42/saved.png");
    assert!(!r.in_voice);
    s.user_avatar = None;
    let r = avatar_request(&s, None).unwrap();
    assert_eq!(r.url, "https://cdn.discordapp.com/embed/avatars/0.png");
}

#[test]
fn metadata_saved_from_voice_user() {
    let s = settings_for(Some("42"), UserVolumeControlActionType::Decrease);
    let u = with_user_metadata(&s, Some(&voice_user("Alice", false, Some("av")))).unwrap();
    assert_eq!(u.user_nick.as_deref(), Some("Alice"));
    assert_eq!(u.user_avatar.as_deref(), Some("av"));
    assert_eq!(u.user_id.as_deref(), Some("42"));
    assert_eq!(u.action_type, UserVolumeControlActionType::Decrease);
    assert_eq!(u.step_size, 7);
    assert_eq!(u.set_volume, 42);
    assert!(with_user_metadata(&s, None).is_none());
    let none = settings_for(None, UserVolumeControlActionType::Decrease);
    assert!(with_user_metadata(&none, Some(&voice_user("Alice", false, None))).is_none());
}

#[test]
fn key_plans() {
    let user = Some("42");
    let id = "42".to_string();
    assert_eq!(
        UserVolumeControlAction.key_up(&settings_for(user, UserVolumeControlActionType::Increase)),
        UserVolumePlan::Adjust { user_id: id.clone(), value: 7, set: false }
    );
    assert_eq!(
        UserVolumeControlAction.key_up(&settings_for(user, UserVolumeControlActionType::Decrease)),
        UserVolumePlan::Adjust { user_id: id.clone(), value: -7, set: false }
    );
    assert_eq!(
        UserVolumeControlAction.key_up(&settings_for(user, UserVolumeControlActionType::SetVolume)),
        UserVolumePlan::Adjust { user_id: id.clone(), value: 42, set: true }
    );
    assert_eq!(
        UserVolumeControlAction.key_up(&settings_for(user, UserVolumeControlActionType::Mute)),
        UserVolumePlan::ToggleMute { user_id: id }
    );
    assert_eq!(
        UserVolumeControlAction.key_up(&settings_for(None, UserVolumeControlActionType::Mute)),
        UserVolumePlan::MissingUser
    );
}

#[test]
fn dial_plans() {
    let s = settings_for(Some("42"), UserVolumeControlActionType::Mute);
    assert_eq!(
        UserVolumeControlAction.dial_rotate(&s, 3),
        UserVolumePlan::Adjust { user_id: "42".to_string(), value: 21, set: false }
    );
    assert_eq!(
        UserVolumeControlAction.dial_rotate(&s, -2),
        UserVolumePlan::Adjust { user_id: "42".to_string(), value: -14, set: false }
    );
    let mut big = s.clone();
    big.step_size = 255;
    assert_eq!(
        UserVolumeControlAction.dial_rotate(&big, i16::MIN),
        UserVolumePlan::Adjust { user_id: "42".to_string(), value: -8355840, set: false }
    );
    assert_eq!(
        UserVolumeControlAction.dial_rotate(&settings_for(None, UserVolumeControlActionType::Increase), 1),
        UserVolumePlan::MissingUser
    );
}

#[test]
fn dial_one_tick_is_one_key_press() {
    let s = settings_for(Some("1"), UserVolumeControlActionType::Increase);
    assert_eq!(UserVolumeControlAction.dial_rotate(&s, 1), UserVolumeControlAction.key_up(&s));
}

#[test]
fn mute_toggles() {
    assert_eq!(toggled_mute(Some(&voice_user("a", true, None))), Some(false));
    assert_eq!(toggled_mute(Some(&voice_user("a", false, None))), Some(true));
    assert_eq!(toggled_mute(None), None);
}
