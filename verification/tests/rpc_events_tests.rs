use oadiscord::rpc_events::{
    action_state, InstanceGroup, RpcEffect, RpcEvent, ToggleAction, VoiceSession,
    VoiceSettingsReport,
};
use oadiscord::voice_users::VoiceUserMap;

fn s(x: &str) -> String {
    x.to_string()
}

fn upsert(id: &str, volume: u32) -> RpcEvent<u32> {
    RpcEvent::VoiceStateUpsert { user_id: Some(s(id)), settings: volume }
}

fn report(mute: Option<bool>, deaf: Option<bool>, mode: Option<&str>, input: bool, output: bool) -> VoiceSettingsReport {
    VoiceSettingsReport {
        mute,
        deaf,
        mode_type: mode.map(s),
        has_input: input,
        has_output: output,
    }
}

fn state(action: ToggleAction, state: u16) -> RpcEffect {
    RpcEffect::SetActionState { action, state }
}

#[test]
fn map_insert_get_remove_clear() {
    let mut m: VoiceUserMap<u32> = VoiceUserMap::new();
    assert!(m.is_empty());
    m.insert(s("a"), 1);
    m.insert(s("b"), 2);
    m.insert(s("a"), 3);
    assert_eq!(m.len(), 2);
    assert_eq!(m.get(&s("a")), Some(&3));
    assert_eq!(m.get(&s("b")), Some(&2));
    assert!(m.contains_key(&s("b")));
    assert_eq!(m.get(&s("c")), None);
    let mut ids = m.user_ids();
    ids.sort();
    assert_eq!(ids, vec![s("a"), s("b")]);
    m.remove(&s("a"));
    assert_eq!(m.get(&s("a")), None);
    assert_eq!(m.len(), 1);
    m.remove(&s("a"));
    assert_eq!(m.len(), 1);
    m.clear();
    assert!(m.is_empty());
    assert_eq!(m.len(), 0);
}

#[test]
fn action_states() {
    assert_eq!(action_state(true), 1);
    assert_eq!(action_state(false), 0);
}

#[test]
fn upsert_stores_other_users() {
    let mut session: VoiceSession<u32> = VoiceSession::new();
    let me = s("me");
    let effects = session.handle_rpc_event(upsert("alice", 80), Some(&me));
    assert_eq!(effects, vec![RpcEffect::Refresh(InstanceGroup::UserVolumeControl)]);
    assert_eq!(session.users.get(&s("alice")), Some(&80));
    let effects = session.handle_rpc_event(upsert("alice", 120), Some(&me));
    assert_eq!(effects, vec![RpcEffect::Refresh(InstanceGroup::UserVolumeControl)]);
    assert_eq!(session.users.get(&s("alice")), Some(&120));
    assert_eq!(session.users.len(), 1);
}

#[test]
fn upsert_without_known_current_user_stores() {
    let mut session: VoiceSession<u32> = VoiceSession::new();
    session.handle_rpc_event(upsert("me", 1), None);
    assert_eq!(session.users.get(&s("me")), Some(&1));
}

#[test]
fn upsert_of_current_user_is_ignored() {
    let mut session: VoiceSession<u32> = VoiceSession::new();
    let me = s("me");
    let effects = session.handle_rpc_event(upsert("me", 80), Some(&me));
    assert!(effects.is_empty());
    assert!(session.users.is_empty());
}

#[test]
fn upsert_without_user_is_ignored() {
    let mut session: VoiceSession<u32> = VoiceSession::new();
    let effects = session.handle_rpc_event(
        RpcEvent::VoiceStateUpsert { user_id: None, settings: 5 },
        None,
    );
    assert!(effects.is_empty());
    assert!(session.users.is_empty());
}

#[test]
fn delete_removes_one_user() {
    let mut session: VoiceSession<u32> = VoiceSession::new();
    let me = s("me");
    session.handle_rpc_event(upsert("alice", 1), Some(&me));
    session.handle_rpc_event(upsert("bob", 2), Some(&me));
    let effects = session.handle_rpc_event(RpcEvent::VoiceStateDelete { user_id: Some(s("alice")) }, Some(&me));
    assert_eq!(effects, vec![RpcEffect::Refresh(InstanceGroup::UserVolumeControl)]);
    assert_eq!(session.users.get(&s("alice")), None);
    assert_eq!(session.users.get(&s("bob")), Some(&2));
    let effects = session.handle_rpc_event(RpcEvent::VoiceStateDelete { user_id: Some(s("alice")) }, Some(&me));
    assert_eq!(effects, vec![RpcEffect::Refresh(InstanceGroup::UserVolumeControl)]);
    assert_eq!(session.users.len(), 1);
}

#[test]
fn delete_of_current_user_forgets_everyone() {
    let mut session: VoiceSession<u32> = VoiceSession::new();
    let me = s("me");
    session.handle_rpc_event(upsert("alice", 1), Some(&me));
    session.handle_rpc_event(upsert("bob", 2), Some(&me));
    let effects = session.handle_rpc_event(RpcEvent::VoiceStateDelete { user_id: Some(s("me")) }, Some(&me));
    assert_eq!(effects, vec![RpcEffect::Refresh(InstanceGroup::UserVolumeControl)]);
    assert!(session.users.is_empty());
}

#[test]
fn delete_without_user_is_ignored() {
    let mut session: VoiceSession<u32> = VoiceSession::new();
    session.handle_rpc_event(upsert("alice", 1), None);
    let effects = session.handle_rpc_event(RpcEvent::VoiceStateDelete { user_id: None }, None);
    assert!(effects.is_empty());
    assert_eq!(session.users.len(), 1);
}

#[test]
fn invalid_token_reconnects() {
    let mut session: VoiceSession<u32> = VoiceSession::new();
    let effects = session.handle_rpc_event(RpcEvent::Error { code: 4006 }, None);
    assert_eq!(effects, vec![RpcEffect::ClearAccessToken, RpcEffect::ScheduleReconnect]);
    let effects = session.handle_rpc_event(RpcEvent::Error { code: 4000 }, None);
    assert!(effects.is_empty());
}

#[test]
fn voice_settings_push_to_talk_and_devices() {
    let mut session: VoiceSession<u32> = VoiceSession::new();
    let effects = session.handle_rpc_event(
        RpcEvent::VoiceSettings(report(Some(false), Some(true), Some("PUSH_TO_TALK"), true, true)),
        None,
    );
    assert_eq!(
        effects,
        vec![
            state(ToggleAction::ToggleMute, 1),
            state(ToggleAction::ToggleDeafen, 1),
            state(ToggleAction::ToggleVoiceInputMode, 1),
            RpcEffect::StoreVoiceMode,
            RpcEffect::StoreInputDevice,
            RpcEffect::StoreOutputDevice,
            RpcEffect::Refresh(InstanceGroup::SetAudioDevice),
        ]
    );
}

#[test]
fn voice_settings_minimal() {
    let mut session: VoiceSession<u32> = VoiceSession::new();
    let effects = session.handle_rpc_event(RpcEvent::VoiceSettings(report(None, None, None, false, false)), None);
    assert_eq!(
        effects,
        vec![
            state(ToggleAction::ToggleMute, 0),
            state(ToggleAction::ToggleDeafen, 0),
            RpcEffect::Refresh(InstanceGroup::SetAudioDevice),
        ]
    );
    let effects = session.handle_rpc_event(
        RpcEvent::VoiceSettings(report(Some(true), Some(false), Some("VOICE_ACTIVITY"), false, true)),
        None,
    );
    assert_eq!(
        effects,
        vec![
            state(ToggleAction::ToggleMute, 1),
            state(ToggleAction::ToggleDeafen, 0),
            state(ToggleAction::ToggleVoiceInputMode, 0),
            RpcEffect::StoreVoiceMode,
            RpcEffect::StoreOutputDevice,
            RpcEffect::Refresh(InstanceGroup::SetAudioDevice),
        ]
    );
}

#[test]
fn video_and_screenshare_states() {
    let mut session: VoiceSession<u32> = VoiceSession::new();
    assert_eq!(
        session.handle_rpc_event(RpcEvent::VideoState { active: true }, None),
        vec![state(ToggleAction::ToggleVideo, 1)]
    );
    assert_eq!(
        session.handle_rpc_event(RpcEvent::ScreenshareState { active: false }, None),
        vec![state(ToggleAction::ToggleScreenshare, 0)]
    );
}

#[test]
fn channel_selection() {
    let mut session: VoiceSession<u32> = VoiceSession::new();
    let effects = session.handle_rpc_event(RpcEvent::VoiceChannelSelected { channel_id: Some(s("c1")) }, None);
    assert_eq!(
        effects,
        vec![
            RpcEffect::SubscribeVoiceStates(s("c1")),
            RpcEffect::Refresh(InstanceGroup::VoiceChannel),
            RpcEffect::Refresh(InstanceGroup::UserVolumeControl),
        ]
    );
    assert_eq!(session.voice_channel, Some(s("c1")));
    session.handle_rpc_event(upsert("alice", 1), None);
    let again = session.handle_rpc_event(RpcEvent::VoiceChannelSelected { channel_id: Some(s("c1")) }, None);
    assert!(again.is_empty());
    assert_eq!(session.users.len(), 1);
    let effects = session.handle_rpc_event(RpcEvent::VoiceChannelSelected { channel_id: Some(s("c2")) }, None);
    assert_eq!(
        effects,
        vec![
            RpcEffect::UnsubscribeVoiceStates(s("c1")),
            RpcEffect::SubscribeVoiceStates(s("c2")),
            RpcEffect::Refresh(InstanceGroup::VoiceChannel),
            RpcEffect::Refresh(InstanceGroup::UserVolumeControl),
        ]
    );
    assert!(session.users.is_empty());
    assert_eq!(session.voice_channel, Some(s("c2")));
    let effects = session.handle_rpc_event(RpcEvent::VoiceChannelSelected { channel_id: None }, None);
    assert_eq!(
        effects,
        vec![
            RpcEffect::UnsubscribeVoiceStates(s("c2")),
            RpcEffect::Refresh(InstanceGroup::VoiceChannel),
            RpcEffect::Refresh(InstanceGroup::UserVolumeControl),
        ]
    );
    assert_eq!(session.voice_channel, None);
    assert!(session.handle_rpc_event(RpcEvent::VoiceChannelSelected { channel_id: None }, None).is_empty());
}

#[test]
fn cache_events() {
    let mut session: VoiceSession<u32> = VoiceSession::new();
    assert_eq!(
        session.handle_rpc_event(RpcEvent::NotificationCreated, None),
        vec![RpcEffect::CacheNotification, RpcEffect::Refresh(InstanceGroup::Notifications)]
    );
    assert_eq!(
        session.handle_rpc_event(RpcEvent::Guilds, None),
        vec![RpcEffect::UpdateGuildCache, RpcEffect::SendGuilds]
    );
    assert_eq!(session.handle_rpc_event(RpcEvent::Channels, None), vec![RpcEffect::SendChannels]);
    assert_eq!(
        session.handle_rpc_event(RpcEvent::SoundboardSounds, None),
        vec![RpcEffect::UpdateSoundboardCache, RpcEffect::SendSounds]
    );
    assert!(session.handle_rpc_event(RpcEvent::Other, None).is_empty());
}

#[test]
fn socket_closed_forgets_users() {
    let mut session: VoiceSession<u32> = VoiceSession::new();
    session.handle_rpc_event(RpcEvent::VoiceChannelSelected { channel_id: Some(s("c1")) }, None);
    session.handle_rpc_event(upsert("alice", 1), None);
    let effects = session.handle_rpc_event(RpcEvent::SocketClosed, None);
    assert_eq!(effects, vec![RpcEffect::ClearGuildCache, RpcEffect::ScheduleReconnect]);
    assert!(session.users.is_empty());
    assert_eq!(session.voice_channel, Some(s("c1")));
}
