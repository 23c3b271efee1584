use vstd::prelude::*;
use crate::audio_device::{AudioDeviceType, max_volume_percent};
use crate::rpc_events::{
    RpcEvent, RpcEffect, InstanceGroup, ToggleAction, VoiceSettingsReport, INVALID_TOKEN_ERROR,
    users_after, channel_after, rpc_effects, voice_settings_effects, is_current_user, state_index,
};
use crate::user_volume::{
    UserVolumeControlActionType, UserVolumeControlSettings, UserVoiceSettings, key_value,
    avatar_url, icon_avatar_hash, opt_string_view,
};

verus! {

/// A voice state reported for a user other than the current one is stored: that
/// user's settings read back as reported, and every other user keeps what it had.
pub proof fn law_voice_state_read_after_write<V>(
    users: Map<Seq<char>, V>,
    channel: Option<String>,
    user_id: String,
    settings: V,
    current_user_id: Option<Seq<char>>,
    other: Seq<char>,
)
    requires
        !is_current_user(user_id@, current_user_id),
        other != user_id@,
    ensures
        ({
            let after = users_after(
                users,
                channel,
                RpcEvent::VoiceStateUpsert { user_id: Some(user_id), settings },
                current_user_id,
            );
            &&& after.dom().contains(user_id@)
            &&& after[user_id@] == settings
            &&& after.dom().contains(other) == users.dom().contains(other)
            &&& users.dom().contains(other) ==> after[other] == users[other]
        }),
{
}

/// The current user is never stored among the other users: a voice state
/// reported for the current user changes nothing and asks for no work.
pub proof fn law_current_user_not_stored<V>(
    users: Map<Seq<char>, V>,
    channel: Option<String>,
    user_id: String,
    settings: V,
    current_user_id: Option<Seq<char>>,
)
    requires
        is_current_user(user_id@, current_user_id),
    ensures
        ({
            let event = RpcEvent::VoiceStateUpsert { user_id: Some(user_id), settings };
            &&& users_after(users, channel, event, current_user_id) == users
            &&& rpc_effects(channel, event, current_user_id) == Seq::<RpcEffect>::empty()
        }),
{
}

/// A user who leaves is forgotten, the others are kept; when the current user
/// leaves, every user is forgotten. Either way the per-user volume keys refresh.
pub proof fn law_voice_state_delete<V>(
    users: Map<Seq<char>, V>,
    channel: Option<String>,
    user_id: String,
    current_user_id: Option<Seq<char>>,
)
    ensures
        ({
            let event = RpcEvent::<V>::VoiceStateDelete { user_id: Some(user_id) };
            let after = users_after(users, channel, event, current_user_id);
            &&& !after.dom().contains(user_id@)
            &&& is_current_user(user_id@, current_user_id) ==> after == Map::<Seq<char>, V>::empty()
            &&& !is_current_user(user_id@, current_user_id) ==> after == users.remove(user_id@)
            &&& rpc_effects(channel, event, current_user_id) == seq![
                RpcEffect::Refresh(InstanceGroup::UserVolumeControl),
            ]
        }),
{
}

/// Reporting the same departure twice leaves the users as reporting it once.
pub proof fn law_voice_state_delete_idempotent<V>(
    users: Map<Seq<char>, V>,
    channel: Option<String>,
    user_id: String,
    current_user_id: Option<Seq<char>>,
)
    ensures
        ({
            let event = RpcEvent::<V>::VoiceStateDelete { user_id: Some(user_id) };
            let once = users_after(users, channel, event, current_user_id);
            users_after(once, channel_after(channel, event), event, current_user_id) == once
        }),
{
    let event = RpcEvent::<V>::VoiceStateDelete { user_id: Some(user_id) };
    let once = users_after(users, channel, event, current_user_id);
    if !is_current_user(user_id@, current_user_id) {
        assert(once.remove(user_id@) =~= once);
    }
}

/// When the connection closes, every user is forgotten and a reconnection is
/// scheduled.
pub proof fn law_socket_closed_forgets_users<V>(
    users: Map<Seq<char>, V>,
    channel: Option<String>,
    current_user_id: Option<Seq<char>>,
)
    ensures
        users_after(users, channel, RpcEvent::SocketClosed, current_user_id) == Map::<
            Seq<char>,
            V,
        >::empty(),
        rpc_effects(channel, RpcEvent::<V>::SocketClosed, current_user_id).contains(
            RpcEffect::ScheduleReconnect,
        ),
{
    assert(rpc_effects(channel, RpcEvent::<V>::SocketClosed, current_user_id)[1]
        == RpcEffect::ScheduleReconnect);
}

/// Selecting the voice channel that is already selected does nothing: no work,
/// and users and channel stay as they are. So selecting a channel twice does no
/// more than selecting it once.
pub proof fn law_channel_selection_idempotent<V>(
    users: Map<Seq<char>, V>,
    channel: Option<String>,
    channel_id: Option<String>,
    current_user_id: Option<Seq<char>>,
)
    ensures
        ({
            let event = RpcEvent::<V>::VoiceChannelSelected { channel_id };
            let channel1 = channel_after(channel, event);
            let users1 = users_after(users, channel, event, current_user_id);
            &&& channel_after(channel1, event) == channel1
            &&& users_after(users1, channel1, event, current_user_id) == users1
            &&& rpc_effects(channel1, event, current_user_id) == Seq::<RpcEffect>::empty()
        }),
{
}

/// Moving to another voice channel forgets the users of the channel that was
/// left, leaves that channel's voice states and joins the new one's.
pub proof fn law_channel_change_forgets_users<V>(
    users: Map<Seq<char>, V>,
    old_channel: String,
    new_channel: String,
    current_user_id: Option<Seq<char>>,
)
    requires
        old_channel@ != new_channel@,
    ensures
        ({
            let event = RpcEvent::<V>::VoiceChannelSelected { channel_id: Some(new_channel) };
            &&& users_after(users, Some(old_channel), event, current_user_id) == Map::<
                Seq<char>,
                V,
            >::empty()
            &&& channel_after(Some(old_channel), event) == Some(new_channel)
            &&& rpc_effects(Some(old_channel), event, current_user_id) == seq![
                RpcEffect::UnsubscribeVoiceStates(old_channel),
                RpcEffect::SubscribeVoiceStates(new_channel),
                RpcEffect::Refresh(InstanceGroup::VoiceChannel),
                RpcEffect::Refresh(InstanceGroup::UserVolumeControl),
            ]
        }),
{
}

/// Whatever voice settings are reported, the mute key shows active whenever the
/// user is deafened, and the audio device keys refresh last.
pub proof fn law_deafened_shows_muted(report: VoiceSettingsReport)
    ensures
        ({
            let effects = voice_settings_effects(report);
            &&& effects.len() >= 3
            &&& effects[0] == RpcEffect::SetActionState {
                action: ToggleAction::ToggleMute,
                state: state_index(report.mute.unwrap_or(false) || report.deaf.unwrap_or(false)),
            }
            &&& report.deaf == Some(true) ==> effects[0] == RpcEffect::SetActionState {
                action: ToggleAction::ToggleMute,
                state: 1,
            }
            &&& effects[effects.len() - 1] == RpcEffect::Refresh(InstanceGroup::SetAudioDevice)
        }),
{
}

/// A refused access token, and only that error, clears the token and reconnects;
/// no error touches the users or the channel.
pub proof fn law_invalid_token_reconnects<V>(
    users: Map<Seq<char>, V>,
    channel: Option<String>,
    code: i64,
    current_user_id: Option<Seq<char>>,
)
    ensures
        ({
            let event = RpcEvent::<V>::Error { code };
            &&& code == INVALID_TOKEN_ERROR ==> rpc_effects(channel, event, current_user_id) == seq![
                RpcEffect::ClearAccessToken,
                RpcEffect::ScheduleReconnect,
            ]
            &&& code != INVALID_TOKEN_ERROR ==> rpc_effects(channel, event, current_user_id)
                == Seq::<RpcEffect>::empty()
            &&& users_after(users, channel, event, current_user_id) == users
            &&& channel_after(channel, event) == channel
        }),
{
}

/// Lowering the volume by a key moves it by exactly as much as raising it by a
/// key with the same step.
pub proof fn law_decrease_undoes_increase(step: u8, set_volume: u8)
    ensures
        key_value(UserVolumeControlActionType::Decrease, step, set_volume) == -key_value(
            UserVolumeControlActionType::Increase,
            step,
            set_volume,
        ),
{
}

/// Turning the dial one tick up moves the volume as one press of a raising key,
/// and turning it back by the same number of ticks moves it by the opposite amount.
pub proof fn law_dial_matches_keys(step: u8, set_volume: u8, ticks: int)
    ensures
        step as int * 1 == key_value(UserVolumeControlActionType::Increase, step, set_volume),
        step as int * (-ticks) == -(step as int * ticks),
{
    assert(step as int * (-ticks) == -(step as int * ticks)) by (nonlinear_arith);
}

/// An output device can be turned up further than an input device.
pub proof fn law_output_louder_than_input()
    ensures
        max_volume_percent(AudioDeviceType::Input) == 100,
        max_volume_percent(AudioDeviceType::Output) == 200,
        max_volume_percent(AudioDeviceType::Input) < max_volume_percent(AudioDeviceType::Output),
{
}

/// A user without a known avatar gets Discord's default picture, whoever it is.
pub proof fn law_default_avatar_for_all(a: Seq<char>, b: Seq<char>)
    ensures
        avatar_url(a, None) == avatar_url(b, None),
{
}

/// Whatever voice settings are reported, the deafen key shows active exactly when
/// the user is deafened, whatever the mute is, and the mute key shows active
/// exactly when the user is muted or deafened.
pub proof fn law_deafen_key_follows_deaf(report: VoiceSettingsReport)
    ensures
        voice_settings_effects(report).len() >= 3,
        voice_settings_effects(report)[0] == (RpcEffect::SetActionState {
            action: ToggleAction::ToggleMute,
            state: if report.mute == Some(true) || report.deaf == Some(true) {
                1u16
            } else {
                0u16
            },
        }),
        voice_settings_effects(report)[1] == (RpcEffect::SetActionState {
            action: ToggleAction::ToggleDeafen,
            state: if report.deaf == Some(true) {
                1u16
            } else {
                0u16
            },
        }),
{
}

/// The video and screen share keys show 1 when the camera or the screen share is on
/// and 0 when it is off, and nothing else is done.
pub proof fn law_video_and_screenshare_states<V>(
    channel: Option<String>,
    active: bool,
    current_user_id: Option<Seq<char>>,
)
    ensures
        rpc_effects(channel, RpcEvent::<V>::VideoState { active }, current_user_id) == seq![
            RpcEffect::SetActionState {
                action: ToggleAction::ToggleVideo,
                state: if active {
                    1u16
                } else {
                    0u16
                },
            },
        ],
        rpc_effects(channel, RpcEvent::<V>::ScreenshareState { active }, current_user_id) == seq![
            RpcEffect::SetActionState {
                action: ToggleAction::ToggleScreenshare,
                state: if active {
                    1u16
                } else {
                    0u16
                },
            },
        ],
        rpc_effects(channel, RpcEvent::<V>::VideoState { active: false }, current_user_id)[0]
            == (RpcEffect::SetActionState { action: ToggleAction::ToggleVideo, state: 0 }),
{
}

/// Leaving a voice channel for another one, or for none, forgets every user of
/// the channel that was left, and the newly selected channel (or none) is kept.
pub proof fn law_leaving_channel_forgets_users<V>(
    users: Map<Seq<char>, V>,
    old_channel: String,
    channel_id: Option<String>,
    current_user_id: Option<Seq<char>>,
)
    requires
        !(channel_id matches Some(new_channel) && new_channel@ == old_channel@),
    ensures
        users_after(
            users,
            Some(old_channel),
            RpcEvent::VoiceChannelSelected { channel_id },
            current_user_id,
        ) == Map::<Seq<char>, V>::empty(),
        channel_after(Some(old_channel), RpcEvent::<V>::VoiceChannelSelected { channel_id })
            == channel_id,
{
}

/// A raising key moves the volume up by its step, a lowering key down by its step,
/// and a setting key asks for its configured volume, whatever that volume is.
pub proof fn law_key_values(step: u8, set_volume: u8)
    ensures
        key_value(UserVolumeControlActionType::Increase, step, set_volume) == step as int,
        key_value(UserVolumeControlActionType::Decrease, step, set_volume) == -(step as int),
        key_value(UserVolumeControlActionType::SetVolume, step, set_volume) == set_volume as int,
{
}

/// The avatar reported for the user in the voice channel wins over the one saved in
/// the key; the saved one is used only when the voice channel reports none; and an
/// avatar hash names the user's own picture.
pub proof fn law_voice_avatar_wins(
    settings: UserVolumeControlSettings,
    voice_user: UserVoiceSettings,
    user_id: Seq<char>,
    hash: Seq<char>,
)
    ensures
        voice_user.avatar matches Some(h) ==> icon_avatar_hash(settings, Some(&voice_user))
            == Some(h@),
        voice_user.avatar is None ==> icon_avatar_hash(settings, Some(&voice_user))
            == opt_string_view(settings.user_avatar),
        icon_avatar_hash(settings, None) == opt_string_view(settings.user_avatar),
        avatar_url(user_id, Some(hash)) == "https://cdn.discordapp.com/avatars/"@ + user_id + "/"@
            + hash + ".png"@,
{
}

} // verus!
