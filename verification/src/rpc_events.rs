use vstd::prelude::*;
use vstd::string::StringExecFns;
use crate::voice_users::VoiceUserMap;

verus! {

/// The Discord RPC error code that says the access token was refused.
pub const INVALID_TOKEN_ERROR: i64 = 4006;

/// The toggle actions whose shown state follows Discord.
#[derive(Debug, Clone, Copy, PartialEq, Eq, Structural)]
pub enum ToggleAction {
    ToggleMute,
    ToggleDeafen,
    ToggleVoiceInputMode,
    ToggleVideo,
    ToggleScreenshare,
}

/// The actions whose visible instances are asked to refresh.
#[derive(Debug, Clone, Copy, PartialEq, Eq, Structural)]
pub enum InstanceGroup {
    /// Per-user volume keys: they reload their settings.
    UserVolumeControl,
    /// Voice channel keys: they reload their settings.
    VoiceChannel,
    /// Audio device keys: they are sent the available devices.
    SetAudioDevice,
    /// Notification keys: they update their title.
    Notifications,
}

/// The voice settings that Discord reports, as far as the decisions read them.
/// The device volumes and lists stay with the caller.
#[derive(Debug, Clone)]
pub struct VoiceSettingsReport {
    pub mute: Option<bool>,
    pub deaf: Option<bool>,
    /// The input mode, such as `PUSH_TO_TALK` or `VOICE_ACTIVITY`, when reported.
    pub mode_type: Option<String>,
    /// Whether the report holds input device settings.
    pub has_input: bool,
    /// Whether the report holds output device settings.
    pub has_output: bool,
}

/// An event or command reply received from Discord, with the data the decisions
/// read. `V` is what is stored for another user in the voice channel.
#[derive(Debug, Clone)]
pub enum RpcEvent<V> {
    /// An error with its code.
    Error { code: i64 },
    /// Voice settings, whether pushed as an update or returned by a query.
    VoiceSettings(VoiceSettingsReport),
    /// A user joined the voice channel or changed state; `user_id` is `None` when
    /// Discord names no user.
    VoiceStateUpsert { user_id: Option<String>, settings: V },
    /// A user left the voice channel.
    VoiceStateDelete { user_id: Option<String> },
    VideoState { active: bool },
    ScreenshareState { active: bool },
    /// The selected voice channel, whether pushed or returned by a query; `None`
    /// when the user is in no voice channel.
    VoiceChannelSelected { channel_id: Option<String> },
    NotificationCreated,
    Guilds,
    Channels,
    SoundboardSounds,
    /// The connection to Discord closed.
    SocketClosed,
    /// Anything else, which is ignored.
    Other,
}

/// Outside work that an event calls for, in the order it is to be done.
#[derive(Debug, Clone, PartialEq, Eq)]
pub enum RpcEffect {
    /// Clear the stored access token and save the plugin settings.
    ClearAccessToken,
    ScheduleReconnect,
    /// Show `state` on every visible instance of `action`.
    SetActionState { action: ToggleAction, state: u16 },
    /// Keep the reported voice input mode.
    StoreVoiceMode,
    /// Keep the reported input device settings.
    StoreInputDevice,
    /// Keep the reported output device settings.
    StoreOutputDevice,
    Refresh(InstanceGroup),
    SubscribeVoiceStates(String),
    UnsubscribeVoiceStates(String),
    CacheNotification,
    UpdateGuildCache,
    SendGuilds,
    SendChannels,
    UpdateSoundboardCache,
    SendSounds,
    ClearGuildCache,
}

/// The state index shown for a toggle: 1 when active, 0 otherwise.
pub open spec fn state_index(active: bool) -> u16 {
    if active {
        1
    } else {
        0
    }
}

/// The state index shown for a toggle: 1 when active, 0 otherwise.
pub fn action_state(active: bool) -> (state: u16)
    ensures
        state == state_index(active),
{
    if active {
        1
    } else {
        0
    }
}

/// The effects of reported voice settings: the mute key shows active when muted or
/// deafened, the deafen key when deafened; a reported mode sets the input mode key
/// (active for push to talk) and is kept; reported devices are kept; then the
/// audio device keys refresh.
pub open spec fn voice_settings_effects(report: VoiceSettingsReport) -> Seq<RpcEffect> {
    let mute = report.mute.unwrap_or(false);
    let deaf = report.deaf.unwrap_or(false);
    let toggles = seq![
        RpcEffect::SetActionState { action: ToggleAction::ToggleMute, state: state_index(mute || deaf) },
        RpcEffect::SetActionState { action: ToggleAction::ToggleDeafen, state: state_index(deaf) },
    ];
    let mode = match report.mode_type {
        Some(m) => seq![
            RpcEffect::SetActionState {
                action: ToggleAction::ToggleVoiceInputMode,
                state: state_index(m@ == "PUSH_TO_TALK"@),
            },
            RpcEffect::StoreVoiceMode,
        ],
        None => Seq::empty(),
    };
    let input = if report.has_input {
        seq![RpcEffect::StoreInputDevice]
    } else {
        Seq::empty()
    };
    let output = if report.has_output {
        seq![RpcEffect::StoreOutputDevice]
    } else {
        Seq::empty()
    };
    toggles + mode + input + output + seq![RpcEffect::Refresh(InstanceGroup::SetAudioDevice)]
}

/// Whether `user_id` names the current user.
pub open spec fn is_current_user(user_id: Seq<char>, current_user_id: Option<Seq<char>>) -> bool {
    current_user_id == Some(user_id)
}

/// Whether two optional channel ids name the same channel.
pub open spec fn same_channel(a: Option<String>, b: Option<String>) -> bool {
    match (a, b) {
        (Some(x), Some(y)) => x@ == y@,
        (None, None) => true,
        _ => false,
    }
}

/// The voice state the plugin keeps between Discord events: the other users of
/// the current voice channel and that channel.
pub struct VoiceSession<V> {
    pub users: VoiceUserMap<V>,
    pub voice_channel: Option<String>,
}

/// The users kept after `event`, from `users` and the channel `channel` before it.
pub open spec fn users_after<V>(
    users: Map<Seq<char>, V>,
    channel: Option<String>,
    event: RpcEvent<V>,
    current_user_id: Option<Seq<char>>,
) -> Map<Seq<char>, V> {
    match event {
        RpcEvent::VoiceStateUpsert { user_id: Some(id), settings } => if is_current_user(
            id@,
            current_user_id,
        ) {
            users
        } else {
            users.insert(id@, settings)
        },
        RpcEvent::VoiceStateDelete { user_id: Some(id) } => if is_current_user(
            id@,
            current_user_id,
        ) {
            Map::empty()
        } else {
            users.remove(id@)
        },
        RpcEvent::VoiceChannelSelected { channel_id } => if !same_channel(channel, channel_id)
            && channel is Some {
            Map::empty()
        } else {
            users
        },
        RpcEvent::SocketClosed => Map::empty(),
        _ => users,
    }
}

/// The voice channel kept after `event`.
pub open spec fn channel_after<V>(channel: Option<String>, event: RpcEvent<V>) -> Option<String> {
    match event {
        RpcEvent::VoiceChannelSelected { channel_id } => if same_channel(channel, channel_id) {
            channel
        } else {
            channel_id
        },
        _ => channel,
    }
}

/// The outside work that `event` calls for, given the voice channel before it.
pub open spec fn rpc_effects<V>(
    channel: Option<String>,
    event: RpcEvent<V>,
    current_user_id: Option<Seq<char>>,
) -> Seq<RpcEffect> {
    match event {
        RpcEvent::Error { code } => if code == INVALID_TOKEN_ERROR {
            seq![RpcEffect::ClearAccessToken, RpcEffect::ScheduleReconnect]
        } else {
            Seq::empty()
        },
        RpcEvent::VoiceSettings(report) => voice_settings_effects(report),
        RpcEvent::VoiceStateUpsert { user_id, settings } => match user_id {
            Some(id) => if is_current_user(id@, current_user_id) {
                Seq::empty()
            } else {
                seq![RpcEffect::Refresh(InstanceGroup::UserVolumeControl)]
            },
            None => Seq::empty(),
        },
        RpcEvent::VoiceStateDelete { user_id } => match user_id {
            Some(_) => seq![RpcEffect::Refresh(InstanceGroup::UserVolumeControl)],
            None => Seq::empty(),
        },
        RpcEvent::VideoState { active } => seq![
            RpcEffect::SetActionState { action: ToggleAction::ToggleVideo, state: state_index(active) },
        ],
        RpcEvent::ScreenshareState { active } => seq![
            RpcEffect::SetActionState {
                action: ToggleAction::ToggleScreenshare,
                state: state_index(active),
            },
        ],
        RpcEvent::VoiceChannelSelected { channel_id } => if same_channel(channel, channel_id) {
            Seq::empty()
        } else {
            let leave = match channel {
                Some(old) => seq![RpcEffect::UnsubscribeVoiceStates(old)],
                None => Seq::empty(),
            };
            let join = match channel_id {
                Some(new) => seq![RpcEffect::SubscribeVoiceStates(new)],
                None => Seq::empty(),
            };
            leave + join + seq![
                RpcEffect::Refresh(InstanceGroup::VoiceChannel),
                RpcEffect::Refresh(InstanceGroup::UserVolumeControl),
            ]
        },
        RpcEvent::NotificationCreated => seq![
            RpcEffect::CacheNotification,
            RpcEffect::Refresh(InstanceGroup::Notifications),
        ],
        RpcEvent::Guilds => seq![RpcEffect::UpdateGuildCache, RpcEffect::SendGuilds],
        RpcEvent::Channels => seq![RpcEffect::SendChannels],
        RpcEvent::SoundboardSounds => seq![RpcEffect::UpdateSoundboardCache, RpcEffect::SendSounds],
        RpcEvent::SocketClosed => seq![RpcEffect::ClearGuildCache, RpcEffect::ScheduleReconnect],
        RpcEvent::Other => Seq::empty(),
    }
}

/// The view of an optional string.
pub open spec fn opt_id_view(s: Option<&String>) -> Option<Seq<char>> {
    match s {
        Some(t) => Some(t@),
        None => None,
    }
}

/// Whether `user_id` is the current user's id.
fn names_current_user(user_id: &String, current_user_id: Option<&String>) -> (b: bool)
    ensures
        b == is_current_user(user_id@, opt_id_view(current_user_id)),
{
    match current_user_id {
        Some(current) => *current == *user_id,
        None => false,
    }
}

/// Whether two optional channel ids name the same channel.
fn channels_equal(a: &Option<String>, b: &Option<String>) -> (same: bool)
    ensures
        same == same_channel(*a, *b),
{
    match (a, b) {
        (Some(x), Some(y)) => *x == *y,
        (None, None) => true,
        _ => false,
    }
}

/// The effects of reported voice settings.
fn voice_settings_plan(report: &VoiceSettingsReport) -> (effects: Vec<RpcEffect>)
    ensures
        effects@ == voice_settings_effects(*report),
{
    let mute = match report.mute {
        Some(m) => m,
        None => false,
    };
    let deaf = match report.deaf {
        Some(d) => d,
        None => false,
    };
    let mut effects: Vec<RpcEffect> = Vec::new();
    effects.push(
        RpcEffect::SetActionState { action: ToggleAction::ToggleMute, state: action_state(mute || deaf) },
    );
    effects.push(
        RpcEffect::SetActionState { action: ToggleAction::ToggleDeafen, state: action_state(deaf) },
    );
    let ghost toggles = effects@;
    match &report.mode_type {
        Some(mode) => {
            let push_to_talk = String::from_str("PUSH_TO_TALK");
            let is_ptt = *mode == push_to_talk;
            effects.push(
                RpcEffect::SetActionState {
                    action: ToggleAction::ToggleVoiceInputMode,
                    state: action_state(is_ptt),
                },
            );
            effects.push(RpcEffect::StoreVoiceMode);
        },
        None => {},
    }
    let ghost with_mode = effects@;
    if report.has_input {
        effects.push(RpcEffect::StoreInputDevice);
    }
    let ghost with_input = effects@;
    if report.has_output {
        effects.push(RpcEffect::StoreOutputDevice);
    }
    effects.push(RpcEffect::Refresh(InstanceGroup::SetAudioDevice));
    effects
}

impl<V> VoiceSession<V> {
    /// The session is well formed: its user map is.
    pub open spec fn wf(&self) -> bool {
        self.users.wf()
    }

    /// A session in no voice channel with no users.
    pub fn new() -> (session: Self)
        ensures
            session.wf(),
            session.users@ == Map::<Seq<char>, V>::empty(),
            session.voice_channel is None,
    {
        VoiceSession { users: VoiceUserMap::new(), voice_channel: None }
    }

    /// Takes in one Discord event: updates the users and the voice channel, and
    /// returns the outside work the event calls for, in order. `current_user_id` is
    /// the id of the user the plugin runs for, once known.
    pub fn handle_rpc_event(&mut self, event: RpcEvent<V>, current_user_id: Option<&String>) -> (effects:
        Vec<RpcEffect>)
        requires
            old(self).wf(),
        ensures
            final(self).wf(),
            final(self).users@ == users_after(
                old(self).users@,
                old(self).voice_channel,
                event,
                opt_id_view(current_user_id),
            ),
            final(self).voice_channel == channel_after(old(self).voice_channel, event),
            effects@ == rpc_effects(old(self).voice_channel, event, opt_id_view(current_user_id)),
            event matches RpcEvent::VoiceSettings(report) ==> {
                &&& effects@.len() >= 3
                &&& effects@[0] == RpcEffect::SetActionState {
                    action: ToggleAction::ToggleMute,
                    state: if report.mute == Some(true) || report.deaf == Some(true) {
                        1u16
                    } else {
                        0u16
                    },
                }
                &&& effects@[1] == RpcEffect::SetActionState {
                    action: ToggleAction::ToggleDeafen,
                    state: if report.deaf == Some(true) {
                        1u16
                    } else {
                        0u16
                    },
                }
            },
            event matches RpcEvent::VideoState { active } ==> effects@ == seq![
                RpcEffect::SetActionState {
                    action: ToggleAction::ToggleVideo,
                    state: if active {
                        1u16
                    } else {
                        0u16
                    },
                },
            ],
            event matches RpcEvent::ScreenshareState { active } ==> effects@ == seq![
                RpcEffect::SetActionState {
                    action: ToggleAction::ToggleScreenshare,
                    state: if active {
                        1u16
                    } else {
                        0u16
                    },
                },
            ],
            ({
                &&& event matches RpcEvent::VoiceChannelSelected { channel_id }
                &&& old(self).voice_channel matches Some(old_channel)
                &&& !(channel_id matches Some(new_channel) && new_channel@ == old_channel@)
            }) ==> final(self).users@ == Map::<Seq<char>, V>::empty(),
    {
        let mut effects: Vec<RpcEffect> = Vec::new();
        match event {
            RpcEvent::Error { code } => {
                if code == INVALID_TOKEN_ERROR {
                    effects.push(RpcEffect::ClearAccessToken);
                    effects.push(RpcEffect::ScheduleReconnect);
                }
            },
            RpcEvent::VoiceSettings(report) => {
                effects = voice_settings_plan(&report);
            },
            RpcEvent::VoiceStateUpsert { user_id, settings } => {
                match user_id {
                    Some(id) => {
                        if !names_current_user(&id, current_user_id) {
                            self.users.insert(id, settings);
                            effects.push(RpcEffect::Refresh(InstanceGroup::UserVolumeControl));
                        }
                    },
                    None => {},
                }
            },
            RpcEvent::VoiceStateDelete { user_id } => {
                match user_id {
                    Some(id) => {
                        if names_current_user(&id, current_user_id) {
                            self.users.clear();
                        } else {
                            self.users.remove(&id);
                        }
                        effects.push(RpcEffect::Refresh(InstanceGroup::UserVolumeControl));
                    },
                    None => {},
                }
            },
            RpcEvent::VideoState { active } => {
                effects.push(
                    RpcEffect::SetActionState {
                        action: ToggleAction::ToggleVideo,
                        state: action_state(active),
                    },
                );
            },
            RpcEvent::ScreenshareState { active } => {
                effects.push(
                    RpcEffect::SetActionState {
                        action: ToggleAction::ToggleScreenshare,
                        state: action_state(active),
                    },
                );
            },
            RpcEvent::VoiceChannelSelected { channel_id } => {
                effects = self.select_voice_channel(channel_id);
            },
            RpcEvent::NotificationCreated => {
                effects.push(RpcEffect::CacheNotification);
                effects.push(RpcEffect::Refresh(InstanceGroup::Notifications));
            },
            RpcEvent::Guilds => {
                effects.push(RpcEffect::UpdateGuildCache);
                effects.push(RpcEffect::SendGuilds);
            },
            RpcEvent::Channels => {
                effects.push(RpcEffect::SendChannels);
            },
            RpcEvent::SoundboardSounds => {
                effects.push(RpcEffect::UpdateSoundboardCache);
                effects.push(RpcEffect::SendSounds);
            },
            RpcEvent::SocketClosed => {
                effects.push(RpcEffect::ClearGuildCache);
                self.users.clear();
                effects.push(RpcEffect::ScheduleReconnect);
            },
            RpcEvent::Other => {},
        }
        effects
    }

    /// Moves the session to the voice channel `channel_id`: nothing changes when it
    /// is the current one; otherwise the old channel is left, its users forgotten,
    /// and the new one joined.
    fn select_voice_channel(&mut self, channel_id: Option<String>) -> (effects: Vec<RpcEffect>)
        requires
            old(self).wf(),
        ensures
            final(self).wf(),
            final(self).users@ == users_after(
                old(self).users@,
                old(self).voice_channel,
                RpcEvent::VoiceChannelSelected { channel_id },
                None,
            ),
            final(self).voice_channel == channel_after(
                old(self).voice_channel,
                RpcEvent::<V>::VoiceChannelSelected { channel_id },
            ),
            effects@ == rpc_effects(
                old(self).voice_channel,
                RpcEvent::<V>::VoiceChannelSelected { channel_id },
                None,
            ),
    {
        let mut effects: Vec<RpcEffect> = Vec::new();
        if channels_equal(&self.voice_channel, &channel_id) {
            return effects;
        }
        let old_channel = self.voice_channel.take();
        match old_channel {
            Some(old) => {
                effects.push(RpcEffect::UnsubscribeVoiceStates(old));
                self.users.clear();
            },
            None => {},
        }
        let ghost leave = effects@;
        match &channel_id {
            Some(new) => {
                effects.push(RpcEffect::SubscribeVoiceStates(new.clone()));
            },
            None => {},
        }
        self.voice_channel = channel_id;
        effects.push(RpcEffect::Refresh(InstanceGroup::VoiceChannel));
        effects.push(RpcEffect::Refresh(InstanceGroup::UserVolumeControl));
        effects
    }
}

} // verus!
