use vstd::prelude::*;
use vstd::string::StringExecFns;
use vstd::utf8::encode_utf8;
use crate::encoding::{base64_encode, base64_standard, base64_padded_len};

verus! {

/// What a press of the per-user volume key does.
#[derive(Debug, Clone, Copy, PartialEq, Eq, Structural)]
pub enum UserVolumeControlActionType {
    Increase,
    Decrease,
    SetVolume,
    Mute,
}

impl Default for UserVolumeControlActionType {
    /// A new key raises the volume.
    fn default() -> (action: Self)
        ensures
            action == UserVolumeControlActionType::Increase,
    {
        UserVolumeControlActionType::Increase
    }
}

/// The settings of one per-user volume key or dial.
#[derive(Debug, Clone)]
pub struct UserVolumeControlSettings {
    pub action_type: UserVolumeControlActionType,
    /// Percentage points added or taken away per press or dial tick.
    pub step_size: u8,
    /// The volume, in percent, that a `Set` key applies.
    pub set_volume: u8,
    pub user_id: Option<String>,
    pub user_nick: Option<String>,
    pub user_avatar: Option<String>,
}

impl Default for UserVolumeControlSettings {
    /// A key that raises the volume by 5 percent, sets it to 100 percent in `Set`
    /// mode, and is bound to no user yet.
    fn default() -> (settings: Self)
        ensures
            settings.action_type == UserVolumeControlActionType::Increase,
            settings.step_size == 5,
            settings.set_volume == 100,
            settings.user_id is None,
            settings.user_nick is None,
            settings.user_avatar is None,
    {
        UserVolumeControlSettings {
            action_type: UserVolumeControlActionType::default(),
            step_size: 5,
            set_volume: 100,
            user_id: None,
            user_nick: None,
            user_avatar: None,
        }
    }
}

/// What Discord reports of another user in the voice channel, without the
/// volume, which the caller keeps beside it as a float.
#[derive(Debug, Clone)]
pub struct UserVoiceSettings {
    pub nick: String,
    pub mute: bool,
    pub self_mute: bool,
    pub self_deaf: bool,
    pub server_mute: bool,
    pub server_deaf: bool,
    pub avatar: Option<String>,
}

/// The view of an optional string slice.
pub open spec fn opt_str_view(s: Option<&str>) -> Option<Seq<char>> {
    match s {
        Some(t) => Some(t@),
        None => None,
    }
}

/// The view of an optional string.
pub open spec fn opt_string_view(s: Option<String>) -> Option<Seq<char>> {
    match s {
        Some(t) => Some(t@),
        None => None,
    }
}

/// The URL of a user's Discord avatar: the user's own picture when the avatar
/// hash is known, Discord's default picture otherwise.
pub open spec fn avatar_url(user_id: Seq<char>, avatar_hash: Option<Seq<char>>) -> Seq<char> {
    match avatar_hash {
        Some(hash) => "https://cdn.discordapp.com/avatars/"@ + user_id + "/"@ + hash + ".png"@,
        None => "https://cdn.discordapp.com/embed/avatars/0.png"@,
    }
}

/// The URL of the avatar of `user_id` with the given avatar hash.
pub fn get_avatar_url(user_id: &str, avatar_hash: Option<&str>) -> (url: String)
    ensures
        url@ == avatar_url(user_id@, opt_str_view(avatar_hash)),
{
    match avatar_hash {
        Some(hash) => {
            let mut url = String::from_str("https://cdn.discordapp.com/avatars/");
            url.append(user_id);
            url.append("/");
            url.append(hash);
            url.append(".png");
            url
        },
        None => String::from_str("https://cdn.discordapp.com/embed/avatars/0.png"),
    }
}

/// The SVG text before the embedded image URI: a 144x144 picture with a filter
/// that scales the colour channels to two thirds.
pub const DIMMED_SVG_HEAD: &'static str = "<svg xmlns=\"http://www.w3.org/2000/svg\" width=\"144\" height=\"144\">
            <filter id=\"dim\">
                <feColorMatrix type=\"matrix\" values=\"
                    0.66 0    0    0 0
                    0    0.66 0    0 0
                    0    0    0.66 0 0
                    0    0    0    1 0\" />
            </filter>
            <image href=\"";

/// The SVG text after the embedded image URI: the image is drawn with that
/// filter at 40 percent opacity.
pub const DIMMED_SVG_TAIL: &'static str = "\" width=\"144\" height=\"144\" filter=\"url(#dim)\" opacity=\"0.4\"/>
        </svg>";

/// The SVG document that shows the image at `image_uri` dimmed.
pub open spec fn dimmed_svg_text(image_uri: Seq<char>) -> Seq<char> {
    DIMMED_SVG_HEAD@ + image_uri + DIMMED_SVG_TAIL@
}

/// A `data:` URI of an SVG image given as base64 text.
pub open spec fn svg_data_uri_text(base64_svg: Seq<char>) -> Seq<char> {
    "data:image/svg+xml;base64,"@ + base64_svg
}

/// A `data:` URI of a PNG image given as base64 text.
pub open spec fn png_data_uri_text(base64_png: Seq<char>) -> Seq<char> {
    "data:image/png;base64,"@ + base64_png
}

/// The dimmed-image URI of `image_uri`: the base64 encoding of the UTF-8 bytes of
/// the dimming SVG, as an SVG data URI.
pub open spec fn dimmed_svg_uri_text(image_uri: Seq<char>) -> Seq<char> {
    svg_data_uri_text(base64_standard(encode_utf8(dimmed_svg_text(image_uri))))
}

/// Whether the base64 text of the dimming SVG around `image_uri` has a length
/// that fits in `usize`.
pub open spec fn dimmed_svg_fits(image_uri: Seq<char>) -> bool {
    base64_padded_len(encode_utf8(dimmed_svg_text(image_uri)).len() as int) <= usize::MAX
}

/// The SVG document that shows the image at `image_data_uri` dimmed.
pub fn dimmed_svg(image_data_uri: &str) -> (svg: String)
    ensures
        svg@ == dimmed_svg_text(image_data_uri@),
{
    let mut svg = String::from_str(DIMMED_SVG_HEAD);
    svg.append(image_data_uri);
    svg.append(DIMMED_SVG_TAIL);
    svg
}

/// The SVG data URI of the base64 text `base64_svg`.
pub fn svg_data_uri(base64_svg: &str) -> (uri: String)
    ensures
        uri@ == svg_data_uri_text(base64_svg@),
{
    let mut uri = String::from_str("data:image/svg+xml;base64,");
    uri.append(base64_svg);
    uri
}

/// The PNG data URI of the base64 text `base64_png`.
pub fn png_data_uri(base64_png: &str) -> (uri: String)
    ensures
        uri@ == png_data_uri_text(base64_png@),
{
    let mut uri = String::from_str("data:image/png;base64,");
    uri.append(base64_png);
    uri
}

/// A data URI of an SVG image that shows the image at `image_data_uri` dimmed,
/// for a user who is not in the voice channel.
pub fn create_dimmed_svg_uri(image_data_uri: &str) -> (uri: String)
    requires
        dimmed_svg_fits(image_data_uri@),
    ensures
        uri@ == dimmed_svg_uri_text(image_data_uri@),
{
    let svg = dimmed_svg(image_data_uri);
    let base64_svg = base64_encode(svg.as_str().as_bytes());
    svg_data_uri(base64_svg.as_str())
}

/// The base64 text of a downloaded avatar picture.
pub fn encode_avatar(image: &[u8]) -> (base64_image: String)
    requires
        base64_padded_len(image@.len() as int) <= usize::MAX,
    ensures
        base64_image@ == base64_standard(image@),
{
    base64_encode(image)
}

/// Where the avatar of the key's user is fetched from, and whether that user is
/// in the voice channel now.
#[derive(Debug, Clone)]
pub struct AvatarRequest {
    pub url: String,
    pub in_voice: bool,
}

/// The user id that the key is bound to, when there is one and it is not empty.
pub open spec fn bound_user(settings: UserVolumeControlSettings) -> Option<Seq<char>> {
    match settings.user_id {
        Some(id) => if id@.len() > 0 {
            Some(id@)
        } else {
            None
        },
        None => None,
    }
}

/// The avatar hash used for the key: the one Discord reports for the user in the
/// voice channel, else the one saved in the key's settings.
pub open spec fn icon_avatar_hash(
    settings: UserVolumeControlSettings,
    voice_user: Option<&UserVoiceSettings>,
) -> Option<Seq<char>> {
    match voice_user {
        Some(u) if u.avatar is Some => Some(u.avatar->0@),
        _ => opt_string_view(settings.user_avatar),
    }
}

/// The avatar to fetch for the key's icon. `voice_user` is what the voice channel
/// holds for the key's user, if that user is in it. There is none when the key is
/// bound to no user or to an empty id; the icon is then cleared.
pub fn avatar_request(
    settings: &UserVolumeControlSettings,
    voice_user: Option<&UserVoiceSettings>,
) -> (request: Option<AvatarRequest>)
    ensures
        request is None <==> bound_user(*settings) is None,
        request matches Some(r) ==> {
            &&& r.url@ == avatar_url(bound_user(*settings)->0, icon_avatar_hash(*settings, voice_user))
            &&& r.in_voice == voice_user is Some
        },
        request matches Some(r) ==> match voice_user {
            Some(u) if u.avatar is Some => r.url@ == "https://cdn.discordapp.com/avatars/"@
                + settings.user_id->0@ + "/"@ + u.avatar->0@ + ".png"@,
            _ => match settings.user_avatar {
                Some(saved) => r.url@ == "https://cdn.discordapp.com/avatars/"@
                    + settings.user_id->0@ + "/"@ + saved@ + ".png"@,
                None => r.url@ == "https://cdn.discordapp.com/embed/avatars/0.png"@,
            },
        },
{
    let user_id = match &settings.user_id {
        Some(id) => id,
        None => return None,
    };
    if user_id.as_str().is_empty() {
        return None;
    }
    let hash: Option<&str> = match voice_user {
        Some(u) => match &u.avatar {
            Some(a) => Some(a.as_str()),
            None => match &settings.user_avatar {
                Some(a) => Some(a.as_str()),
                None => None,
            },
        },
        None => match &settings.user_avatar {
            Some(a) => Some(a.as_str()),
            None => None,
        },
    };
    let url = get_avatar_url(user_id.as_str(), hash);
    Some(AvatarRequest { url, in_voice: voice_user.is_some() })
}

/// The icon URI of the key, from the base64 text of the fetched avatar: the avatar
/// itself for a user in the voice channel, a dimmed copy otherwise.
pub open spec fn icon_uri_text(base64_image: Seq<char>, in_voice: bool) -> Seq<char> {
    if in_voice {
        png_data_uri_text(base64_image)
    } else {
        dimmed_svg_uri_text(png_data_uri_text(base64_image))
    }
}

/// The icon of the key, from the base64 text of the fetched avatar.
pub fn icon_image_uri(base64_image: &str, in_voice: bool) -> (uri: String)
    requires
        !in_voice ==> dimmed_svg_fits(png_data_uri_text(base64_image@)),
    ensures
        uri@ == icon_uri_text(base64_image@, in_voice),
{
    let image_data_uri = png_data_uri(base64_image);
    if in_voice {
        image_data_uri
    } else {
        create_dimmed_svg_uri(image_data_uri.as_str())
    }
}

/// A copy of an optional string.
fn clone_opt_string(s: &Option<String>) -> (c: Option<String>)
    ensures
        c == *s,
{
    match s {
        Some(t) => Some(t.clone()),
        None => None,
    }
}

/// The key's settings with the nick and avatar of its user saved in them, when the
/// key is bound to a user and `voice_user` holds what the voice channel reports of
/// that user; `None` when there is nothing to save.
pub fn with_user_metadata(
    settings: &UserVolumeControlSettings,
    voice_user: Option<&UserVoiceSettings>,
) -> (updated: Option<UserVolumeControlSettings>)
    ensures
        updated is Some <==> (settings.user_id is Some && voice_user is Some),
        updated matches Some(u) ==> {
            &&& u.action_type == settings.action_type
            &&& u.step_size == settings.step_size
            &&& u.set_volume == settings.set_volume
            &&& u.user_id == settings.user_id
            &&& u.user_nick == Some(voice_user->0.nick)
            &&& u.user_avatar == voice_user->0.avatar
        },
{
    if settings.user_id.is_none() {
        return None;
    }
    match voice_user {
        Some(user) => Some(
            UserVolumeControlSettings {
                action_type: settings.action_type,
                step_size: settings.step_size,
                set_volume: settings.set_volume,
                user_id: clone_opt_string(&settings.user_id),
                user_nick: Some(user.nick.clone()),
                user_avatar: clone_opt_string(&user.avatar),
            },
        ),
        None => None,
    }
}

/// What a key press or a dial turn asks of the user's volume.
#[derive(Debug, Clone, PartialEq, Eq)]
pub enum UserVolumePlan {
    /// The key is bound to no user: show an alert.
    MissingUser,
    /// Flip the mute of the user.
    ToggleMute { user_id: String },
    /// Set the volume to `value` percent when `set`, else move it by `value`
    /// percentage points.
    Adjust { user_id: String, value: i32, set: bool },
}

/// The signed amount in percent that a key press of this kind applies: the step
/// up or down, or the volume to set.
pub open spec fn key_value(action: UserVolumeControlActionType, step: u8, set_volume: u8) -> int {
    match action {
        UserVolumeControlActionType::Increase => step as int,
        UserVolumeControlActionType::Decrease => -(step as int),
        UserVolumeControlActionType::SetVolume => set_volume as int,
        UserVolumeControlActionType::Mute => 0,
    }
}

/// The per-user volume action: a key that raises, lowers or sets the volume of
/// one user of the voice channel, or flips that user's mute, and a dial that
/// moves the volume.
pub struct UserVolumeControlAction;

impl UserVolumeControlAction {
    /// What a key press does: flip the user's mute in `Mute` mode, else raise, lower
    /// or set the user's volume.
    pub fn key_up(&self, settings: &UserVolumeControlSettings) -> (plan: UserVolumePlan)
        ensures
            settings.user_id is None ==> plan == UserVolumePlan::MissingUser,
            settings.user_id matches Some(id) ==> plan == if settings.action_type
                == UserVolumeControlActionType::Mute {
                UserVolumePlan::ToggleMute { user_id: id }
            } else {
                UserVolumePlan::Adjust {
                    user_id: id,
                    value: key_value(settings.action_type, settings.step_size, settings.set_volume) as i32,
                    set: settings.action_type == UserVolumeControlActionType::SetVolume,
                }
            },
            settings.user_id matches Some(id) ==> match settings.action_type {
                UserVolumeControlActionType::Increase => plan == UserVolumePlan::Adjust {
                    user_id: id,
                    value: settings.step_size as i32,
                    set: false,
                },
                UserVolumeControlActionType::Decrease => plan == UserVolumePlan::Adjust {
                    user_id: id,
                    value: (-(settings.step_size as int)) as i32,
                    set: false,
                },
                UserVolumeControlActionType::SetVolume => plan == UserVolumePlan::Adjust {
                    user_id: id,
                    value: settings.set_volume as i32,
                    set: true,
                },
                UserVolumeControlActionType::Mute => plan == UserVolumePlan::ToggleMute {
                    user_id: id,
                },
            },
    {
        let user_id = match &settings.user_id {
            Some(id) => id.clone(),
            None => return UserVolumePlan::MissingUser,
        };
        match settings.action_type {
            UserVolumeControlActionType::Mute => UserVolumePlan::ToggleMute { user_id },
            UserVolumeControlActionType::Increase => UserVolumePlan::Adjust {
                user_id,
                value: settings.step_size as i32,
                set: false,
            },
            UserVolumeControlActionType::Decrease => UserVolumePlan::Adjust {
                user_id,
                value: -(settings.step_size as i32),
                set: false,
            },
            UserVolumeControlActionType::SetVolume => UserVolumePlan::Adjust {
                user_id,
                value: settings.set_volume as i32,
                set: true,
            },
        }
    }

    /// What turning the dial by `ticks` does: move the user's volume by one step per
    /// tick, up for positive ticks and down for negative ones.
    pub fn dial_rotate(&self, settings: &UserVolumeControlSettings, ticks: i16) -> (plan: UserVolumePlan)
        ensures
            settings.user_id is None ==> plan == UserVolumePlan::MissingUser,
            settings.user_id matches Some(id) ==> plan == (UserVolumePlan::Adjust {
                user_id: id,
                value: (settings.step_size as int * ticks as int) as i32,
                set: false,
            }),
    {
        match &settings.user_id {
            Some(id) => {
                assert(-32768 * 255 <= settings.step_size as int * ticks as int <= 32767 * 255)
                    by (nonlinear_arith)
                    requires
                        0 <= settings.step_size <= 255,
                        -32768 <= ticks <= 32767,
                ;
                let delta: i32 = (settings.step_size as i32) * (ticks as i32);
                UserVolumePlan::Adjust { user_id: id.clone(), value: delta, set: false }
            },
            None => UserVolumePlan::MissingUser,
        }
    }
}

/// The mute state to send for a user when the mute key is pressed: the opposite of
/// the user's current one; `None` when the user is not in the voice channel.
pub fn toggled_mute(voice_user: Option<&UserVoiceSettings>) -> (mute: Option<bool>)
    ensures
        mute == match voice_user {
            Some(u) => Some(!u.mute),
            None => None,
        },
{
    match voice_user {
        Some(user) => Some(!user.mute),
        None => None,
    }
}

} // verus!
