//! Decision logic of the Discord voice-settings actions of the OpenAction plugin:
//! the voice session bookkeeping driven by Discord RPC events, the plans of the
//! per-user volume control action, and the image and avatar URIs it shows.

pub mod audio_device;
pub mod voice_users;
pub mod encoding;
pub mod user_volume;
pub mod rpc_events;
pub mod laws;
