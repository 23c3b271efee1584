# oadiscord

Verified decision logic of the Discord voice-settings actions of an OpenAction
plugin.

- `src/voice_users.rs`: the map of the other users in the voice channel, keyed by
  user id, with its view as a `Map`.
- `src/rpc_events.rs`: the voice session, which takes in Discord RPC events, updates
  the users and the selected channel, and returns the outside work to do.
- `src/user_volume.rs`: the per-user volume action (key and dial plans, saved user
  metadata) and the icon it shows (avatar URL, data URIs, dimmed SVG).
- `src/audio_device.rs`: device kinds and their volume limits.
- `src/encoding.rs`: the call into the `base64` crate.
- `src/laws.rs`: properties of the session and the plans, proved.
- `app/`: the plugin side: async I/O, global state, serde copies of the types and
  the float volume curves.
