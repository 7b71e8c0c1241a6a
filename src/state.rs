use vstd::prelude::*;
use vstd::string::StringExecFns;

verus! {

/// Largest number of entries kept in the previous-track history.
pub const MAX_PREV_TRACKS: usize = 10;

/// One entry of the current track, the history or the context queue.
#[derive(Clone)]
pub struct ProvidedTrack {
    pub uri: String,
    pub uid: String,
    pub provider: String,
}

/// An entry of the user-curated play-next queue.
#[derive(Clone)]
pub struct QueuedTrack {
    pub uri: String,
    pub uid: String,
}

/// Position of the current track inside its context.
#[derive(Clone, Copy, Debug, PartialEq, Eq, Structural)]
pub struct ContextIndex {
    pub page: u32,
    pub track: u32,
}

/// Playback option flags.
#[derive(Clone, Copy, Debug, PartialEq, Eq, Structural)]
pub struct ContextPlayerOptions {
    pub shuffling_context: bool,
    pub repeating_context: bool,
    pub repeating_track: bool,
}

/// Provenance of the current playback.
#[derive(Clone)]
pub struct PlayOrigin {
    pub feature_identifier: String,
    pub feature_version: String,
    pub view_uri: String,
    pub referrer_identifier: String,
}

/// Providers whose tracks are suppressed.
#[derive(Clone)]
pub struct Suppressions {
    pub providers: Vec<String>,
}

/// The transport snapshot of this device.
#[derive(Clone)]
pub struct PlayerState {
    pub track: Option<ProvidedTrack>,
    pub prev_tracks: Vec<ProvidedTrack>,
    pub next_tracks: Vec<ProvidedTrack>,
    pub index: Option<ContextIndex>,
    pub options: Option<ContextPlayerOptions>,
    pub play_origin: Option<PlayOrigin>,
    pub suppressions: Option<Suppressions>,
    pub is_system_initiated: bool,
    pub is_playing: bool,
    pub is_paused: bool,
    pub is_buffering: bool,
    pub position_as_of_timestamp: i64,
    pub timestamp: i64,
}

/// The play-next queue and whether it is the source of the next track.
#[derive(Clone)]
pub struct Queue {
    pub tracks: Vec<QueuedTrack>,
    pub is_playing_queue: bool,
}

/// The kind of device announced to the other participants.
#[derive(Clone, Copy, Debug, PartialEq, Eq, Structural)]
pub enum DeviceType {
    Unknown,
    Computer,
    Tablet,
    Smartphone,
    Speaker,
    Tv,
    Avr,
    Stb,
    AudioDongle,
    GameConsole,
    CastAudio,
    CastVideo,
    Automobile,
    Smartwatch,
    Chromebook,
    UnknownSpotify,
    CarThing,
    Observer,
    HomeThing,
}

/// What this device can do.
#[derive(Clone)]
pub struct Capabilities {
    pub volume_steps: i32,
    pub hidden: bool,
    pub gaia_eq_connect_id: bool,
    pub can_be_player: bool,
    pub needs_full_player_state: bool,
    pub is_observable: bool,
    pub is_controllable: bool,
    pub supports_logout: bool,
    pub supported_types: Vec<String>,
    pub supports_playlist_v2: bool,
    pub supports_transfer_command: bool,
    pub supports_command_request: bool,
    pub supports_gzip_pushes: bool,
    pub supports_set_options_command: bool,
    pub is_voice_enabled: bool,
    pub restrict_to_local: bool,
    pub disable_volume: bool,
    pub connect_disabled: bool,
    pub supports_rename: bool,
    pub supports_external_episodes: bool,
    pub supports_set_backend_metadata: bool,
    pub command_acks: bool,
}

/// Identity, name, capabilities and volume of this device.
#[derive(Clone)]
pub struct DeviceInfo {
    pub can_play: bool,
    pub volume: u32,
    pub name: String,
    pub device_id: String,
    pub device_type: DeviceType,
    pub device_software_version: String,
    pub client_id: String,
    pub spirc_version: String,
    pub is_group: bool,
    pub capabilities: Capabilities,
}

/// Why the store could not advance.
#[derive(Clone, Copy, Debug, PartialEq, Eq, Structural)]
pub enum ConnectStateError {
    NoCurrentTrack,
    NoNextTrack,
    NoPreviousTrack,
}

/// An outside transport status, mapped onto the three transport flags.
#[derive(Clone, Copy, Debug, PartialEq, Eq, Structural)]
pub enum PlayStatus {
    Stopped,
    LoadingPause,
    Paused,
    LoadingPlay,
    Playing,
}

/// Start-up configuration of this device.
#[derive(Clone)]
pub struct ConnectStateConfig {
    pub initial_volume: u32,
    pub name: String,
    pub device_type: DeviceType,
    pub zeroconf_enabled: bool,
    pub volume_steps: i32,
    pub hidden: bool,
    pub is_group: bool,
}

/// The authoritative play state of this device. Times are milliseconds
/// since the Unix epoch.
#[derive(Clone)]
pub struct ConnectState {
    pub active: bool,
    pub active_since: Option<u64>,
    pub has_been_playing_for: Option<u64>,
    pub device: DeviceInfo,
    pub player: PlayerState,
    pub queue: Queue,
    pub last_command: Option<crate::request::Request>,
}

impl Default for ConnectStateConfig {
    fn default() -> (r: ConnectStateConfig)
        ensures
            r.initial_volume == 32767,
            r.name@ == "librespot"@,
            r.device_type == DeviceType::Speaker,
            !r.zeroconf_enabled,
            r.volume_steps == 64,
            !r.hidden,
            !r.is_group,
    {
        ConnectStateConfig {
            initial_volume: 65535u32 / 2,
            name: String::from_str("librespot"),
            device_type: DeviceType::Speaker,
            zeroconf_enabled: false,
            volume_steps: 64,
            hidden: false,
            is_group: false,
        }
    }
}

impl ConnectStateError {
    /// A short description of the error.
    pub fn message(&self) -> (r: String)
        ensures
            r@ == (match *self {
                ConnectStateError::NoCurrentTrack => "no current track"@,
                ConnectStateError::NoNextTrack => "no next track"@,
                ConnectStateError::NoPreviousTrack => "no previous track"@,
            }),
    {
        match self {
            ConnectStateError::NoCurrentTrack => String::from_str("no current track"),
            ConnectStateError::NoNextTrack => String::from_str("no next track"),
            ConnectStateError::NoPreviousTrack => String::from_str("no previous track"),
        }
    }
}

/// The history after `t` was pushed: the oldest entry leaves once the
/// history is full.
pub open spec fn push_history(prev: Seq<ProvidedTrack>, t: ProvidedTrack) -> Seq<ProvidedTrack> {
    if prev.len() >= MAX_PREV_TRACKS {
        prev.drop_first().push(t)
    } else {
        prev.push(t)
    }
}

/// The transport flags `(playing, paused, buffering)` for a status.
pub open spec fn status_flags(status: PlayStatus) -> (bool, bool, bool) {
    match status {
        PlayStatus::Stopped => (false, true, false),
        PlayStatus::Paused => (false, true, false),
        PlayStatus::LoadingPause => (false, true, true),
        PlayStatus::LoadingPlay => (true, false, true),
        PlayStatus::Playing => (true, false, false),
    }
}

impl PlayerState {
    /// Everything but the current track and the two track lists is equal.
    pub open spec fn same_transport(&self, o: &PlayerState) -> bool {
        &&& self.index == o.index
        &&& self.options == o.options
        &&& self.play_origin == o.play_origin
        &&& self.suppressions == o.suppressions
        &&& self.is_system_initiated == o.is_system_initiated
        &&& self.is_playing == o.is_playing
        &&& self.is_paused == o.is_paused
        &&& self.is_buffering == o.is_buffering
        &&& self.position_as_of_timestamp == o.position_as_of_timestamp
        &&& self.timestamp == o.timestamp
    }

    /// Equal but for the option flags.
    pub open spec fn same_except_options(&self, o: &PlayerState) -> bool {
        &&& self.track == o.track
        &&& self.prev_tracks == o.prev_tracks
        &&& self.next_tracks == o.next_tracks
        &&& self.index == o.index
        &&& self.play_origin == o.play_origin
        &&& self.suppressions == o.suppressions
        &&& self.is_system_initiated == o.is_system_initiated
        &&& self.is_playing == o.is_playing
        &&& self.is_paused == o.is_paused
        &&& self.is_buffering == o.is_buffering
        &&& self.position_as_of_timestamp == o.position_as_of_timestamp
        &&& self.timestamp == o.timestamp
    }

    /// Equal but for the context index.
    pub open spec fn same_except_index(&self, o: &PlayerState) -> bool {
        &&& self.track == o.track
        &&& self.prev_tracks == o.prev_tracks
        &&& self.next_tracks == o.next_tracks
        &&& self.options == o.options
        &&& self.play_origin == o.play_origin
        &&& self.suppressions == o.suppressions
        &&& self.is_system_initiated == o.is_system_initiated
        &&& self.is_playing == o.is_playing
        &&& self.is_paused == o.is_paused
        &&& self.is_buffering == o.is_buffering
        &&& self.position_as_of_timestamp == o.position_as_of_timestamp
        &&& self.timestamp == o.timestamp
    }

    /// Equal but for the playing, paused and buffering flags.
    pub open spec fn same_except_status(&self, o: &PlayerState) -> bool {
        &&& self.track == o.track
        &&& self.prev_tracks == o.prev_tracks
        &&& self.next_tracks == o.next_tracks
        &&& self.index == o.index
        &&& self.options == o.options
        &&& self.play_origin == o.play_origin
        &&& self.suppressions == o.suppressions
        &&& self.is_system_initiated == o.is_system_initiated
        &&& self.position_as_of_timestamp == o.position_as_of_timestamp
        &&& self.timestamp == o.timestamp
    }

    /// The idle state that a reset leaves behind.
    pub open spec fn is_idle_baseline(&self) -> bool {
        &&& self.track.is_none()
        &&& self.prev_tracks@.len() == 0
        &&& self.next_tracks@.len() == 0
        &&& self.index.is_none()
        &&& self.options == Some(ContextPlayerOptions {
            shuffling_context: false,
            repeating_context: false,
            repeating_track: false,
        })
        &&& self.play_origin.is_some()
        &&& self.play_origin.unwrap().feature_identifier@.len() == 0
        &&& self.play_origin.unwrap().feature_version@.len() == 0
        &&& self.play_origin.unwrap().view_uri@.len() == 0
        &&& self.play_origin.unwrap().referrer_identifier@.len() == 0
        &&& self.position_as_of_timestamp == 0
        &&& self.timestamp == 0
        &&& self.suppressions.is_some()
        &&& self.suppressions.unwrap().providers@.len() == 0
        &&& self.is_system_initiated
        &&& !self.is_playing
        &&& !self.is_paused
        &&& !self.is_buffering
    }
}

impl ConnectState {
    /// Everything but the player is equal.
    pub open spec fn same_except_player(&self, o: &ConnectState) -> bool {
        &&& self.active == o.active
        &&& self.active_since == o.active_since
        &&& self.has_been_playing_for == o.has_been_playing_for
        &&& self.device == o.device
        &&& self.queue == o.queue
        &&& self.last_command == o.last_command
    }

    /// `active_since` is set exactly while the device is active.
    pub open spec fn active_consistent(&self) -> bool {
        self.active <==> self.active_since.is_some()
    }

    /// The store's invariant: activity and its start time agree, and the
    /// history holds at most ten entries.
    pub open spec fn wf(&self) -> bool {
        &&& self.active_consistent()
        &&& self.player.prev_tracks@.len() <= MAX_PREV_TRACKS
    }

    /// Builds the store of a device from its configuration and the identity
    /// of its session, with an idle player.
    pub fn new(
        cfg: ConnectStateConfig,
        device_id: String,
        client_id: String,
        software_version: String,
    ) -> (r: ConnectState)
        ensures
            !r.active,
            r.active_since.is_none(),
            r.wf(),
            r.has_been_playing_for.is_none(),
            r.last_command.is_none(),
            r.player.is_idle_baseline(),
            r.queue.tracks@.len() == 0,
            !r.queue.is_playing_queue,
            r.device.can_play,
            r.device.volume == cfg.initial_volume,
            r.device.name == cfg.name,
            r.device.device_id == device_id,
            r.device.device_type == cfg.device_type,
            r.device.device_software_version == software_version,
            r.device.client_id == client_id,
            r.device.spirc_version@ == "3.2.6"@,
            r.device.is_group == cfg.is_group,
            r.device.capabilities.volume_steps == cfg.volume_steps,
            r.device.capabilities.hidden == cfg.hidden,
            r.device.capabilities.supports_logout == cfg.zeroconf_enabled,
            r.device.capabilities.supported_types@.len() == 2,
            r.device.capabilities.supported_types@[0]@ == "audio/episode"@,
            r.device.capabilities.supported_types@[1]@ == "audio/track"@,
            r.device.capabilities.gaia_eq_connect_id,
            r.device.capabilities.can_be_player,
            r.device.capabilities.needs_full_player_state,
            r.device.capabilities.is_observable,
            r.device.capabilities.is_controllable,
            r.device.capabilities.supports_playlist_v2,
            r.device.capabilities.supports_transfer_command,
            r.device.capabilities.supports_command_request,
            r.device.capabilities.supports_gzip_pushes,
            r.device.capabilities.supports_set_options_command,
            r.device.capabilities.command_acks,
            !r.device.capabilities.is_voice_enabled,
            !r.device.capabilities.restrict_to_local,
            !r.device.capabilities.disable_volume,
            !r.device.capabilities.connect_disabled,
            !r.device.capabilities.supports_rename,
            !r.device.capabilities.supports_external_episodes,
            !r.device.capabilities.supports_set_backend_metadata,
    {
        let mut supported_types: Vec<String> = Vec::new();
        supported_types.push(String::from_str("audio/episode"));
        supported_types.push(String::from_str("audio/track"));
        let capabilities = Capabilities {
            volume_steps: cfg.volume_steps,
            hidden: cfg.hidden,
            gaia_eq_connect_id: true,
            can_be_player: true,
            needs_full_player_state: true,
            is_observable: true,
            is_controllable: true,
            supports_logout: cfg.zeroconf_enabled,
            supported_types,
            supports_playlist_v2: true,
            supports_transfer_command: true,
            supports_command_request: true,
            supports_gzip_pushes: true,
            supports_set_options_command: true,
            is_voice_enabled: false,
            restrict_to_local: false,
            disable_volume: false,
            connect_disabled: false,
            supports_rename: false,
            supports_external_episodes: false,
            supports_set_backend_metadata: false,
            command_acks: true,
        };
        let device = DeviceInfo {
            can_play: true,
            volume: cfg.initial_volume,
            name: cfg.name,
            device_id,
            device_type: cfg.device_type,
            device_software_version: software_version,
            client_id,
            spirc_version: String::from_str("3.2.6"),
            is_group: cfg.is_group,
            capabilities,
        };
        let mut state = ConnectState {
            active: false,
            active_since: None,
            has_been_playing_for: None,
            device,
            player: idle_player(),
            queue: Queue { tracks: Vec::new(), is_playing_queue: false },
            last_command: None,
        };
        state.reset();
        state
    }

    /// Deactivates the device and rebuilds the player at its idle baseline.
    pub fn reset(&mut self)
        ensures
            !final(self).active,
            final(self).active_since.is_none(),
            final(self).player.is_idle_baseline(),
            final(self).wf(),
            final(self).device == old(self).device,
            final(self).queue == old(self).queue,
            final(self).has_been_playing_for == old(self).has_been_playing_for,
            final(self).last_command == old(self).last_command,
    {
        self.active = false;
        self.active_since = None;
        self.player = idle_player();
    }

    /// Activates or deactivates the device. Activating an active device
    /// keeps its `active_since`; activating an inactive one records `now_ms`.
    pub fn set_active(&mut self, value: bool, now_ms: u64)
        ensures
            (final(self).active, final(self).active_since) == activation_after(
                old(self).active,
                old(self).active_since,
                value,
                now_ms,
            ),
            old(self).wf() ==> final(self).wf(),
            final(self).device == old(self).device,
            final(self).player == old(self).player,
            final(self).queue == old(self).queue,
            final(self).has_been_playing_for == old(self).has_been_playing_for,
            final(self).last_command == old(self).last_command,
    {
        if value {
            if self.active {
                return;
            }
            self.active = true;
            self.active_since = Some(now_ms);
        } else {
            self.active = false;
            self.active_since = None;
        }
    }
    /// Sets the repeat-context flag; does nothing without an options container.
    pub fn set_repeat_context(&mut self, repeat: bool)
        ensures
            final(self).player.options == (match old(self).player.options {
                Some(o) => Some(ContextPlayerOptions { repeating_context: repeat, ..o }),
                None => None,
            }),
            final(self).player.same_except_options(&old(self).player),
            final(self).same_except_player(old(self)),
    {
        if let Some(options) = self.player.options.as_mut() {
            options.repeating_context = repeat;
        }
    }

    /// Sets the repeat-track flag; does nothing without an options container.
    pub fn set_repeat_track(&mut self, repeat: bool)
        ensures
            final(self).player.options == (match old(self).player.options {
                Some(o) => Some(ContextPlayerOptions { repeating_track: repeat, ..o }),
                None => None,
            }),
            final(self).player.same_except_options(&old(self).player),
            final(self).same_except_player(old(self)),
    {
        if let Some(options) = self.player.options.as_mut() {
            options.repeating_track = repeat;
        }
    }

    /// Sets the shuffle flag; does nothing without an options container.
    pub fn set_shuffle(&mut self, shuffle: bool)
        ensures
            final(self).player.options == (match old(self).player.options {
                Some(o) => Some(ContextPlayerOptions { shuffling_context: shuffle, ..o }),
                None => None,
            }),
            final(self).player.same_except_options(&old(self).player),
            final(self).same_except_player(old(self)),
    {
        if let Some(options) = self.player.options.as_mut() {
            options.shuffling_context = shuffle;
        }
    }

    /// Overwrites the track part of the context index, where there is one.
    pub fn set_playing_track_index(&mut self, new_index: u32)
        ensures
            final(self).player.index == (match old(self).player.index {
                Some(i) => Some(ContextIndex { track: new_index, ..i }),
                None => None,
            }),
            final(self).player.same_except_index(&old(self).player),
            final(self).same_except_player(old(self)),
    {
        if let Some(index) = self.player.index.as_mut() {
            index.track = new_index;
        }
    }

    /// Maps a transport status onto the playing, paused and buffering flags.
    pub fn set_status(&mut self, status: &PlayStatus)
        ensures
            (final(self).player.is_playing, final(self).player.is_paused,
                final(self).player.is_buffering) == status_flags(*status),
            final(self).player.same_except_status(&old(self).player),
            final(self).same_except_player(old(self)),
    {
        self.player.is_paused = match status {
            PlayStatus::LoadingPause | PlayStatus::Paused | PlayStatus::Stopped => true,
            _ => false,
        };
        self.player.is_buffering = match status {
            PlayStatus::LoadingPause | PlayStatus::LoadingPlay => true,
            _ => false,
        };
        self.player.is_playing = match status {
            PlayStatus::LoadingPlay | PlayStatus::Playing => true,
            _ => false,
        };
    }

    /// Advances to the next track: from the tail of the play-next queue
    /// while it is the active source and not empty, else from the context.
    pub fn next_playing_track(&mut self) -> (r: Result<&ProvidedTrack, ConnectStateError>)
        ensures
            old(self).wf() ==> final(self).wf(),
            if old(self).queue.is_playing_queue && old(self).queue.tracks@.len() > 0 {
                queue_step(*old(self), *final(self))
                    && r == Ok::<&ProvidedTrack, ConnectStateError>(&final(self).player.track.unwrap())
            } else {
                context_step(*old(self), *final(self), r)
            },
    {
        if self.queue.is_playing_queue {
            self.next_queued_track()
        } else {
            self.next_track()
        }
    }

    fn next_queued_track(&mut self) -> (r: Result<&ProvidedTrack, ConnectStateError>)
        ensures
            old(self).wf() ==> final(self).wf(),
            if old(self).queue.tracks@.len() > 0 {
                queue_step(*old(self), *final(self))
                    && r == Ok::<&ProvidedTrack, ConnectStateError>(&final(self).player.track.unwrap())
            } else {
                context_step(*old(self), *final(self), r)
            },
    {
        if self.queue.tracks.len() == 0 {
            return self.next_track();
        }
        let next_queued = match self.queue.tracks.pop() {
            None => return self.next_track(),
            Some(q) => q,
        };
        let next_provided = ProvidedTrack {
            uri: next_queued.uri,
            uid: next_queued.uid,
            provider: String::from_str("queue"),
        };
        self.player.track = Some(next_provided);
        match &self.player.track {
            Some(t) => Ok(t),
            None => Err(ConnectStateError::NoCurrentTrack),
        }
    }

    fn next_track(&mut self) -> (r: Result<&ProvidedTrack, ConnectStateError>)
        ensures
            old(self).wf() ==> final(self).wf(),
            context_step(*old(self), *final(self), r),
    {
        if self.player.track.is_none() {
            return Err(ConnectStateError::NoCurrentTrack);
        }
        if self.player.next_tracks.len() == 0 {
            return Err(ConnectStateError::NoNextTrack);
        }
        let old_track = match self.player.track.take() {
            Some(t) => t,
            None => return Err(ConnectStateError::NoCurrentTrack),
        };
        if self.player.prev_tracks.len() >= MAX_PREV_TRACKS {
            self.player.prev_tracks.remove(0);
        }
        self.player.prev_tracks.push(old_track);
        let new_track = self.player.next_tracks.remove(0);
        self.player.track = Some(new_track);
        match &self.player.track {
            Some(t) => Ok(t),
            None => Err(ConnectStateError::NoCurrentTrack),
        }
    }

    /// Steps back: the newest history entry becomes current and the former
    /// current track goes back to the head of the context queue.
    pub fn prev_track(&mut self) -> (r: Result<&ProvidedTrack, ConnectStateError>)
        ensures
            old(self).wf() ==> final(self).wf(),
            old(self).player.prev_tracks@.len() == 0 ==> r == Err::<&ProvidedTrack, ConnectStateError>(ConnectStateError::NoPreviousTrack)
                && *final(self) == *old(self),
            old(self).player.prev_tracks@.len() > 0 ==> {
                &&& r == Ok::<&ProvidedTrack, ConnectStateError>(&final(self).player.track.unwrap())
                &&& final(self).player.track == Some(old(self).player.prev_tracks@.last())
                &&& final(self).player.prev_tracks@ == old(self).player.prev_tracks@.drop_last()
                &&& final(self).player.next_tracks@ == (match old(self).player.track {
                    Some(t) => seq![t] + old(self).player.next_tracks@,
                    None => old(self).player.next_tracks@,
                })
                &&& final(self).player.same_transport(&old(self).player)
                &&& final(self).queue == old(self).queue
                &&& final(self).device == old(self).device
                &&& final(self).active == old(self).active
                &&& final(self).active_since == old(self).active_since
                &&& final(self).has_been_playing_for == old(self).has_been_playing_for
                &&& final(self).last_command == old(self).last_command
            },
    {
        if self.player.prev_tracks.len() == 0 {
            return Err(ConnectStateError::NoPreviousTrack);
        }
        let prev = match self.player.prev_tracks.pop() {
            None => return Err(ConnectStateError::NoPreviousTrack),
            Some(p) => p,
        };
        if let Some(current) = self.player.track.take() {
            self.player.next_tracks.insert(0, current);
        }
        self.player.track = Some(prev);
        match &self.player.track {
            Some(t) => Ok(t),
            None => Err(ConnectStateError::NoPreviousTrack),
        }
    }
}

/// One advancement from the play-next queue: its tail becomes the current
/// track, tagged with the queue provider; the history is left alone.
pub open spec fn queue_step(pre: ConnectState, post: ConnectState) -> bool {
    let q = pre.queue.tracks@.last();
    &&& post.queue.tracks@ == pre.queue.tracks@.drop_last()
    &&& post.queue.is_playing_queue == pre.queue.is_playing_queue
    &&& post.player.track.is_some()
    &&& post.player.track.unwrap().uri@ == q.uri@
    &&& post.player.track.unwrap().uid@ == q.uid@
    &&& post.player.track.unwrap().provider@ == "queue"@
    &&& post.player.prev_tracks == pre.player.prev_tracks
    &&& post.player.next_tracks == pre.player.next_tracks
    &&& post.player.same_transport(&pre.player)
    &&& post.device == pre.device
    &&& post.active == pre.active
    &&& post.active_since == pre.active_since
    &&& post.has_been_playing_for == pre.has_been_playing_for
    &&& post.last_command == pre.last_command
}

/// One advancement from the context queue, or the error that stops it with
/// the state unchanged.
pub open spec fn context_step(
    pre: ConnectState,
    post: ConnectState,
    r: Result<&ProvidedTrack, ConnectStateError>,
) -> bool {
    if pre.player.track.is_none() {
        r == Err::<&ProvidedTrack, ConnectStateError>(ConnectStateError::NoCurrentTrack) && post == pre
    } else if pre.player.next_tracks@.len() == 0 {
        r == Err::<&ProvidedTrack, ConnectStateError>(ConnectStateError::NoNextTrack) && post == pre
    } else {
        &&& r == Ok::<&ProvidedTrack, ConnectStateError>(&post.player.track.unwrap())
        &&& post.player.track == Some(pre.player.next_tracks@[0])
        &&& post.player.prev_tracks@ == push_history(pre.player.prev_tracks@, pre.player.track.unwrap())
        &&& post.player.next_tracks@ == pre.player.next_tracks@.drop_first()
        &&& post.player.same_transport(&pre.player)
        &&& post.queue == pre.queue
        &&& post.device == pre.device
        &&& post.active == pre.active
        &&& post.active_since == pre.active_since
        &&& post.has_been_playing_for == pre.has_been_playing_for
        &&& post.last_command == pre.last_command
    }
}

/// `active` and `active_since` after an activation request at `now_ms`.
pub open spec fn activation_after(active: bool, since: Option<u64>, value: bool, now_ms: u64) -> (
    bool,
    Option<u64>,
) {
    if value {
        if active {
            (true, since)
        } else {
            (true, Some(now_ms))
        }
    } else {
        (false, None)
    }
}

/// Activating twice in a row keeps the time of the first activation, and
/// deactivating always clears it.
pub proof fn lemma_activation_idempotent(
    active: bool,
    since: Option<u64>,
    t1: u64,
    t2: u64,
    t3: u64,
)
    ensures
        ({
            let (a1, s1) = activation_after(active, since, true, t1);
            activation_after(a1, s1, true, t2) == (a1, s1)
        }),
        activation_after(active, since, false, t3) == (false, None::<u64>),
{
}

/// A history of at most ten entries stays within ten after a push; once
/// full, the push evicts the oldest entry.
pub proof fn lemma_history_bounded(prev: Seq<ProvidedTrack>, t: ProvidedTrack)
    requires
        prev.len() <= MAX_PREV_TRACKS,
    ensures
        push_history(prev, t).len() <= MAX_PREV_TRACKS,
        push_history(prev, t).last() == t,
        prev.len() == MAX_PREV_TRACKS ==> push_history(prev, t) == prev.subrange(1, prev.len() as int).push(t),
{
}

/// No context advancement takes the history beyond ten entries.
pub proof fn lemma_context_step_bounded(
    pre: ConnectState,
    post: ConnectState,
    r: Result<&ProvidedTrack, ConnectStateError>,
)
    requires
        context_step(pre, post, r),
        pre.player.prev_tracks@.len() <= MAX_PREV_TRACKS,
    ensures
        post.player.prev_tracks@.len() <= MAX_PREV_TRACKS,
{
    if pre.player.track.is_some() && pre.player.next_tracks@.len() > 0 {
        lemma_history_bounded(pre.player.prev_tracks@, pre.player.track.unwrap());
    }
}

/// Context advancement takes the next-track list from its head: from
/// `[a, b, c]` three advancements make `a`, `b`, then `c` current, and a
/// fourth fails with `NoNextTrack`.
pub proof fn lemma_context_fifo(
    s0: ConnectState,
    s1: ConnectState,
    s2: ConnectState,
    s3: ConnectState,
    s4: ConnectState,
    r1: Result<&ProvidedTrack, ConnectStateError>,
    r2: Result<&ProvidedTrack, ConnectStateError>,
    r3: Result<&ProvidedTrack, ConnectStateError>,
    r4: Result<&ProvidedTrack, ConnectStateError>,
)
    requires
        s0.player.track.is_some(),
        s0.player.next_tracks@.len() == 3,
        context_step(s0, s1, r1),
        context_step(s1, s2, r2),
        context_step(s2, s3, r3),
        context_step(s3, s4, r4),
    ensures
        s1.player.track == Some(s0.player.next_tracks@[0]),
        s2.player.track == Some(s0.player.next_tracks@[1]),
        s3.player.track == Some(s0.player.next_tracks@[2]),
        r4 == Err::<&ProvidedTrack, ConnectStateError>(ConnectStateError::NoNextTrack),
{
    assert(s1.player.next_tracks@ =~= s0.player.next_tracks@.subrange(1, 3));
    assert(s2.player.next_tracks@ =~= s0.player.next_tracks@.subrange(2, 3));
    assert(s3.player.next_tracks@.len() == 0);
}

/// The play-next queue is taken from its tail: with `[x, y]` queued, two
/// queue advancements make `y` and then `x` current, after which the queue
/// is empty and advancement falls back to the context.
pub proof fn lemma_queue_lifo(s0: ConnectState, s1: ConnectState, s2: ConnectState)
    requires
        s0.queue.tracks@.len() == 2,
        queue_step(s0, s1),
        queue_step(s1, s2),
    ensures
        s1.player.track.unwrap().uri@ == s0.queue.tracks@[1].uri@,
        s1.player.track.unwrap().uid@ == s0.queue.tracks@[1].uid@,
        s2.player.track.unwrap().uri@ == s0.queue.tracks@[0].uri@,
        s2.player.track.unwrap().uid@ == s0.queue.tracks@[0].uid@,
        s2.queue.tracks@.len() == 0,
{
}

/// A player at the idle baseline.
fn idle_player() -> (r: PlayerState)
    ensures
        r.is_idle_baseline(),
{
    PlayerState {
        track: None,
        prev_tracks: Vec::new(),
        next_tracks: Vec::new(),
        index: None,
        options: Some(
            ContextPlayerOptions {
                shuffling_context: false,
                repeating_context: false,
                repeating_track: false,
            },
        ),
        play_origin: Some(
            PlayOrigin {
                feature_identifier: String::new(),
                feature_version: String::new(),
                view_uri: String::new(),
                referrer_identifier: String::new(),
            },
        ),
        suppressions: Some(Suppressions { providers: Vec::new() }),
        is_system_initiated: true,
        is_playing: false,
        is_paused: false,
        is_buffering: false,
        position_as_of_timestamp: 0,
        timestamp: 0,
    }
}

} // verus!
