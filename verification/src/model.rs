//! Data model: typed messages, events, player state, filters and load
//! statistics. Upstream payloads whose shape this library does not inspect
//! (plugin data, filter sections) are carried as opaque JSON text; every value
//! the routing and load logic reads is a plain field.

use vstd::prelude::*;

verus! {

/// Severity of a track-load failure reported by a node.
#[derive(Clone, Debug)]
pub enum Severity {
    Common,
    Suspicious,
    Fault,
}

/// Discriminant of a load result.
#[derive(Clone, Debug)]
pub enum LoadType {
    Track,
    Playlist,
    Search,
    Empty,
    Error,
}

/// Static description of a track.
#[derive(Clone, Debug)]
pub struct TrackInfo {
    pub identifier: String,
    pub is_seekable: bool,
    pub author: String,
    pub length: usize,
    pub is_stream: bool,
    pub position: usize,
    pub title: String,
    pub uri: Option<String>,
    pub artwork_url: Option<String>,
    pub isrc: Option<String>,
    pub source_name: String,
}

/// A track: its encoded form plus static description. Plugin data is opaque
/// JSON text.
#[derive(Clone, Debug)]
pub struct Track {
    pub encoded: String,
    pub info: TrackInfo,
    pub plugin_info: Option<String>,
}

/// Description of a playlist.
#[derive(Clone, Debug)]
pub struct PlaylistInfo {
    pub name: String,
    pub selected_track: i32,
}

/// A playlist of tracks. Plugin data is opaque JSON text.
#[derive(Clone, Debug)]
pub struct TrackPlaylist {
    pub info: PlaylistInfo,
    pub plugin_info: Option<String>,
    pub tracks: Vec<Track>,
}

/// A track-load failure.
#[derive(Clone, Debug)]
pub struct TrackLoadException {
    pub message: String,
    pub severity: Severity,
    pub cause: String,
}

/// Result of resolving an identifier on a node.
#[derive(Clone, Debug)]
pub enum DataType {
    Track(Track),
    Playlist(TrackPlaylist),
    Search(Vec<Track>),
    Error(TrackLoadException),
    Empty(Option<String>),
}

/// Playback filters. Each section is carried as the opaque JSON text of that
/// section: this library decides only which sections are present, never what
/// is inside one.
#[derive(Clone, Debug)]
pub struct LavalinkFilters {
    pub volume: Option<String>,
    pub equalizer: Option<String>,
    pub karaoke: Option<String>,
    pub timescale: Option<String>,
    pub tremolo: Option<String>,
    pub vibrato: Option<String>,
    pub rotation: Option<String>,
    pub distortion: Option<String>,
    pub channel_mix: Option<String>,
    pub low_pass: Option<String>,
    pub plugin_filters: Option<String>,
}

/// The documented merge rule, section by section: the new update's value
/// wins where it is present, the existing value is preserved where the new
/// one is absent.
pub open spec fn spec_merged(
    new: LavalinkFilters,
    existing: LavalinkFilters,
    r: LavalinkFilters,
) -> bool {
    &&& r.volume == merged_field(new.volume, existing.volume)
    &&& r.equalizer == merged_field(new.equalizer, existing.equalizer)
    &&& r.karaoke == merged_field(new.karaoke, existing.karaoke)
    &&& r.timescale == merged_field(new.timescale, existing.timescale)
    &&& r.tremolo == merged_field(new.tremolo, existing.tremolo)
    &&& r.vibrato == merged_field(new.vibrato, existing.vibrato)
    &&& r.rotation == merged_field(new.rotation, existing.rotation)
    &&& r.distortion == merged_field(new.distortion, existing.distortion)
    &&& r.channel_mix == merged_field(new.channel_mix, existing.channel_mix)
    &&& r.low_pass == merged_field(new.low_pass, existing.low_pass)
    &&& r.plugin_filters == merged_field(new.plugin_filters, existing.plugin_filters)
}

/// Which option wins when two filter updates meet: the newer one when it is
/// present, else the existing one.
pub open spec fn merged_field(new: Option<String>, existing: Option<String>) -> Option<String> {
    if new is Some {
        new
    } else {
        existing
    }
}

/// Picks `new` when present, else `existing`.
fn pick(new: Option<String>, existing: Option<String>) -> (r: Option<String>)
    ensures
        r == merged_field(new, existing),
{
    match new {
        Some(v) => Some(v),
        None => existing,
    }
}

impl LavalinkFilters {
    /// Filters with every section untouched.
    pub fn none() -> (r: LavalinkFilters)
        ensures
            r.volume is None,
            r.equalizer is None,
            r.karaoke is None,
            r.timescale is None,
            r.tremolo is None,
            r.vibrato is None,
            r.rotation is None,
            r.distortion is None,
            r.channel_mix is None,
            r.low_pass is None,
            r.plugin_filters is None,
    {
        LavalinkFilters {
            volume: None,
            equalizer: None,
            karaoke: None,
            timescale: None,
            tremolo: None,
            vibrato: None,
            rotation: None,
            distortion: None,
            channel_mix: None,
            low_pass: None,
            plugin_filters: None,
        }
    }

    /// Merges this (new) filter update on top of an existing one: a section
    /// given here wins, a section left out keeps its existing value.
    pub fn merge(self, existing: LavalinkFilters) -> (r: LavalinkFilters)
        ensures
            spec_merged(self, existing, r),
    {
        LavalinkFilters {
            volume: pick(self.volume, existing.volume),
            equalizer: pick(self.equalizer, existing.equalizer),
            karaoke: pick(self.karaoke, existing.karaoke),
            timescale: pick(self.timescale, existing.timescale),
            tremolo: pick(self.tremolo, existing.tremolo),
            vibrato: pick(self.vibrato, existing.vibrato),
            rotation: pick(self.rotation, existing.rotation),
            distortion: pick(self.distortion, existing.distortion),
            channel_mix: pick(self.channel_mix, existing.channel_mix),
            low_pass: pick(self.low_pass, existing.low_pass),
            plugin_filters: pick(self.plugin_filters, existing.plugin_filters),
        }
    }
}

/// Voice-server credentials for a player.
#[derive(Clone, Debug)]
pub struct LavalinkVoice {
    pub token: String,
    pub endpoint: String,
    pub session_id: String,
    pub connected: Option<bool>,
    pub ping: Option<i32>,
}

/// Live playback state of a player.
#[derive(Clone, Debug)]
pub struct LavalinkPlayerState {
    pub time: u64,
    pub position: u32,
    pub connected: bool,
    pub ping: Option<i32>,
}

/// Snapshot of a remote player.
#[derive(Clone, Debug)]
pub struct LavalinkPlayer {
    pub guild_id: u64,
    pub track: Option<Track>,
    pub volume: u32,
    pub paused: bool,
    pub state: LavalinkPlayerState,
    pub voice: LavalinkVoice,
    pub filters: LavalinkFilters,
}

/// An update to a player's current track. Absent means untouched; `Clear`
/// asks the node to drop the track (sent as an explicit null, not omitted).
#[derive(Clone, Debug)]
pub enum EncodedTrackUpdate {
    Encoded(String),
    Clear,
}

/// Track part of a player update. Plugin user data is opaque JSON text.
#[derive(Clone, Debug)]
pub struct UpdatePlayerTrack {
    pub encoded: Option<EncodedTrackUpdate>,
    pub identifier: Option<String>,
    pub user_data: Option<String>,
}

/// Body of a player update; absent fields are left untouched by the node.
#[derive(Clone, Debug)]
pub struct LavalinkPlayerOptions {
    pub track: Option<UpdatePlayerTrack>,
    pub identifier: Option<String>,
    pub position: Option<u32>,
    pub end_time: Option<u32>,
    pub volume: Option<u32>,
    pub paused: Option<bool>,
    pub filters: Option<LavalinkFilters>,
    pub voice: Option<LavalinkVoice>,
}

impl LavalinkPlayerOptions {
    /// An update that touches nothing.
    pub fn none() -> (r: LavalinkPlayerOptions)
        ensures
            r.track is None,
            r.identifier is None,
            r.position is None,
            r.end_time is None,
            r.volume is None,
            r.paused is None,
            r.filters is None,
            r.voice is None,
    {
        LavalinkPlayerOptions {
            track: None,
            identifier: None,
            position: None,
            end_time: None,
            volume: None,
            paused: None,
            filters: None,
            voice: None,
        }
    }
}

/// A track-playback failure attached to an event.
#[derive(Clone, Debug)]
pub struct Exception {
    pub guild_id: u64,
    pub message: Option<String>,
    pub severity: String,
    pub cause: String,
}

/// A track started playing.
#[derive(Clone, Debug)]
pub struct TrackStart {
    pub guild_id: u64,
    pub track: Track,
}

/// A track stopped playing.
#[derive(Clone, Debug)]
pub struct TrackEnd {
    pub guild_id: u64,
    pub track: Track,
    pub reason: String,
}

/// A track raised an exception.
#[derive(Clone, Debug)]
pub struct TrackException {
    pub guild_id: u64,
    pub track: Track,
    pub exception: Exception,
}

/// A track got stuck.
#[derive(Clone, Debug)]
pub struct TrackStuck {
    pub guild_id: u64,
    pub track: Track,
    pub threshold_ms: usize,
}

/// The node's voice stream to a tenant closed.
#[derive(Clone, Debug)]
pub struct WebSocketClosed {
    pub guild_id: u64,
    pub code: usize,
    pub reason: String,
    pub by_remote: bool,
}

/// Player-addressed events a node pushes on its message stream.
#[derive(Clone, Debug)]
pub enum PlayerEvents {
    TrackStartEvent(TrackStart),
    TrackEndEvent(TrackEnd),
    TrackExceptionEvent(TrackException),
    TrackStuckEvent(TrackStuck),
    WebSocketClosedEvent(WebSocketClosed),
}

/// Tenant a player event is addressed to.
pub open spec fn spec_event_guild_id(e: PlayerEvents) -> u64 {
    match e {
        PlayerEvents::TrackStartEvent(d) => d.guild_id,
        PlayerEvents::TrackEndEvent(d) => d.guild_id,
        PlayerEvents::TrackExceptionEvent(d) => d.guild_id,
        PlayerEvents::TrackStuckEvent(d) => d.guild_id,
        PlayerEvents::WebSocketClosedEvent(d) => d.guild_id,
    }
}

impl PlayerEvents {
    /// The tenant this event is addressed to.
    pub fn guild_id(&self) -> (g: u64)
        ensures
            g == spec_event_guild_id(*self),
    {
        match self {
            PlayerEvents::TrackStartEvent(d) => d.guild_id,
            PlayerEvents::TrackEndEvent(d) => d.guild_id,
            PlayerEvents::TrackExceptionEvent(d) => d.guild_id,
            PlayerEvents::TrackStuckEvent(d) => d.guild_id,
            PlayerEvents::WebSocketClosedEvent(d) => d.guild_id,
        }
    }
}

/// What a tenant's subscription yields: wrapped player events, then at most
/// one terminal `Destroyed` marker.
#[derive(Clone, Debug)]
pub enum EventType {
    Player(PlayerEvents),
    Destroyed,
}

/// Frame counters of a node's last statistics window.
#[derive(Clone, Copy, Debug)]
pub struct FrameStats {
    pub sent: u64,
    pub nulled: u32,
    pub deficit: i32,
}

/// Processor statistics of a node. The load enters the penalty formula only
/// through its rounded exponential term, `round(1.05 ^ (100 * system load))`,
/// which the stream decoder computes when the frame arrives; this library
/// reads the load through that term alone.
#[derive(Clone, Copy, Debug)]
pub struct Cpu {
    pub cores: u32,
    pub system_load_penalty: u64,
    pub lavalink_load_penalty: u64,
}

/// Memory statistics of a node.
#[derive(Clone, Copy, Debug)]
pub struct Memory {
    pub free: u64,
    pub used: u64,
    pub allocated: u64,
    pub reservable: u64,
}

/// A statistics frame pushed by a node.
#[derive(Clone, Copy, Debug)]
pub struct Stats {
    pub players: u32,
    pub playing_players: u32,
    pub uptime: u64,
    pub memory: Memory,
    pub cpu: Cpu,
    pub frame_stats: Option<FrameStats>,
}

/// Load penalty derived from a statistics frame: player count, plus the
/// rounded exponential of the processor load, plus the frame deficit and
/// twice the nulled-frame count when frame counters are present. A negative
/// deficit contributes nothing: the penalty is never negative.
pub open spec fn spec_penalty(s: Stats) -> int {
    s.players + s.cpu.system_load_penalty + match s.frame_stats {
        Some(f) => (if f.deficit >= 0 {
            f.deficit as int
        } else {
            0
        }) + 2 * f.nulled,
        None => 0,
    }
}

/// The penalty clipped to the machine word it is stored in.
pub open spec fn spec_penalty_u64(s: Stats) -> u64 {
    if spec_penalty(s) <= u64::MAX {
        spec_penalty(s) as u64
    } else {
        u64::MAX
    }
}

impl Stats {
    /// Computes the load penalty of this frame.
    pub fn penalty(&self) -> (p: u64)
        ensures
            p == spec_penalty_u64(*self),
    {
        let base: u64 = self.players as u64;
        let with_cpu: u64 = if base <= u64::MAX - self.cpu.system_load_penalty {
            base + self.cpu.system_load_penalty
        } else {
            u64::MAX
        };
        match &self.frame_stats {
            Some(f) => {
                let deficit: u64 = if f.deficit >= 0 {
                    f.deficit as u64
                } else {
                    0
                };
                let nulled2: u64 = 2 * (f.nulled as u64);
                let extra: u64 = deficit + nulled2;
                if with_cpu <= u64::MAX - extra {
                    with_cpu + extra
                } else {
                    u64::MAX
                }
            },
            None => with_cpu,
        }
    }
}

/// First frame a node sends after a successful handshake.
#[derive(Clone, Debug)]
pub struct Ready {
    pub resumed: bool,
    pub session_id: String,
}

/// Advisory player-state frame; the core keeps no state for it.
#[derive(Clone, Debug)]
pub struct PlayerUpdate {
    pub guild_id: String,
    pub state: LavalinkPlayerState,
}

/// A decoded frame from a node's message stream.
#[derive(Clone, Debug)]
pub enum LavalinkMessage {
    Ready(Ready),
    PlayerUpdate(PlayerUpdate),
    Stats(Stats),
    Event(PlayerEvents),
}

/// Session configuration exchanged with a node for resume support.
#[derive(Clone, Debug)]
pub struct SessionInfo {
    pub resuming: bool,
    pub timeout: u32,
}

/// An address a node's route planner marked as failing.
#[derive(Clone, Debug)]
pub struct FailingAddresses {
    pub address: String,
    pub failing_timestamp: u64,
    pub failing_time: String,
}

/// An IP block available to a node's route planner.
#[derive(Clone, Debug)]
pub struct IpBlock {
    pub ip_type: String,
    pub address: String,
}

/// Route-planner details reported by a node.
#[derive(Clone, Debug)]
pub struct RoutePlannerDetails {
    pub ip_block: IpBlock,
    pub failing_addresses: Vec<FailingAddresses>,
    pub rotate_index: String,
    pub ip_index: String,
    pub current_address: String,
    pub block_index: String,
    pub current_address_index: String,
}

/// Route-planner status of a node.
#[derive(Clone, Debug)]
pub struct RoutePlanner {
    pub class: Option<String>,
    pub details: Option<RoutePlannerDetails>,
}

/// Version of a node's software.
#[derive(Clone, Debug)]
pub struct NodeVersion {
    pub semver: String,
    pub major: u64,
    pub minor: u64,
    pub patch: u64,
    pub pre_release: Option<String>,
    pub build: Option<String>,
}

/// Source-control description of a node's build.
#[derive(Clone, Debug)]
pub struct NodeGit {
    pub branch: String,
    pub commit: String,
    pub commit_time: u64,
}

/// A plugin installed on a node.
#[derive(Clone, Debug)]
pub struct NodePlugin {
    pub name: String,
    pub version: String,
}

/// Build and capability report of a node.
#[derive(Clone, Debug)]
pub struct LavalinkInfo {
    pub version: NodeVersion,
    pub build_time: u64,
    pub git: NodeGit,
    pub jvm: String,
    pub lavaplayer: String,
    pub source_managers: String,
    pub filters: Vec<String>,
    pub plugins: Vec<NodePlugin>,
}

} // verus!
