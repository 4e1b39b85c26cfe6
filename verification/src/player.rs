//! The player (tenant) facade: a value bound to one tenant id and one node.
//! Every operation is a verified builder that pins exactly which fields of a
//! player update it touches; the shell submits the built update over the
//! node's control surface and keeps everything else untouched, as the
//! contracts require.

use vstd::prelude::*;
use crate::anchorage::ConnectionOptions;
use crate::model::EncodedTrackUpdate;
use crate::model::LavalinkFilters;
use crate::model::LavalinkPlayerOptions;
use crate::model::LavalinkVoice;
use crate::model::UpdatePlayerTrack;
use crate::model::spec_merged;

verus! {

/// A tenant's player: the tenant id and the name of the node it is pinned
/// to. All authoritative state is remote; dropping this value destroys
/// nothing.
#[derive(Clone, Debug)]
pub struct Player {
    pub guild_id: u64,
    pub node: String,
}

/// A player update that touches nothing but the given track field.
pub open spec fn spec_track_only_update(o: LavalinkPlayerOptions, t: UpdatePlayerTrack) -> bool {
    &&& o.track == Some(t)
    &&& o.identifier is None
    &&& o.position is None
    &&& o.end_time is None
    &&& o.volume is None
    &&& o.paused is None
    &&& o.filters is None
    &&& o.voice is None
}

impl Player {
    /// Creates a player bound to a tenant and a node.
    pub fn new(guild_id: u64, node: String) -> (r: Player)
        ensures
            r.guild_id == guild_id,
            r.node == node,
    {
        Player { guild_id, node }
    }

    /// Update that starts playback of an encoded track; nothing else moves.
    pub fn play(&self, track: String) -> (o: LavalinkPlayerOptions)
        ensures
            spec_track_only_update(
                o,
                UpdatePlayerTrack {
                    encoded: Some(EncodedTrackUpdate::Encoded(track)),
                    identifier: None,
                    user_data: None,
                },
            ),
    {
        let mut options = LavalinkPlayerOptions::none();
        options.track = Some(
            UpdatePlayerTrack {
                encoded: Some(EncodedTrackUpdate::Encoded(track)),
                identifier: None,
                user_data: None,
            },
        );
        options
    }

    /// Update that stops playback: the track is cleared explicitly (sent as
    /// null, not omitted), which is how the node tells "clear" from
    /// "untouched".
    pub fn stop(&self) -> (o: LavalinkPlayerOptions)
        ensures
            spec_track_only_update(
                o,
                UpdatePlayerTrack {
                    encoded: Some(EncodedTrackUpdate::Clear),
                    identifier: None,
                    user_data: None,
                },
            ),
    {
        let mut options = LavalinkPlayerOptions::none();
        options.track = Some(
            UpdatePlayerTrack {
                encoded: Some(EncodedTrackUpdate::Clear),
                identifier: None,
                user_data: None,
            },
        );
        options
    }

    /// Update that toggles the pause flag away from the current snapshot;
    /// nothing else moves.
    pub fn pause(&self, currently_paused: bool) -> (o: LavalinkPlayerOptions)
        ensures
            o.paused == Some(!currently_paused),
            o.track is None,
            o.identifier is None,
            o.position is None,
            o.end_time is None,
            o.volume is None,
            o.filters is None,
            o.voice is None,
    {
        let mut options = LavalinkPlayerOptions::none();
        options.paused = Some(!currently_paused);
        options
    }

    /// Update that sets the volume; nothing else moves.
    pub fn update_volume(&self, volume: u32) -> (o: LavalinkPlayerOptions)
        ensures
            o.volume == Some(volume),
            o.track is None,
            o.identifier is None,
            o.position is None,
            o.end_time is None,
            o.paused is None,
            o.filters is None,
            o.voice is None,
    {
        let mut options = LavalinkPlayerOptions::none();
        options.volume = Some(volume);
        options
    }

    /// Update that seeks to a position; nothing else moves.
    pub fn update_position(&self, position: u32) -> (o: LavalinkPlayerOptions)
        ensures
            o.position == Some(position),
            o.track is None,
            o.identifier is None,
            o.end_time is None,
            o.volume is None,
            o.paused is None,
            o.filters is None,
            o.voice is None,
    {
        let mut options = LavalinkPlayerOptions::none();
        options.position = Some(position);
        options
    }

    /// Update that submits the given filters merged on top of the player's
    /// existing filters, by the documented merge rule; nothing else moves.
    pub fn update_filters(&self, filters: LavalinkFilters, existing: LavalinkFilters) -> (o:
        LavalinkPlayerOptions)
        ensures
            o.filters matches Some(f) && spec_merged(filters, existing, f),
            o.track is None,
            o.identifier is None,
            o.position is None,
            o.end_time is None,
            o.volume is None,
            o.paused is None,
            o.voice is None,
    {
        let merged = filters.merge(existing);
        let mut options = LavalinkPlayerOptions::none();
        options.filters = Some(merged);
        options
    }

    /// Update that clears every filter section; nothing else moves.
    pub fn clear_filters(&self) -> (o: LavalinkPlayerOptions)
        ensures
            o.filters matches Some(f) && f.volume is None && f.equalizer is None && f.karaoke
                is None && f.timescale is None && f.tremolo is None && f.vibrato is None
                && f.rotation is None && f.distortion is None && f.channel_mix is None
                && f.low_pass is None && f.plugin_filters is None,
            o.track is None,
            o.identifier is None,
            o.position is None,
            o.end_time is None,
            o.volume is None,
            o.paused is None,
            o.voice is None,
    {
        let mut options = LavalinkPlayerOptions::none();
        options.filters = Some(LavalinkFilters::none());
        options
    }

    /// Update that hands the node the voice-server credentials of this
    /// tenant's connection; nothing else moves.
    pub fn update_connection(&self, connection: ConnectionOptions) -> (o: LavalinkPlayerOptions)
        ensures
            o.voice matches Some(v) && v.token == connection.token && v.endpoint
                == connection.endpoint && v.session_id == connection.session_id && v.connected
                is None && v.ping is None,
            o.track is None,
            o.identifier is None,
            o.position is None,
            o.end_time is None,
            o.volume is None,
            o.paused is None,
            o.filters is None,
    {
        let mut options = LavalinkPlayerOptions::none();
        options.voice = Some(
            LavalinkVoice {
                token: connection.token,
                endpoint: connection.endpoint,
                session_id: connection.session_id,
                connected: None,
                ping: None,
            },
        );
        options
    }
}

} // verus!
