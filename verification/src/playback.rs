//! The decisions of the playback poll: from what the player reports, whether
//! to move on early, re-preload the next song, follow a gapless change of
//! track, or treat the track as ended.

use vstd::prelude::*;

use crate::handlers::{gapless_now_playing, QueueState};
use crate::models::{Child, PlaybackState};

verus! {

/// What the player reports at the start of a poll.
#[derive(Debug, Clone, Copy, PartialEq, Eq, Structural)]
pub struct PlayerPoll {
    pub state: PlaybackState,
    /// Whether the player process runs.
    pub player_running: bool,
    /// Whether more than nothing and less than two seconds of the track are left.
    pub near_end: bool,
    /// How many tracks the player's playlist holds, when it answered.
    pub playlist_count: Option<i64>,
}

/// What the first part of a poll decides.
#[derive(Debug, Clone, Copy, PartialEq, Eq, Structural)]
pub enum PollStart {
    /// Nothing plays or the player is gone: the poll ends.
    Skip,
    /// The track is about to end and nothing follows it in the player's
    /// playlist: go to the next track now.
    AdvanceEarly,
    /// Paused: only read the position and the audio properties.
    ReadPosition,
    /// Playing: when `preload_after` holds a queue position, preload the
    /// song after it again (the player lost it); then look for a change of
    /// track with `poll_tracks`.
    CheckTracks { preload_after: Option<usize> },
}

/// Whether the queue has a song after the current one.
pub open spec fn has_next(q: QueueState) -> bool {
    q.queue_position matches Some(p) && p + 1 < q.queue@.len()
}

/// The first part of a poll.
pub open spec fn spec_poll_start(q: QueueState, poll: PlayerPoll) -> PollStart {
    let active = poll.state == PlaybackState::Playing || poll.state == PlaybackState::Paused;
    if !active || !poll.player_running {
        PollStart::Skip
    } else if poll.state != PlaybackState::Playing {
        PollStart::ReadPosition
    } else if has_next(q) && poll.near_end && (poll.playlist_count matches Some(c) && c < 2) {
        PollStart::AdvanceEarly
    } else if has_next(q) && poll.playlist_count == Some(1i64) {
        PollStart::CheckTracks { preload_after: q.queue_position }
    } else {
        PollStart::CheckTracks { preload_after: None }
    }
}

/// Decides the first part of a poll.
pub fn poll_start(q: &QueueState, poll: PlayerPoll) -> (start: PollStart)
    ensures
        start == spec_poll_start(*q, poll),
{
    let active = match poll.state {
        PlaybackState::Playing => true,
        PlaybackState::Paused => true,
        PlaybackState::Stopped => false,
    };
    if !active || !poll.player_running {
        return PollStart::Skip;
    }
    let playing = match poll.state {
        PlaybackState::Playing => true,
        _ => false,
    };
    if !playing {
        return PollStart::ReadPosition;
    }
    let next = match q.queue_position {
        Some(p) => q.queue.len() > 0 && p < q.queue.len() - 1,
        None => false,
    };
    let short_playlist = match poll.playlist_count {
        Some(c) => c < 2,
        None => false,
    };
    if next && poll.near_end && short_playlist {
        PollStart::AdvanceEarly
    } else if next && poll.playlist_count == Some(1i64) {
        PollStart::CheckTracks { preload_after: q.queue_position }
    } else {
        PollStart::CheckTracks { preload_after: None }
    }
}

/// What the second part of a poll decides.
#[derive(Debug, Clone)]
pub enum PollEnd {
    /// The player moved on to the preloaded song: the queue position is now
    /// this one, and this song plays. The player's finished entry is to be
    /// removed and the song after it preloaded.
    Gapless { position: usize, song: Child },
    /// The player went idle: the track ended.
    TrackEnded,
    /// Nothing changed: read the position and the audio properties.
    ReadPosition,
}

/// The queue position a gapless change of track leads to: the player is at
/// the second entry of its playlist and the queue has a song after the
/// current one.
pub open spec fn gapless_target(player_pos: Option<i64>, position: Option<usize>, len: nat) -> Option<usize> {
    match (player_pos, position) {
        (Some(1), Some(p)) => if p + 1 < len { Some((p + 1) as usize) } else { None },
        _ => None,
    }
}

/// The second part of a poll, while playing: `player_pos` is the player's
/// playlist position and `idle` whether it went idle, when it answered.
/// A gapless change moves the queue position on by one.
pub fn poll_tracks(q: &mut QueueState, player_pos: Option<i64>, idle: Option<bool>) -> (end: PollEnd)
    ensures
        final(q).queue@ == old(q).queue@,
        final(q).selected == old(q).selected,
        match gapless_target(player_pos, old(q).queue_position, old(q).queue@.len()) {
            Some(n) => {
                &&& final(q).queue_position == Some(n)
                &&& end matches PollEnd::Gapless { position, song } && position == n && song == old(
                    q,
                ).queue@[n as int]
            },
            None => final(q).queue_position == old(q).queue_position && if idle == Some(true) {
                end is TrackEnded
            } else {
                end is ReadPosition
            },
        },
{
    let next = gapless_now_playing(q, player_pos);
    proof {
        if let Some(p) = q.queue_position {
            if player_pos == Some(1i64) && p + 1 < q.queue@.len() {
                assert(q.queue@.len() == q.queue.len());
                assert(((p + 1) as usize) as int == p + 1);
            }
        }
    }
    match next {
        Some(found) => {
            let (position, song) = found;
            q.queue_position = Some(position);
            PollEnd::Gapless { position, song }
        },
        None => {
            match idle {
                Some(true) => PollEnd::TrackEnded,
                _ => PollEnd::ReadPosition,
            }
        },
    }
}

} // verus!
