//! The URL-playback flavour of the player.
//!
//! It plays a local or remote URL through the engine's prebuilt playback
//! element and, unlike the capture flavour, keeps duration and position
//! readings: its update step asks the shell to run the info-refresh
//! protocol, whose bookkeeping stands here.

use crate::pipeline::{spec_url_plan, url_pipeline_plan, UrlPipelinePlan};
use crate::{GStreamerMessage, GstreamerIced, PlayStatus, PlayerAction};
use vstd::prelude::*;

verus! {

/// The player flavour that plays back a URL.
pub type GstreamerIcedBase = GstreamerIced<0>;

impl GstreamerIcedBase {
    /// A stopped player for the given URL (local or http), together with
    /// the topology plan the shell must realize for it. A live source
    /// never answers a duration query, so for one the first query is not
    /// owed.
    pub fn new_url(uri: &str, islive: bool) -> (r: (Self, UrlPipelinePlan))
        ensures
            r.0.frame is None,
            r.0.play_status is Stop,
            r.0.duration == 0,
            r.0.position == 0,
            r.0.info_get_started == !islive,
            spec_url_plan(r.1, uri@),
    {
        let player = GstreamerIced {
            frame: None,
            play_status: PlayStatus::Stop,
            duration: 0,
            position: 0,
            info_get_started: !islive,
        };
        (player, url_pipeline_plan(uri))
    }

    /// React to one message.
    ///
    /// A play or pause intent becomes the matching engine state change and
    /// is recorded; end-of-stream from the bus ends playback; the periodic
    /// tick asks the shell to run the info-refresh protocol (see
    /// [`Self::needs_duration_query`] and what follows); a frame-arrival
    /// notice asks for nothing, the frame slot having been filled already.
    pub fn update(&mut self, message: GStreamerMessage) -> (r: PlayerAction)
        ensures
            final(self).frame == old(self).frame,
            final(self).duration == old(self).duration,
            final(self).position == old(self).position,
            final(self).info_get_started == old(self).info_get_started,
            match message {
                GStreamerMessage::Update => {
                    &&& r == PlayerAction::RefreshInfo
                    &&& final(self).play_status == old(self).play_status
                },
                GStreamerMessage::FrameUpdate => {
                    &&& r == PlayerAction::Nothing
                    &&& final(self).play_status == old(self).play_status
                },
                GStreamerMessage::PlayStatusChanged(status) => {
                    &&& final(self).play_status == status
                    &&& r == (match status {
                        PlayStatus::Playing => PlayerAction::SetPlaying,
                        PlayStatus::Stop => PlayerAction::SetPaused,
                        PlayStatus::End => PlayerAction::Nothing,
                    })
                },
                GStreamerMessage::BusGoToEnd => {
                    &&& final(self).play_status is End
                    &&& r == PlayerAction::Nothing
                },
            },
    {
        match message {
            GStreamerMessage::Update => PlayerAction::RefreshInfo,
            GStreamerMessage::PlayStatusChanged(status) => {
                let action = match status {
                    PlayStatus::Playing => PlayerAction::SetPlaying,
                    PlayStatus::Stop => PlayerAction::SetPaused,
                    PlayStatus::End => PlayerAction::Nothing,
                };
                self.play_status = status;
                action
            },
            GStreamerMessage::BusGoToEnd => {
                self.play_status = PlayStatus::End;
                PlayerAction::Nothing
            },
            _ => PlayerAction::Nothing,
        }
    }

    /// Record that the engine accepted a flushing seek: a player that had
    /// reached the end resumes playing; any other status stays. The shell
    /// calls this only after the engine call succeeded, so a failed seek
    /// changes nothing.
    pub fn seek(&mut self)
        ensures
            final(self).play_status == (if old(self).play_status is End {
                PlayStatus::Playing
            } else {
                old(self).play_status
            }),
            final(self).frame == old(self).frame,
            final(self).duration == old(self).duration,
            final(self).position == old(self).position,
            final(self).info_get_started == old(self).info_get_started,
    {
        if matches!(self.play_status, PlayStatus::End) {
            self.play_status = PlayStatus::Playing;
        }
    }

    /// First step of the info-refresh protocol: whether the first
    /// successful duration query is still owed. While it is, the shell
    /// queries the engine until it answers, then calls
    /// [`Self::record_duration`].
    pub fn needs_duration_query(&self) -> (r: bool)
        ensures
            r == self.info_get_started,
    {
        self.info_get_started
    }

    /// Record the engine's first successful duration answer, in
    /// nanoseconds; the query is then owed no more.
    pub fn record_duration(&mut self, nanos: u64)
        ensures
            final(self).duration == nanos,
            final(self).info_get_started == false,
            final(self).frame == old(self).frame,
            final(self).play_status == old(self).play_status,
            final(self).position == old(self).position,
    {
        self.duration = nanos;
        self.info_get_started = false;
    }

    /// Second step of the info-refresh protocol: whether a position query
    /// is owed. Only a medium with a known, nonzero duration has a
    /// position worth asking for.
    pub fn needs_position_query(&self) -> (r: bool)
        ensures
            r == (self.duration != 0),
    {
        self.duration != 0
    }

    /// Record a successful position answer, in nanoseconds.
    pub fn record_position(&mut self, nanos: u64)
        ensures
            final(self).position == nanos,
            final(self).frame == old(self).frame,
            final(self).play_status == old(self).play_status,
            final(self).duration == old(self).duration,
            final(self).info_get_started == old(self).info_get_started,
    {
        self.position = nanos;
    }

    /// Get the duration in nanoseconds; if is live or pipewire, it is 0.
    pub fn duration(&self) -> (r: u64)
        ensures
            r == self.duration,
    {
        self.duration
    }

    /// Where the video is now, in nanoseconds.
    pub fn position(&self) -> (r: u64)
        ensures
            r == self.position,
    {
        self.position
    }

    /// Turn position to nanos.
    pub fn position_nanos(&self) -> (r: u128)
        ensures
            r == self.position as u128,
    {
        self.position as u128
    }
}

} // verus!
