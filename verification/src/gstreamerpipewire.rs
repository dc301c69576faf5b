//! The desktop-capture flavour of the player.
//!
//! It shows a desktop or window stream negotiated out of process (the
//! portal hands over a stream node identifier), optionally recording the
//! stream to a file at the same time. A capture has no duration or
//! position, so its update step never asks for the info-refresh protocol.

use crate::pipeline::{
    pipewire_pipeline_plan, pipewire_record_pipeline_plan, spec_pipewire_plan,
    spec_pipewire_record_plan, PipewirePipelinePlan,
};
use crate::{GStreamerMessage, GstreamerIced, PlayStatus, PlayerAction};
use vstd::prelude::*;

verus! {

/// The player flavour that captures a desktop stream.
pub type GstreamerIcedPipewire = GstreamerIced<1>;

impl GstreamerIcedPipewire {
    /// A player capturing the given stream node, already playing, with
    /// the topology plan the shell must realize, which records the stream
    /// to the given file path beside showing it.
    pub fn new_pipewire_with_record(path: u32, save_path: &str) -> (r: (
        Self,
        PipewirePipelinePlan,
    ))
        ensures
            r.0.frame is None,
            r.0.play_status is Playing,
            r.0.duration == 0,
            r.0.position == 0,
            r.0.info_get_started == true,
            spec_pipewire_record_plan(r.1, path, save_path@),
    {
        let player = GstreamerIced {
            frame: None,
            play_status: PlayStatus::Playing,
            duration: 0,
            position: 0,
            info_get_started: true,
        };
        (player, pipewire_record_pipeline_plan(path, save_path))
    }

    /// Accept a pipewire stream, it accept a pipewire path, you may can
    /// get it from the capture portal, it is called node. The player
    /// starts out playing; the plan shows the stream without recording.
    pub fn new_pipewire(path: u32) -> (r: (Self, PipewirePipelinePlan))
        ensures
            r.0.frame is None,
            r.0.play_status is Playing,
            r.0.duration == 0,
            r.0.position == 0,
            r.0.info_get_started == true,
            spec_pipewire_plan(r.1, path),
    {
        let player = GstreamerIced {
            frame: None,
            play_status: PlayStatus::Playing,
            duration: 0,
            position: 0,
            info_get_started: true,
        };
        (player, pipewire_pipeline_plan(path))
    }

    /// React to one message.
    ///
    /// As for URL playback, a play or pause intent becomes the matching
    /// engine state change and end-of-stream ends playback; but a capture
    /// has no duration or position, so the periodic tick asks for nothing.
    pub fn update(&mut self, message: GStreamerMessage) -> (r: PlayerAction)
        ensures
            final(self).frame == old(self).frame,
            final(self).duration == old(self).duration,
            final(self).position == old(self).position,
            final(self).info_get_started == old(self).info_get_started,
            match message {
                GStreamerMessage::PlayStatusChanged(status) => {
                    &&& final(self).play_status == status
                    &&& r == (match status {
                        PlayStatus::Playing => PlayerAction::SetPlaying,
                        PlayStatus::Stop => PlayerAction::SetPaused,
                        PlayStatus::End => PlayerAction::Nothing,
                    })
                },
                GStreamerMessage::BusGoToEnd => {
                    &&& final(self).play_status is End
                    &&& r == PlayerAction::Nothing
                },
                _ => {
                    &&& r == PlayerAction::Nothing
                    &&& final(self).play_status == old(self).play_status
                },
            },
    {
        match message {
            GStreamerMessage::PlayStatusChanged(status) => {
                let action = match status {
                    PlayStatus::Playing => PlayerAction::SetPlaying,
                    PlayStatus::Stop => PlayerAction::SetPaused,
                    PlayStatus::End => PlayerAction::Nothing,
                };
                self.play_status = status;
                action
            },
            GStreamerMessage::BusGoToEnd => {
                self.play_status = PlayStatus::End;
                PlayerAction::Nothing
            },
            _ => PlayerAction::Nothing,
        }
    }
}

} // verus!
