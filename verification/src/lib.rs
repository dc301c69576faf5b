//! Control core for a video player that feeds decoded frames from an
//! external media engine into a retained-mode GUI.
//!
//! The engine itself (demuxing, decoding, colour conversion) and the GUI
//! event loop live outside this crate, in the unverified shell around it.
//! Here stand the decisions the player makes: which pipeline topology to
//! ask the engine for, how playback status reacts to messages from the
//! engine bus and from the GUI, and the bookkeeping of frame, duration and
//! position readings. Every function in this crate is verified; the shell
//! performs the engine calls that the contracts here describe.

use vstd::prelude::*;

mod gstreamerbase;
mod gstreamerpipewire;
pub mod pipeline;

pub use gstreamerbase::GstreamerIcedBase;
pub use gstreamerpipewire::GstreamerIcedPipewire;

verus! {

/// Playback status of the player.
#[derive(Debug, Clone, Copy, PartialEq, Eq, Structural)]
pub enum PlayStatus {
    Stop,
    Playing,
    End,
}

/// One decoded video frame as the engine's frame sink hands it over:
/// tightly packed RGBA pixels of the negotiated width and height.
#[derive(Debug)]
pub struct FrameData {
    pub pixels: Vec<u8>,
    pub width: u32,
    pub height: u32,
}

impl FrameData {
    /// Two frames carry the same picture: same pixel bytes, same extent.
    pub open spec fn spec_eq(self, other: FrameData) -> bool {
        self.pixels@ == other.pixels@ && self.width == other.width && self.height == other.height
    }
}

impl Clone for FrameData {
    fn clone(&self) -> (r: Self)
        ensures
            r.spec_eq(*self),
    {
        let pixels = self.pixels.clone();
        proof {
            assert(pixels@ =~= self.pixels@);
        }
        FrameData { pixels, width: self.width, height: self.height }
    }
}

/// What can go wrong between the player and its collaborators: engine
/// initialization and configuration, the engine bus, state changes,
/// element casts, I/O, the URI, capability negotiation, the info queries,
/// and playback sync. Failures reported by an outside collaborator carry
/// its message.
#[derive(Debug, Clone, PartialEq, Eq)]
pub enum IcedGStreamerError {
    Glib(String),
    Bool(String),
    Bus,
    StateChange(String),
    Cast,
    Io(String),
    Uri,
    Caps,
    Duration,
    Sync,
}

impl IcedGStreamerError {
    /// What [`Self::message`] returns for each variant.
    pub open spec fn spec_message(&self) -> Seq<char> {
        match self {
            IcedGStreamerError::Glib(s) => s@,
            IcedGStreamerError::Bool(s) => s@,
            IcedGStreamerError::Bus => "failed to get the gstreamer bus"@,
            IcedGStreamerError::StateChange(s) => s@,
            IcedGStreamerError::Cast => "failed to cast gstreamer element"@,
            IcedGStreamerError::Io(s) => s@,
            IcedGStreamerError::Uri => "invalid URI"@,
            IcedGStreamerError::Caps => "failed to get media capabilities"@,
            IcedGStreamerError::Duration => "failed to query media duration or position"@,
            IcedGStreamerError::Sync => "failed to sync with playback"@,
        }
    }

    /// The human-readable description of the failure: the collaborator's
    /// own message where one was carried, a fixed sentence otherwise.
    pub fn message(&self) -> (r: String)
        ensures
            r@ == self.spec_message(),
    {
        match self {
            IcedGStreamerError::Glib(s) => s.clone(),
            IcedGStreamerError::Bool(s) => s.clone(),
            IcedGStreamerError::Bus => String::from_str("failed to get the gstreamer bus"),
            IcedGStreamerError::StateChange(s) => s.clone(),
            IcedGStreamerError::Cast => String::from_str("failed to cast gstreamer element"),
            IcedGStreamerError::Io(s) => s.clone(),
            IcedGStreamerError::Uri => String::from_str("invalid URI"),
            IcedGStreamerError::Caps => String::from_str("failed to get media capabilities"),
            IcedGStreamerError::Duration => String::from_str(
                "failed to query media duration or position",
            ),
            IcedGStreamerError::Sync => String::from_str("failed to sync with playback"),
        }
    }
}

/// A playback position handed to a seek, either as elapsed time in
/// nanoseconds or as a frame count.
#[derive(Debug, Clone, Copy, PartialEq, Eq, PartialOrd, Ord, Hash, Structural)]
pub enum Position {
    /// Position based on elapsed time, in nanoseconds.
    ///
    /// Not the most accurate format for videos.
    Time(u64),
    /// Position based on nth frame.
    Frame(u64),
}

impl vstd::std_specs::convert::FromSpecImpl<u64> for Position {
    open spec fn obeys_from_spec() -> bool {
        true
    }

    open spec fn from_spec(f: u64) -> Position {
        Position::Frame(f)
    }
}

impl From<u64> for Position {
    fn from(f: u64) -> Position {
        Position::Frame(f)
    }
}

/// The format in which the engine is told to seek: its clock-time format
/// (nanoseconds) or its default per-frame counting format.
#[derive(Debug, Clone, Copy, PartialEq, Eq, Structural)]
pub enum SeekTarget {
    /// Clock time in nanoseconds.
    Time(u64),
    /// Count of frames from the start.
    Frames(u64),
}

impl vstd::std_specs::convert::FromSpecImpl<Position> for SeekTarget {
    open spec fn obeys_from_spec() -> bool {
        true
    }

    open spec fn from_spec(pos: Position) -> SeekTarget {
        match pos {
            Position::Time(nanos) => SeekTarget::Time(nanos),
            Position::Frame(f) => SeekTarget::Frames(f),
        }
    }
}

impl From<Position> for SeekTarget {
    fn from(pos: Position) -> SeekTarget {
        match pos {
            Position::Time(nanos) => SeekTarget::Time(nanos),
            Position::Frame(f) => SeekTarget::Frames(f),
        }
    }
}

/// A message the player reacts to: the periodic GUI tick, a frame-arrival
/// notice from the engine callback, a play/pause intent from the GUI, or
/// end-of-stream from the engine bus.
#[derive(Debug, Clone, Copy, PartialEq, Eq, Structural)]
pub enum GStreamerMessage {
    Update,
    FrameUpdate,
    PlayStatusChanged(PlayStatus),
    BusGoToEnd,
}

/// What the engine bus reported, reduced to the three cases the player
/// distinguishes.
#[derive(Debug, Clone, Copy, PartialEq, Eq, Structural)]
pub enum BusEvent {
    /// A pipeline error. The player treats this as fatal: the shell ends
    /// the process, so no message is derived from it here.
    Error,
    /// End of stream.
    Eos,
    /// Any other bus traffic, all of which the player ignores.
    Other,
}

/// The message the player queue receives for a bus event.
///
/// End of stream becomes [`GStreamerMessage::BusGoToEnd`]; all other
/// non-fatal traffic is dropped. A fatal error never reaches this point:
/// the shell panics on it, as the player defines no recovery.
pub fn message_for_bus_event(event: BusEvent) -> (r: Option<GStreamerMessage>)
    requires
        !(event is Error),
    ensures
        event is Eos ==> r == Some(GStreamerMessage::BusGoToEnd),
        event is Other ==> r is None,
{
    match event {
        BusEvent::Eos => Some(GStreamerMessage::BusGoToEnd),
        _ => None,
    }
}

/// What the shell must ask the engine to do after an update step.
///
/// The unverified shell performs exactly the returned action on the real
/// pipeline: a state change to playing or paused, or a round of the
/// info-refresh protocol (duration, position and volume queries).
#[derive(Debug, Clone, Copy, PartialEq, Eq, Structural)]
pub enum PlayerAction {
    /// No engine call is owed.
    Nothing,
    /// Set the pipeline to its playing state.
    SetPlaying,
    /// Set the pipeline to its paused state.
    SetPaused,
    /// Run the info-refresh protocol: query duration while it is still
    /// unknown, then position, then re-read the volume.
    RefreshInfo,
}

/// Milliseconds between two periodic GUI update ticks.
pub const UPDATE_TICK_MILLIS: u64 = 50;

/// Bound of the queue that carries messages from the engine callback
/// thread to the GUI loop; sends beyond it are dropped best-effort.
pub const MESSAGE_CHANNEL_CAPACITY: usize = 100;

/// The player's control state.
///
/// The engine-side objects (the pipeline, its bus, the frame callback) are
/// owned by the unverified shell; this struct holds what the player itself
/// decides on: the latest delivered frame and the playback bookkeeping.
/// `X` selects the flavour: 0 plays from a URL, 1 captures a desktop
/// stream.
#[derive(Debug)]
pub struct GstreamerIced<const X: usize> {
    /// The latest frame the engine delivered, if any.
    pub frame: Option<FrameData>,
    /// The current playback status.
    pub play_status: PlayStatus,
    /// Media duration in nanoseconds; 0 until the engine has answered a
    /// duration query (and forever for live or captured streams).
    pub duration: u64,
    /// Playback position in nanoseconds.
    pub position: u64,
    /// True while the first successful duration query is still owed.
    pub info_get_started: bool,
}

impl<const X: usize> GstreamerIced<X> {
    /// Return [`FrameData`], you can directly access the data.
    pub fn frame_data(&self) -> (r: Option<FrameData>)
        ensures
            match r {
                Some(f) => self.frame matches Some(g) && f.spec_eq(g),
                None => self.frame is None,
            },
    {
        match &self.frame {
            Some(f) => Some(f.clone()),
            None => None,
        }
    }

    /// What the playing status is.
    pub fn play_status(&self) -> (r: &PlayStatus)
        ensures
            *r == self.play_status,
    {
        &self.play_status
    }

    /// Whether the player is currently advancing.
    pub fn is_playing(&self) -> (r: bool)
        ensures
            r == (self.play_status is Playing),
    {
        matches!(self.play_status, PlayStatus::Playing)
    }

    /// Record a frame the engine callback delivered: it overwrites the
    /// slot, newest wins; nothing else moves.
    pub fn store_frame(&mut self, frame: FrameData)
        ensures
            final(self).frame == Some(frame),
            final(self).play_status == old(self).play_status,
            final(self).duration == old(self).duration,
            final(self).position == old(self).position,
            final(self).info_get_started == old(self).info_get_started,
    {
        self.frame = Some(frame);
    }

    /// Get the type name of this player flavour.
    pub fn gstreamer_type(&self) -> (r: String)
        requires
            X == 0 || X == 1,
        ensures
            X == 0 ==> r@ == "base"@,
            X == 1 ==> r@ == "pipewire"@,
    {
        if X == 0 {
            String::from_str("base")
        } else {
            String::from_str("pipewire")
        }
    }
}

} // verus!
