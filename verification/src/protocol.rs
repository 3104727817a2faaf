//! Data model of the controller-facing protocol state: playback and
//! repeat modes, controller capabilities, and the best-effort state
//! reports the client emits after each transition.

use vstd::prelude::*;

verus! {

/// Playback state carried in group updates.
#[derive(Debug, Clone, PartialEq, Eq, Structural)]
pub enum PlaybackState {
    /// Audio is being delivered.
    Playing,
    /// Delivery is suspended but resumable.
    Paused,
    /// Nothing is playing.
    Stopped,
}

impl PlaybackState {
    /// The lowercase wire name of this state.
    pub fn wire_name(&self) -> (r: String)
        ensures
            *self is Playing ==> r@ == "playing"@,
            *self is Paused ==> r@ == "paused"@,
            *self is Stopped ==> r@ == "stopped"@,
    {
        match self {
            PlaybackState::Playing => "playing".to_owned(),
            PlaybackState::Paused => "paused".to_owned(),
            PlaybackState::Stopped => "stopped".to_owned(),
        }
    }
}

/// Repeat mode carried in metadata updates.
#[derive(Debug, Clone, PartialEq, Eq, Structural)]
pub enum RepeatMode {
    /// Play the queue once.
    Off,
    /// Repeat the current track.
    One,
    /// Repeat the whole queue.
    All,
}

/// Controller capabilities and volume state announced by the server.
#[derive(Debug, Clone)]
pub struct ControllerState {
    /// Command names the controller accepts.
    pub supported_commands: Vec<String>,
    /// Controller volume, 0 to 100.
    pub volume: u8,
    /// True while the controller is muted.
    pub muted: bool,
}

/// Group membership and playback state update from the server.
#[derive(Debug, Clone)]
pub struct LegacyGroupUpdate {
    /// The group's playback state, when announced.
    pub playback_state: Option<PlaybackState>,
    /// The group's identifier, when announced.
    pub group_id: Option<String>,
    /// The group's display name, when announced.
    pub group_name: Option<String>,
}

/// The player state this client reports to the server after each
/// transition; reports are best effort and never retried.
#[derive(Debug, Clone)]
pub struct LegacyPlayerState {
    /// The reported synchronization state's wire name.
    pub state: String,
    /// The write-time volume, 0 to 100.
    pub volume: u8,
    /// True while muted; this client never mutes.
    pub muted: bool,
}

impl LegacyPlayerState {
    /// The report emitted after every transition: the client stays in the
    /// synchronized state, with its current volume and never muted.
    pub fn synchronized_report(volume: u8) -> (r: LegacyPlayerState)
        ensures
            r.state@ == "synchronized"@,
            r.volume == volume,
            !r.muted,
    {
        LegacyPlayerState { state: "synchronized".to_owned(), volume, muted: false }
    }
}

} // verus!
