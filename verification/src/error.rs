//! The error taxonomy of the manager.
//!
//! Every error is recoverable at the command level: the failed operation
//! leaves all state unchanged and the caller reports the condition.

use vstd::prelude::*;

verus! {

/// Why a manager operation was refused.
#[derive(Clone, Copy, Debug, PartialEq, Eq, Structural)]
pub enum PlayerError {
    /// The guild has no live voice session, or the requesting user is in
    /// no voice channel.
    NotInVoiceChannel,
    /// The voice transport could not be opened.
    ConnectionFailed,
    /// The operation needs a current track but the queue is empty.
    EmptyQueue,
    /// The playback state already is what the caller asked for.
    InvalidState,
    /// A volume outside the accepted range of 0 to 100 per cent.
    InvalidVolume,
    /// The resolver could not turn the query into a playable source.
    ResolutionFailed,
    /// The resolver found a source but no descriptive metadata.
    MetadataUnavailable,
}

impl PlayerError {
    /// The user-facing description of the error.
    pub fn message(&self) -> (r: &'static str)
        ensures
            *self == PlayerError::NotInVoiceChannel ==> r@ == "User not in a voice channel."@,
            *self == PlayerError::ConnectionFailed ==> r@ == "Failed to join voice channel."@,
            *self == PlayerError::EmptyQueue ==> r@ == "No tracks are currently in queue."@,
            *self == PlayerError::InvalidState ==> r@ == "Playback is already in that state."@,
            *self == PlayerError::InvalidVolume ==> r@ == "Volume must be between 0 and 100."@,
            *self == PlayerError::ResolutionFailed ==> r@ == "Failed to get track."@,
            *self == PlayerError::MetadataUnavailable ==> r@ == "Failed to get metadata."@,
    {
        match self {
            PlayerError::NotInVoiceChannel => "User not in a voice channel.",
            PlayerError::ConnectionFailed => "Failed to join voice channel.",
            PlayerError::EmptyQueue => "No tracks are currently in queue.",
            PlayerError::InvalidState => "Playback is already in that state.",
            PlayerError::InvalidVolume => "Volume must be between 0 and 100.",
            PlayerError::ResolutionFailed => "Failed to get track.",
            PlayerError::MetadataUnavailable => "Failed to get metadata.",
        }
    }
}

} // verus!
