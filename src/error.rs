use vstd::prelude::*;
use vstd::string::*;

verus! {

/// Why a play or skip command could not be carried out.
#[derive(Debug)]
pub enum PlayError {
    /// No URL came with the play command.
    NoUrl,
    /// The command was not issued in a guild.
    NoGuildId,
    /// The resolver could not produce playable songs for this URL.
    Ytdl(String),
    /// The voice channel could not be joined.
    Join,
    /// The stream of a song could not be started.
    Ffmpeg,
    /// The issuer is in no voice channel, or the room is not tracked.
    NoChannel,
    /// A skip came for a room where nothing plays.
    BotNotPlaying,
    /// An unexpected failure, with its detail.
    Unknown(String),
}

impl PlayError {
    /// Whether the error is shown to the user as it is; an unknown one is
    /// logged and shown only as a generic retry suggestion.
    pub fn is_user_facing(&self) -> (r: bool)
        ensures
            r == !(self is Unknown),
    {
        match self {
            PlayError::Unknown(_) => false,
            _ => true,
        }
    }

    /// The text shown to the user.
    pub fn message(&self) -> (r: String)
        ensures
            r@ == match self {
                PlayError::NoUrl => "You must provide a URL to play."@,
                PlayError::NoGuildId => "You can only use this command in a guild text channel."@,
                PlayError::Ytdl(u) => "Failed to retrieve information about `"@ + u@ + "`."@,
                PlayError::Join => "Unable to join your voice channel."@,
                PlayError::Ffmpeg => "Failed to start playing the given URL."@,
                PlayError::NoChannel => "Join a voice channel before trying to queue a song."@,
                PlayError::BotNotPlaying => "Nothing is playing right now."@,
                PlayError::Unknown(_) => "Something went wrong. Give it another go?"@,
            },
    {
        match self {
            PlayError::NoUrl => String::from_str("You must provide a URL to play."),
            PlayError::NoGuildId => String::from_str(
                "You can only use this command in a guild text channel.",
            ),
            PlayError::Ytdl(u) => String::from_str("Failed to retrieve information about `").concat(
                u.as_str(),
            ).concat("`."),
            PlayError::Join => String::from_str("Unable to join your voice channel."),
            PlayError::Ffmpeg => String::from_str("Failed to start playing the given URL."),
            PlayError::NoChannel => String::from_str(
                "Join a voice channel before trying to queue a song.",
            ),
            PlayError::BotNotPlaying => String::from_str("Nothing is playing right now."),
            PlayError::Unknown(_) => String::from_str("Something went wrong. Give it another go?"),
        }
    }
}

} // verus!
