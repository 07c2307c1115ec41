//! What a handle on one remote player decides without the bus: which of its
//! interfaces it can reach, and the textual states it reads.

use vstd::prelude::*;

use crate::enums::{Interface, lower_of, lowercase, same_text};
use crate::error::Error;
use crate::properties::Property;
use crate::signals::Signal;

verus! {

/// Which interfaces of a remote player were found when its handle was made.
/// Each is looked up on its own: one that is missing does not keep the
/// handle from being made.
#[derive(Debug, Clone, Copy, PartialEq, Eq, Structural)]
pub struct Endpoints {
    pub base: bool,
    pub player: bool,
    pub track_list: bool,
    pub playlists: bool,
}

impl Endpoints {
    pub open spec fn has_spec(&self, iface: Interface) -> bool {
        match iface {
            Interface::Base => self.base,
            Interface::Player => self.player,
            Interface::TrackList => self.track_list,
            Interface::Playlists => self.playlists,
        }
    }

    /// Whether the interface `iface` was found.
    pub fn has(&self, iface: Interface) -> (r: bool)
        ensures
            r == self.has_spec(iface),
    {
        match iface {
            Interface::Base => self.base,
            Interface::Player => self.player,
            Interface::TrackList => self.track_list,
            Interface::Playlists => self.playlists,
        }
    }

    /// Admits a request on `iface` only if that interface was found.
    pub fn require(&self, iface: Interface) -> (r: Result<(), Error>)
        ensures
            r == if self.has_spec(iface) {
                Ok::<(), Error>(())
            } else {
                Err(Error::InterfaceUnavailable)
            },
    {
        if self.has(iface) {
            Ok(())
        } else {
            Err(Error::InterfaceUnavailable)
        }
    }

    /// Admits a request on the field `p` only if its interface was found.
    pub fn require_property<P: Property>(&self, p: &P) -> (r: Result<(), Error>)
        ensures
            r == if self.has_spec(p.interface_spec()) {
                Ok::<(), Error>(())
            } else {
                Err(Error::InterfaceUnavailable)
            },
    {
        self.require(p.interface())
    }

    /// Admits a subscription to the event `s` only if its interface was found.
    pub fn require_signal<S: Signal>(&self, s: &S) -> (r: Result<(), Error>)
        ensures
            r == if self.has_spec(s.interface_spec()) {
                Ok::<(), Error>(())
            } else {
                Err(Error::InterfaceUnavailable)
            },
    {
        self.require(s.interface())
    }
}

/// The playback status of a player.
#[derive(Debug, Clone, Copy, PartialEq, Eq, Structural)]
pub enum PlaybackStatus {
    Playing,
    Paused,
    Stopped,
}

/// The playback status that a lower-cased status names; anything else reads
/// as stopped.
pub open spec fn playback_status_of_lower(s: Seq<char>) -> PlaybackStatus {
    if s == seq!['p', 'l', 'a', 'y', 'i', 'n', 'g'] {
        PlaybackStatus::Playing
    } else if s == seq!['p', 'a', 'u', 's', 'e', 'd'] {
        PlaybackStatus::Paused
    } else {
        PlaybackStatus::Stopped
    }
}

impl PlaybackStatus {
    pub fn to_string(&self) -> (r: String)
        ensures
            r@ == match *self {
                PlaybackStatus::Playing => seq!['P', 'l', 'a', 'y', 'i', 'n', 'g'],
                PlaybackStatus::Paused => seq!['P', 'a', 'u', 's', 'e', 'd'],
                PlaybackStatus::Stopped => seq!['S', 't', 'o', 'p', 'p', 'e', 'd'],
            },
    {
        proof {
            reveal_strlit("Playing");
            reveal_strlit("Paused");
            reveal_strlit("Stopped");
        }
        match *self {
            PlaybackStatus::Paused => "Paused",
            PlaybackStatus::Playing => "Playing",
            PlaybackStatus::Stopped => "Stopped",
        }.to_string()
    }

    /// Reads a status that is already lower-cased, as
    /// `playback_status_of_lower` states.
    pub fn from_lowercase(lower: &str) -> (r: PlaybackStatus)
        ensures
            r == playback_status_of_lower(lower@),
    {
        proof {
            reveal_strlit("playing");
            assert("playing"@ =~= seq!['p', 'l', 'a', 'y', 'i', 'n', 'g']);
            reveal_strlit("paused");
            assert("paused"@ =~= seq!['p', 'a', 'u', 's', 'e', 'd']);
        }
        if same_text(lower, "playing") {
            PlaybackStatus::Playing
        } else if same_text(lower, "paused") {
            PlaybackStatus::Paused
        } else {
            PlaybackStatus::Stopped
        }
    }

    /// Reads a textual status: its lower case, as `str::to_lowercase` gives
    /// it, read by `from_lowercase`.
    pub fn from_text(s: &str) -> (r: PlaybackStatus)
        ensures
            r == playback_status_of_lower(lower_of(s@)),
    {
        let lower = lowercase(s);
        PlaybackStatus::from_lowercase(lower.as_str())
    }
}

impl Default for PlaybackStatus {
    fn default() -> (r: PlaybackStatus)
        ensures
            r == PlaybackStatus::Stopped,
    {
        PlaybackStatus::Stopped
    }
}

impl<'a> From<&'a str> for PlaybackStatus {
    fn from(value: &'a str) -> (r: PlaybackStatus) {
        PlaybackStatus::from_text(value)
    }
}

impl<'a> vstd::std_specs::convert::FromSpecImpl<&'a str> for PlaybackStatus {
    open spec fn obeys_from_spec() -> bool {
        true
    }

    open spec fn from_spec(v: &'a str) -> PlaybackStatus {
        playback_status_of_lower(lower_of(v@))
    }
}

impl From<String> for PlaybackStatus {
    fn from(value: String) -> (r: PlaybackStatus) {
        PlaybackStatus::from_text(value.as_str())
    }
}

impl vstd::std_specs::convert::FromSpecImpl<String> for PlaybackStatus {
    open spec fn obeys_from_spec() -> bool {
        true
    }

    open spec fn from_spec(v: String) -> PlaybackStatus {
        playback_status_of_lower(lower_of(v@))
    }
}

/// The loop status of a player.
#[derive(Debug, Clone, Copy, PartialEq, Eq, Structural)]
pub enum LoopStatus {
    /// The playback will stop after the end of the track
    Off,
    /// The current track will repeat forever
    Track,
    /// The whole playlist will be repeated
    Playlist,
}

/// The loop status that a lower-cased status names; anything else reads as
/// no loop.
pub open spec fn loop_status_of_lower(s: Seq<char>) -> LoopStatus {
    if s == seq!['p', 'l', 'a', 'y', 'l', 'i', 's', 't'] {
        LoopStatus::Playlist
    } else if s == seq!['t', 'r', 'a', 'c', 'k'] {
        LoopStatus::Track
    } else {
        LoopStatus::Off
    }
}

impl LoopStatus {
    pub fn to_string(&self) -> (r: String)
        ensures
            r@ == match *self {
                LoopStatus::Off => seq!['N', 'o', 'n', 'e'],
                LoopStatus::Track => seq!['T', 'r', 'a', 'c', 'k'],
                LoopStatus::Playlist => seq!['P', 'l', 'a', 'y', 'l', 'i', 's', 't'],
            },
    {
        proof {
            reveal_strlit("None");
            reveal_strlit("Track");
            reveal_strlit("Playlist");
        }
        match *self {
            LoopStatus::Off => "None",
            LoopStatus::Track => "Track",
            LoopStatus::Playlist => "Playlist",
        }.to_string()
    }

    /// Reads a status that is already lower-cased, as `loop_status_of_lower`
    /// states.
    pub fn from_lowercase(lower: &str) -> (r: LoopStatus)
        ensures
            r == loop_status_of_lower(lower@),
    {
        proof {
            reveal_strlit("playlist");
            assert("playlist"@ =~= seq!['p', 'l', 'a', 'y', 'l', 'i', 's', 't']);
            reveal_strlit("track");
            assert("track"@ =~= seq!['t', 'r', 'a', 'c', 'k']);
        }
        if same_text(lower, "playlist") {
            LoopStatus::Playlist
        } else if same_text(lower, "track") {
            LoopStatus::Track
        } else {
            LoopStatus::Off
        }
    }

    /// Reads a textual status: its lower case, as `str::to_lowercase` gives
    /// it, read by `from_lowercase`.
    pub fn from_text(s: &str) -> (r: LoopStatus)
        ensures
            r == loop_status_of_lower(lower_of(s@)),
    {
        let lower = lowercase(s);
        LoopStatus::from_lowercase(lower.as_str())
    }
}

impl Default for LoopStatus {
    fn default() -> (r: LoopStatus)
        ensures
            r == LoopStatus::Off,
    {
        LoopStatus::Off
    }
}

impl<'a> From<&'a str> for LoopStatus {
    fn from(value: &'a str) -> (r: LoopStatus) {
        LoopStatus::from_text(value)
    }
}

impl<'a> vstd::std_specs::convert::FromSpecImpl<&'a str> for LoopStatus {
    open spec fn obeys_from_spec() -> bool {
        true
    }

    open spec fn from_spec(v: &'a str) -> LoopStatus {
        loop_status_of_lower(lower_of(v@))
    }
}

impl From<String> for LoopStatus {
    fn from(value: String) -> (r: LoopStatus) {
        LoopStatus::from_text(value.as_str())
    }
}

impl vstd::std_specs::convert::FromSpecImpl<String> for LoopStatus {
    open spec fn obeys_from_spec() -> bool {
        true
    }

    open spec fn from_spec(v: String) -> LoopStatus {
        loop_status_of_lower(lower_of(v@))
    }
}

} // verus!
