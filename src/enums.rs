//! The playback and loop states of a player, and their textual forms.

use vstd::prelude::*;
use vstd::string::*;

verus! {

/// What `str::to_lowercase` makes of a text: its Unicode lower case.
pub uninterp spec fn lower_of(s: Seq<char>) -> Seq<char>;

/// Relies on `str::to_lowercase`: the lower case of `s`, a function of its
/// characters alone.
#[verifier::external_body]
pub(crate) fn lowercase(s: &str) -> (r: String)
    ensures
        r@ == lower_of(s@),
{
    s.to_lowercase()
}

/// Whether the texts `a` and `b` hold the same characters.
pub fn same_text(a: &str, b: &str) -> (r: bool)
    ensures
        r == (a@ == b@),
{
    let n: usize = a.unicode_len();
    if n != b.unicode_len() {
        return false;
    }
    let mut i: usize = 0;
    while i < n
        invariant
            n == a@.len(),
            n == b@.len(),
            i <= n,
            forall|j: int| 0 <= j < i ==> a@[j] == b@[j],
        decreases n - i,
    {
        if a.get_char(i) != b.get_char(i) {
            return false;
        }
        i = i + 1;
    }
    assert(a@ =~= b@);
    true
}

/// The state of the playback.
#[derive(Debug, Clone, Copy, PartialEq, Eq, Structural)]
pub enum Playback {
    Playing,
    Paused,
    Stopped,
}

/// The playback state that a lower-cased status names; anything else reads as
/// stopped.
pub open spec fn playback_of_lower(s: Seq<char>) -> Playback {
    if s == seq!['p', 'l', 'a', 'y', 'i', 'n', 'g'] {
        Playback::Playing
    } else if s == seq!['p', 'a', 'u', 's', 'e', 'd'] {
        Playback::Paused
    } else {
        Playback::Stopped
    }
}

/// The name under which a playback state travels.
pub open spec fn playback_name(p: Playback) -> Seq<char> {
    match p {
        Playback::Playing => seq!['P', 'l', 'a', 'y', 'i', 'n', 'g'],
        Playback::Paused => seq!['P', 'a', 'u', 's', 'e', 'd'],
        Playback::Stopped => seq!['S', 't', 'o', 'p', 'p', 'e', 'd'],
    }
}

impl Playback {
    pub fn to_string(&self) -> (r: String)
        ensures
            r@ == playback_name(*self),
    {
        proof {
            reveal_strlit("Playing");
            reveal_strlit("Paused");
            reveal_strlit("Stopped");
        }
        match *self {
            Playback::Paused => "Paused",
            Playback::Playing => "Playing",
            Playback::Stopped => "Stopped",
        }.to_string()
    }

    /// Reads a status that is already lower-cased, as `playback_of_lower` states.
    pub fn from_lowercase(lower: &str) -> (r: Playback)
        ensures
            r == playback_of_lower(lower@),
    {
        proof {
            reveal_strlit("playing");
            assert("playing"@ =~= seq!['p', 'l', 'a', 'y', 'i', 'n', 'g']);
            reveal_strlit("paused");
            assert("paused"@ =~= seq!['p', 'a', 'u', 's', 'e', 'd']);
        }
        if same_text(lower, "playing") {
            Playback::Playing
        } else if same_text(lower, "paused") {
            Playback::Paused
        } else {
            Playback::Stopped
        }
    }

    /// Reads a textual status: its lower case, as `str::to_lowercase` gives
    /// it, read by `from_lowercase`.
    pub fn from_text(s: &str) -> (r: Playback)
        ensures
            r == playback_of_lower(lower_of(s@)),
    {
        let lower = lowercase(s);
        Playback::from_lowercase(lower.as_str())
    }
}

impl Default for Playback {
    fn default() -> (r: Playback)
        ensures
            r == Playback::Stopped,
    {
        Playback::Stopped
    }
}

impl<'a> From<&'a str> for Playback {
    fn from(value: &'a str) -> (r: Playback) {
        Playback::from_text(value)
    }
}

impl<'a> vstd::std_specs::convert::FromSpecImpl<&'a str> for Playback {
    open spec fn obeys_from_spec() -> bool {
        true
    }

    open spec fn from_spec(v: &'a str) -> Playback {
        playback_of_lower(lower_of(v@))
    }
}

impl From<String> for Playback {
    fn from(value: String) -> (r: Playback) {
        Playback::from_text(value.as_str())
    }
}

impl vstd::std_specs::convert::FromSpecImpl<String> for Playback {
    open spec fn obeys_from_spec() -> bool {
        true
    }

    open spec fn from_spec(v: String) -> Playback {
        playback_of_lower(lower_of(v@))
    }
}

/// The state of the loop.
#[derive(Debug, Clone, Copy, PartialEq, Eq, Structural)]
pub enum Loop {
    /// The playback will stop after the end of the playlist
    Off,
    /// The current track will repeat forever
    Track,
    /// The whole playlist will be repeated
    Playlist,
}

/// The loop state that a lower-cased status names; anything else reads as no
/// loop.
pub open spec fn loop_of_lower(s: Seq<char>) -> Loop {
    if s == seq!['p', 'l', 'a', 'y', 'l', 'i', 's', 't'] {
        Loop::Playlist
    } else if s == seq!['t', 'r', 'a', 'c', 'k'] {
        Loop::Track
    } else {
        Loop::Off
    }
}

/// The name under which a loop state travels.
pub open spec fn loop_name(l: Loop) -> Seq<char> {
    match l {
        Loop::Off => seq!['N', 'o', 'n', 'e'],
        Loop::Track => seq!['T', 'r', 'a', 'c', 'k'],
        Loop::Playlist => seq!['P', 'l', 'a', 'y', 'l', 'i', 's', 't'],
    }
}

impl Loop {
    pub fn to_string(&self) -> (r: String)
        ensures
            r@ == loop_name(*self),
    {
        proof {
            reveal_strlit("None");
            reveal_strlit("Track");
            reveal_strlit("Playlist");
        }
        match *self {
            Loop::Off => "None",
            Loop::Track => "Track",
            Loop::Playlist => "Playlist",
        }.to_string()
    }

    /// Reads a status that is already lower-cased, as `loop_of_lower` states.
    pub fn from_lowercase(lower: &str) -> (r: Loop)
        ensures
            r == loop_of_lower(lower@),
    {
        proof {
            reveal_strlit("playlist");
            assert("playlist"@ =~= seq!['p', 'l', 'a', 'y', 'l', 'i', 's', 't']);
            reveal_strlit("track");
            assert("track"@ =~= seq!['t', 'r', 'a', 'c', 'k']);
        }
        if same_text(lower, "playlist") {
            Loop::Playlist
        } else if same_text(lower, "track") {
            Loop::Track
        } else {
            Loop::Off
        }
    }

    /// Reads a textual status: its lower case, as `str::to_lowercase` gives
    /// it, read by `from_lowercase`.
    pub fn from_text(s: &str) -> (r: Loop)
        ensures
            r == loop_of_lower(lower_of(s@)),
    {
        let lower = lowercase(s);
        Loop::from_lowercase(lower.as_str())
    }
}

impl Default for Loop {
    fn default() -> (r: Loop)
        ensures
            r == Loop::Off,
    {
        Loop::Off
    }
}

impl<'a> From<&'a str> for Loop {
    fn from(value: &'a str) -> (r: Loop) {
        Loop::from_text(value)
    }
}

impl<'a> vstd::std_specs::convert::FromSpecImpl<&'a str> for Loop {
    open spec fn obeys_from_spec() -> bool {
        true
    }

    open spec fn from_spec(v: &'a str) -> Loop {
        loop_of_lower(lower_of(v@))
    }
}

impl From<String> for Loop {
    fn from(value: String) -> (r: Loop) {
        Loop::from_text(value.as_str())
    }
}

impl vstd::std_specs::convert::FromSpecImpl<String> for Loop {
    open spec fn obeys_from_spec() -> bool {
        true
    }

    open spec fn from_spec(v: String) -> Loop {
        loop_of_lower(lower_of(v@))
    }
}

/// The interface of the remote object that a field, an event or a method
/// lives on.
#[derive(Debug, Clone, Copy, PartialEq, Eq, Structural)]
pub enum Interface {
    /// The base interface, `org.mpris.MediaPlayer2`
    Base,
    /// The player-control interface, `org.mpris.MediaPlayer2.Player`
    Player,
    /// The track list, `org.mpris.MediaPlayer2.TrackList`
    TrackList,
    /// The playlists, `org.mpris.MediaPlayer2.Playlists`
    Playlists,
}

impl Default for Interface {
    fn default() -> (r: Interface)
        ensures
            r == Interface::Base,
    {
        Interface::Base
    }
}

impl Interface {
    /// The bus name of the interface.
    pub fn bus_name(&self) -> (r: &'static str)
        ensures
            r@ == match *self {
                Interface::Base => "org.mpris.MediaPlayer2"@,
                Interface::Player => "org.mpris.MediaPlayer2.Player"@,
                Interface::TrackList => "org.mpris.MediaPlayer2.TrackList"@,
                Interface::Playlists => "org.mpris.MediaPlayer2.Playlists"@,
            },
    {
        match *self {
            Interface::Base => "org.mpris.MediaPlayer2",
            Interface::Player => "org.mpris.MediaPlayer2.Player",
            Interface::TrackList => "org.mpris.MediaPlayer2.TrackList",
            Interface::Playlists => "org.mpris.MediaPlayer2.Playlists",
        }
    }
}

impl DeepView for Playback {
    type V = Playback;

    open spec fn deep_view(&self) -> Playback {
        *self
    }
}

impl DeepView for Loop {
    type V = Loop;

    open spec fn deep_view(&self) -> Loop {
        *self
    }
}

} // verus!
