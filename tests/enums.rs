use mpris_client_async::enums::same_text;
use mpris_client_async::{Interface, Loop, Playback};

#[test]
fn playback_from_text() {
    assert_eq!(Playback::from("Playing"), Playback::Playing);
    assert_eq!(Playback::from("paused"), Playback::Paused);
    assert_eq!(Playback::from(String::from("STOPPED")), Playback::Stopped);
    assert_eq!(Playback::from("anything"), Playback::Stopped);
    assert_eq!(Playback::default(), Playback::Stopped);
}

#[test]
fn loop_from_text() {
    assert_eq!(Loop::from("Playlist"), Loop::Playlist);
    assert_eq!(Loop::from("track"), Loop::Track);
    assert_eq!(Loop::from(String::from("None")), Loop::Off);
    assert_eq!(Loop::from("Trac"), Loop::Off);
    assert_eq!(Loop::default(), Loop::Off);
}

#[test]
fn enum_names() {
    assert_eq!(Playback::Playing.to_string(), "Playing");
    assert_eq!(Playback::Paused.to_string(), "Paused");
    assert_eq!(Playback::Stopped.to_string(), "Stopped");
    assert_eq!(Loop::Off.to_string(), "None");
    assert_eq!(Loop::Track.to_string(), "Track");
    assert_eq!(Loop::Playlist.to_string(), "Playlist");
}

#[test]
fn same_text_compares_characters() {
    assert!(same_text("track", "track"));
    assert!(!same_text("Track", "track"));
    assert!(!same_text("trac", "track"));
    assert!(same_text("", ""));
    assert!(same_text("\u{212A}", "\u{212A}"));
}

#[test]
fn lower_case_readers_match_exactly() {
    assert_eq!(Playback::from_lowercase("playing"), Playback::Playing);
    assert_eq!(Playback::from_lowercase("paused"), Playback::Paused);
    assert_eq!(Playback::from_lowercase("Playing"), Playback::Stopped);
    assert_eq!(Loop::from_lowercase("playlist"), Loop::Playlist);
    assert_eq!(Loop::from_lowercase("track"), Loop::Track);
    assert_eq!(Loop::from_lowercase("TRACK"), Loop::Off);
    assert_eq!(Loop::from_lowercase("none"), Loop::Off);
}

#[test]
fn text_is_lower_cased_as_unicode_does() {
    // The Kelvin sign lower-cases to an ASCII 'k'.
    assert_eq!(Loop::from("TRAC\u{212A}"), Loop::Track);
    assert_eq!(Loop::from(String::from("trac\u{212A}")), Loop::Track);
    assert_eq!(Loop::from("PLAYLIST"), Loop::Playlist);
    assert_eq!(Playback::from("PLAYING"), Playback::Playing);
    assert_eq!(Playback::from("PAUSED"), Playback::Paused);
}

#[test]
fn interface_bus_names() {
    assert_eq!(Interface::default(), Interface::Base);
    assert_eq!(Interface::Base.bus_name(), "org.mpris.MediaPlayer2");
    assert_eq!(Interface::Player.bus_name(), "org.mpris.MediaPlayer2.Player");
    assert_eq!(Interface::TrackList.bus_name(), "org.mpris.MediaPlayer2.TrackList");
    assert_eq!(Interface::Playlists.bus_name(), "org.mpris.MediaPlayer2.Playlists");
}
