use mpris_client_async::error::Error;
use mpris_client_async::properties::{
    parse, serialize, serialize_controlled, ControlWritableProperty, Property, WritableProperty,
    CANCONTROL, CANGONEXT, CANGOPREVIOUS, CANPAUSE, CANPLAY, CANQUIT, CANRAISE, CANSEEK,
    CANSETFULLSCREEN, DESKTOPENTRY, FULLSCREEN, HASTRACKLIST, IDENTITY, LOOPSTATUS, MAXIMUMRATE,
    MINIMUMRATE, PLAYBACKSTATUS, POSITION, RATE, SHUFFLE, SUPPORTEDMIMES, SUPPORTEDURIS, VOLUME,
};
use mpris_client_async::signals::{parse_signal, Signal, SEEKED};
use mpris_client_async::wire::{Fixed, WireValue};
use mpris_client_async::{Interface, Loop, Playback};

#[test]
fn names_and_interfaces() {
    assert_eq!(CANQUIT.name(), "CanQuit");
    assert_eq!(CANQUIT.interface(), Interface::Base);
    assert_eq!(CANCONTROL.name(), "CanControl");
    assert_eq!(CANCONTROL.interface(), Interface::Player);
    assert_eq!(FULLSCREEN.interface(), Interface::Base);
    assert_eq!(CANSETFULLSCREEN.name(), "CanSetFullscreen");
    assert_eq!(CANRAISE.name(), "CanRaise");
    assert_eq!(HASTRACKLIST.name(), "HasTrackList");
    assert_eq!(IDENTITY.name(), "Identity");
    assert_eq!(DESKTOPENTRY.name(), "DesktopEntry");
    assert_eq!(SUPPORTEDURIS.name(), "SupportedUriSchemes");
    assert_eq!(SUPPORTEDMIMES.name(), "SupportedMimeTypes");
    assert_eq!(PLAYBACKSTATUS.name(), "PlaybackStatus");
    assert_eq!(PLAYBACKSTATUS.interface(), Interface::Player);
    assert_eq!(LOOPSTATUS.name(), "LoopStatus");
    assert_eq!(RATE.name(), "Rate");
    assert_eq!(MINIMUMRATE.name(), "MinimumRate");
    assert_eq!(MAXIMUMRATE.name(), "MaximumRate");
    assert_eq!(POSITION.name(), "Position");
    assert_eq!(SHUFFLE.name(), "Shuffle");
    assert_eq!(VOLUME.name(), "Volume");
    assert_eq!(VOLUME.interface(), Interface::Player);
    assert_eq!(CANGONEXT.name(), "CanGoNext");
    assert_eq!(CANGOPREVIOUS.name(), "CanGoPrevious");
    assert_eq!(CANPLAY.name(), "CanPlay");
    assert_eq!(CANPAUSE.name(), "CanPause");
    assert_eq!(CANSEEK.name(), "CanSeek");
    assert_eq!(CANSEEK.interface(), Interface::Player);
    assert_eq!(SEEKED.name(), "Seeked");
    assert_eq!(SEEKED.interface(), Interface::Player);
}

#[test]
fn fields_parse_their_own_shape() {
    assert_eq!(parse(&CANQUIT, WireValue::Bool(true)), Ok(true));
    assert_eq!(parse(&IDENTITY, WireValue::Str(String::from("VLC media player"))), Ok(String::from("VLC media player")));
    assert_eq!(
        parse(&SUPPORTEDURIS, WireValue::StrList(vec![String::from("file"), String::from("http")])),
        Ok(vec![String::from("file"), String::from("http")])
    );
    assert_eq!(parse(&PLAYBACKSTATUS, WireValue::Str(String::from("Paused"))), Ok(Playback::Paused));
    assert_eq!(parse(&PLAYBACKSTATUS, WireValue::Str(String::from("Buffering"))), Ok(Playback::Stopped));
    assert_eq!(parse(&LOOPSTATUS, WireValue::Str(String::from("playlist"))), Ok(Loop::Playlist));
    assert_eq!(parse(&RATE, WireValue::Double(Fixed { millionths: 1_500_000 })), Ok(1_500_000));
    assert_eq!(parse(&POSITION, WireValue::Int64(42_000_000)), Ok(42_000_000u64));
    assert_eq!(parse(&POSITION, WireValue::Int64(-1)), Ok(u64::MAX));
    assert_eq!(parse_signal(&SEEKED, WireValue::Int64(30_000_000)), Ok(30_000_000u64));
}

#[test]
fn a_shape_mismatch_is_a_parse_error() {
    assert_eq!(parse(&CANQUIT, WireValue::Str(String::from("true"))), Err(Error::Parse));
    assert_eq!(parse(&IDENTITY, WireValue::Bool(false)), Err(Error::Parse));
    assert_eq!(parse(&SUPPORTEDMIMES, WireValue::Str(String::from("audio/mpeg"))), Err(Error::Parse));
    assert_eq!(parse(&RATE, WireValue::Int64(1)), Err(Error::Parse));
    assert_eq!(parse(&POSITION, WireValue::Double(Fixed { millionths: 1 })), Err(Error::Parse));
    assert_eq!(parse(&PLAYBACKSTATUS, WireValue::Other), Err(Error::Parse));
    assert_eq!(parse_signal(&SEEKED, WireValue::Bool(true)), Err(Error::Parse));
}

#[test]
fn writable_fields_round_trip() {
    for v in [true, false] {
        assert_eq!(parse(&FULLSCREEN, serialize(&FULLSCREEN, v)), Ok(v));
        assert_eq!(parse(&SHUFFLE, serialize_controlled(&SHUFFLE, v)), Ok(v));
    }
    for l in [Loop::Off, Loop::Track, Loop::Playlist] {
        assert_eq!(parse(&LOOPSTATUS, serialize_controlled(&LOOPSTATUS, l)), Ok(l));
    }
    for r in [1_000_000i64, -500_000, i64::MAX, i64::MIN, 1] {
        assert_eq!(parse(&RATE, serialize_controlled(&RATE, r)), Ok(r));
        assert_eq!(parse(&VOLUME, serialize_controlled(&VOLUME, r)), Ok(r));
    }
}

#[test]
fn written_forms() {
    assert_eq!(serialize_controlled(&LOOPSTATUS, Loop::Off), WireValue::Str(String::from("None")));
    assert_eq!(LOOPSTATUS.from_output(Loop::Track), String::from("Track"));
    assert_eq!(serialize_controlled(&RATE, 250_000), WireValue::Double(Fixed { millionths: 250_000 }));
    assert_eq!(RATE.from_output(3), Fixed { millionths: 3 });
    assert_eq!(serialize(&FULLSCREEN, true), WireValue::Bool(true));
    assert_eq!(FULLSCREEN.from_output(false), false);
}
