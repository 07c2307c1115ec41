use mpris_client_async::properties::{PLAYBACKSTATUS, RATE};
use mpris_client_async::signals::SEEKED;
use mpris_client_async::streams::{PropertyFeed, SignalFeed};
use mpris_client_async::wire::{Fixed, WireValue};
use mpris_client_async::Playback;

fn status(s: &str) -> Option<WireValue> {
    Some(WireValue::Str(String::from(s)))
}

#[test]
fn a_feed_parses_each_notification() {
    let mut feed = PropertyFeed::new(PLAYBACKSTATUS);
    assert_eq!(feed.push(status("Playing")), Some(Playback::Playing));
    assert_eq!(feed.push(status("Paused")), Some(Playback::Paused));
    assert!(!feed.ended());
    assert_eq!(feed.push(None), None);
    assert!(feed.ended());
    assert_eq!(feed.push(status("Playing")), None);
}

#[test]
fn a_malformed_notification_ends_the_feed() {
    let mut feed = PropertyFeed::new(RATE);
    assert_eq!(feed.push(Some(WireValue::Double(Fixed { millionths: 2_000_000 }))), Some(2_000_000));
    assert_eq!(feed.push(Some(WireValue::Str(String::from("fast")))), None);
    assert!(feed.ended());
    assert_eq!(feed.push(Some(WireValue::Double(Fixed { millionths: 1_000_000 }))), None);

    let mut seeks = SignalFeed::new(SEEKED);
    assert_eq!(seeks.push(Some(WireValue::Int64(5))), Some(5));
    assert_eq!(seeks.push(Some(WireValue::Other)), None);
    assert!(seeks.ended());
    assert_eq!(seeks.push(Some(WireValue::Int64(6))), None);
}

#[test]
fn two_subscriptions_see_the_same_values() {
    let raws = [status("Playing"), status("paused"), status("Stopped"), status("PLAYING")];
    let mut first = PropertyFeed::new(PLAYBACKSTATUS);
    let mut second = PropertyFeed::new(PLAYBACKSTATUS);
    let mut seen_first = Vec::new();
    let mut seen_second = Vec::new();
    for raw in raws {
        seen_first.push(first.push(raw.clone()));
        seen_second.push(second.push(raw));
    }
    assert_eq!(seen_first, seen_second);
    assert_eq!(
        seen_first,
        vec![Some(Playback::Playing), Some(Playback::Paused), Some(Playback::Stopped), Some(Playback::Playing)]
    );
}

#[test]
fn subscriptions_polled_at_different_times_agree() {
    let raws = [status("Playing"), status("Paused"), Some(WireValue::Bool(true)), status("Playing")];
    let mut first = PropertyFeed::new(PLAYBACKSTATUS);
    let mut second = PropertyFeed::new(PLAYBACKSTATUS);
    let mut seen_first = Vec::new();
    for raw in raws.iter() {
        seen_first.push(first.push(raw.clone()));
    }
    let mut seen_second = Vec::new();
    seen_second.push(second.push(raws[0].clone()));
    seen_second.push(second.push(raws[1].clone()));
    seen_second.push(second.push(raws[2].clone()));
    seen_second.push(second.push(raws[3].clone()));
    assert_eq!(seen_first, seen_second);
    assert_eq!(seen_first, vec![Some(Playback::Playing), Some(Playback::Paused), None, None]);
    assert!(first.ended() && second.ended());
}
