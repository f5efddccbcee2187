use spotify_native::playback::AudioKind;
use spotify_native::playback::TrackId;

#[test]
fn track_uri_parses() {
    let id = TrackId::from_uri("spotify:track:4eEDECI99JmE2w7H2VLUag");
    assert_eq!(
        id,
        Some(TrackId { id: 185020671148300203079331636058463706484, audio: AudioKind::Track })
    );
}

#[test]
fn episode_and_other_types() {
    let episode = TrackId::from_uri("spotify:episode:0000000000000000000001");
    assert_eq!(episode, Some(TrackId { id: 1, audio: AudioKind::Podcast }));
    let album = TrackId::from_uri("spotify:album:0000000000000000000001");
    assert_eq!(album, Some(TrackId { id: 1, audio: AudioKind::NonPlayable }));
    let no_type = TrackId::from_uri("spotify::0000000000000000000001");
    assert_eq!(no_type, Some(TrackId { id: 1, audio: AudioKind::NonPlayable }));
}

#[test]
fn malformed_uris_are_refused() {
    assert_eq!(TrackId::from_uri("spotify:track:short"), None);
    assert_eq!(TrackId::from_uri("spotify:track"), None);
    assert_eq!(TrackId::from_uri("potify:track:4eEDECI99JmE2w7H2VLUag"), None);
    assert_eq!(TrackId::from_uri("spotify:track-4eEDECI99JmE2w7H2VLUag"), None);
    assert_eq!(TrackId::from_uri("spotify:track:4eEDECI99JmE2w7H2VLU-g"), None);
    assert_eq!(TrackId::from_uri(""), None);
}

#[test]
fn uri_fits_accepts_ordinary_ids() {
    assert!(TrackId::uri_fits("spotify:track:4eEDECI99JmE2w7H2VLUag"));
    assert!(TrackId::uri_fits("spotify:track:7N42dgm5tFLK9N8MT7fHC7"));
    let max = TrackId::from_uri("spotify:track:7N42dgm5tFLK9N8MT7fHC7");
    assert_eq!(max, Some(TrackId { id: u128::MAX, audio: AudioKind::Track }));
}

#[test]
fn uri_fits_refuses_ids_beyond_128_bits() {
    assert!(!TrackId::uri_fits("spotify:track:7N42dgm5tFLK9N8MT7fHC8"));
    assert!(!TrackId::uri_fits("spotify:episode:ZZZZZZZZZZZZZZZZZZZZZZ"));
}

#[test]
fn uri_fits_accepts_malformed_uris() {
    assert!(TrackId::uri_fits("spotify:track-ZZZZZZZZZZZZZZZZZZZZZZ"));
    assert!(TrackId::uri_fits("spotifx:track:ZZZZZZZZZZZZZZZZZZZZZZ"));
    assert!(TrackId::uri_fits("spotify:track:ZZZZZZZZZZZZZZZZZZZZZ-"));
    assert!(TrackId::uri_fits("short"));
    assert!(TrackId::uri_fits(""));
}
