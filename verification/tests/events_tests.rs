use spotify_native::events::EventForwarder;
use spotify_native::events::event_name;
use spotify_native::events::ConnectMode;
use spotify_native::events::NodeEventEmitter;
use spotify_native::events::PlayerEventKind;

#[test]
fn empty_emitter_drops_events() {
    let emitter: NodeEventEmitter<u32> = NodeEventEmitter::new_empty();
    assert_eq!(emitter.send_event(String::from("track_started")), None);
}

#[test]
fn emitter_delivers_to_listener() {
    let emitter = NodeEventEmitter::new(42u32);
    assert_eq!(
        emitter.send_event(String::from("discovered_player")),
        Some((&42, String::from("discovered_player")))
    );
}

fn name(mode: ConnectMode, kind: PlayerEventKind) -> Option<String> {
    event_name(mode, kind)
}

#[test]
fn oauth_event_names() {
    let m = ConnectMode::OAuth;
    assert_eq!(name(m, PlayerEventKind::Started).as_deref(), Some("track_started"));
    assert_eq!(name(m, PlayerEventKind::Changed).as_deref(), Some("track_changed"));
    assert_eq!(name(m, PlayerEventKind::EndOfTrack).as_deref(), Some("track_finished"));
    assert_eq!(name(m, PlayerEventKind::Stopped).as_deref(), Some("track_stopped"));
}

#[test]
fn discovered_event_names() {
    let m = ConnectMode::Discovered;
    assert_eq!(name(m, PlayerEventKind::Started).as_deref(), Some("track_started"));
    assert_eq!(name(m, PlayerEventKind::Changed).as_deref(), Some("track_changed"));
    assert_eq!(name(m, PlayerEventKind::EndOfTrack).as_deref(), Some("track_finished"));
    assert_eq!(name(m, PlayerEventKind::Stopped).as_deref(), Some("track_finished"));
}

#[test]
fn other_events_are_not_reported() {
    let others = [
        PlayerEventKind::Loading,
        PlayerEventKind::Preloading,
        PlayerEventKind::Playing,
        PlayerEventKind::Paused,
        PlayerEventKind::TimeToPreloadNextTrack,
        PlayerEventKind::Unavailable,
        PlayerEventKind::VolumeSet,
    ];
    for kind in others {
        assert_eq!(name(ConnectMode::OAuth, kind), None);
        assert_eq!(name(ConnectMode::Discovered, kind), None);
    }
}

#[test]
fn oauth_names_are_distinct() {
    let kinds = [
        PlayerEventKind::Started,
        PlayerEventKind::Changed,
        PlayerEventKind::EndOfTrack,
        PlayerEventKind::Stopped,
    ];
    for a in kinds {
        for b in kinds {
            if a != b {
                assert_ne!(name(ConnectMode::OAuth, a), name(ConnectMode::OAuth, b));
            }
        }
    }
}

#[test]
fn report_player_event_to_listener() {
    let emitter = NodeEventEmitter::new(3u32);
    assert_eq!(
        emitter.report_player_event(ConnectMode::OAuth, PlayerEventKind::Stopped),
        Some((&3, String::from("track_stopped")))
    );
    assert_eq!(
        emitter.report_player_event(ConnectMode::Discovered, PlayerEventKind::Stopped),
        Some((&3, String::from("track_finished")))
    );
    assert_eq!(emitter.report_player_event(ConnectMode::OAuth, PlayerEventKind::Playing), None);
}

#[test]
fn report_player_event_without_listener() {
    let emitter: NodeEventEmitter<u32> = NodeEventEmitter::new_empty();
    assert_eq!(emitter.report_player_event(ConnectMode::OAuth, PlayerEventKind::Started), None);
}

#[test]
fn forwarder_reports_in_event_order() {
    let mut forwarder = EventForwarder::new(std::sync::Arc::new(NodeEventEmitter::new(4u32)), ConnectMode::OAuth);
    let run = [
        PlayerEventKind::Started,
        PlayerEventKind::Playing,
        PlayerEventKind::Changed,
        PlayerEventKind::Paused,
        PlayerEventKind::EndOfTrack,
        PlayerEventKind::Stopped,
    ];
    let mut delivered = Vec::new();
    for kind in run {
        if let Some((listener, name)) = forwarder.forward(kind) {
            assert_eq!(*listener, 4);
            delivered.push(name);
        }
    }
    assert_eq!(delivered, vec!["track_started", "track_changed", "track_finished", "track_stopped"]);
}

#[test]
fn forwarder_of_discovered_session() {
    let mut forwarder = EventForwarder::new(std::sync::Arc::new(NodeEventEmitter::new(1u32)), ConnectMode::Discovered);
    assert_eq!(forwarder.forward(PlayerEventKind::Stopped), Some((&1, String::from("track_finished"))));
    let mut silent: EventForwarder<u32> =
        EventForwarder::new(std::sync::Arc::new(NodeEventEmitter::new_empty()), ConnectMode::Discovered);
    assert_eq!(silent.forward(PlayerEventKind::Started), None);
}
