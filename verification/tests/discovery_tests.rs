use spotify_native::discovery::discovered_player_event;
use spotify_native::discovery::search_step;
use spotify_native::discovery::SearchAction;
use spotify_native::discovery::CloseSignal;
use spotify_native::discovery::DiscoverySetup;
use spotify_native::discovery::SpotifyDiscovery;
use spotify_native::error::NotReadyError;

#[test]
fn setup_for_speaker() {
    let setup = DiscoverySetup::new(String::from("Me"), String::from("speaker")).unwrap();
    assert_eq!(setup.device_id, "94563ec383e29aa3743abd9b337b2e084fb199fb");
    assert_eq!(setup.name, "Me");
    assert_eq!(setup.device_type, 4);
}

#[test]
fn setup_ignores_case_of_device_type() {
    let a = DiscoverySetup::new(String::from("Me"), String::from("Speaker")).unwrap();
    let b = DiscoverySetup::new(String::from("Me"), String::from("SPEAKER")).unwrap();
    assert_eq!(a.device_type, 4);
    assert_eq!(b.device_type, 4);
    assert_eq!(a.device_id, b.device_id);
}

#[test]
fn setup_device_type_codes() {
    let cases = [
        ("computer", 1u8),
        ("tablet", 2),
        ("smartphone", 3),
        ("tv", 5),
        ("avr", 6),
        ("stb", 7),
        ("audiodongle", 8),
        ("gameconsole", 9),
        ("castaudio", 10),
        ("castvideo", 11),
        ("automobile", 12),
        ("smartwatch", 13),
        ("chromebook", 14),
        ("carthing", 101),
        ("homething", 103),
    ];
    for (name, code) in cases {
        let s = DiscoverySetup::new(String::from("x"), String::from(name)).unwrap();
        assert_eq!(s.device_type, code);
    }
}

#[test]
fn setup_refuses_unknown_device_type() {
    assert!(DiscoverySetup::new(String::from("Me"), String::from("toaster")).is_none());
    assert!(DiscoverySetup::new(String::from("Me"), String::from("unknown")).is_none());
    assert!(DiscoverySetup::new(String::from("Me"), String::new()).is_none());
}

#[test]
fn device_id_of_unicode_and_empty_names() {
    let k = DiscoverySetup::new(String::from("Küche"), String::from("tv")).unwrap();
    assert_eq!(k.device_id, "a5e64103b6bb519ec07617475dfb2851672b82bc");
    let e = DiscoverySetup::new(String::new(), String::from("tv")).unwrap();
    assert_eq!(e.device_id, "da39a3ee5e6b4b0d3255bfef95601890afd80709");
    assert_eq!(e.device_id.len(), 40);
}

#[test]
fn search_stops_unless_empty() {
    assert_eq!(search_step(CloseSignal::Requested), SearchAction::Stop);
    assert_eq!(search_step(CloseSignal::Disconnected), SearchAction::Stop);
    assert_eq!(search_step(CloseSignal::Empty), SearchAction::ConnectThenReport);
}

#[test]
fn search_handles_credentials_until_closed() {
    let signals = [CloseSignal::Empty, CloseSignal::Empty, CloseSignal::Requested, CloseSignal::Empty];
    let handled = signals
        .iter()
        .take_while(|s| search_step(**s) == SearchAction::ConnectThenReport)
        .count();
    assert_eq!(handled, 2);
}

#[test]
fn discovered_player_event_name() {
    assert_eq!(discovered_player_event(), "discovered_player");
}

#[test]
fn search_refused_before_launch() {
    let d: SpotifyDiscovery<u32, u8, u16> = SpotifyDiscovery::new(1);
    assert_eq!(d.start_discovery_search(), Err(NotReadyError));
}

#[test]
fn failed_launch_is_handed_back() {
    let mut d: SpotifyDiscovery<u32, u8, u16> = SpotifyDiscovery::new(1);
    assert_eq!(d.enable_discovery(Err::<u8, &str>("no network")), Err("no network"));
    assert_eq!(d.start_discovery_search(), Err(NotReadyError));
}

#[test]
fn search_starts_after_launch() {
    let mut d: SpotifyDiscovery<u32, u8, u16> = SpotifyDiscovery::new(1);
    assert_eq!(d.enable_discovery(Ok::<u8, &str>(7)), Ok(()));
    assert_eq!(d.start_discovery_search(), Ok(&7));
    d.search_started(3);
    assert_eq!(d.start_discovery_search(), Ok(&7));
    assert_eq!(d.enable_discovery(Ok::<u8, &str>(8)), Ok(()));
    assert_eq!(d.start_discovery_search(), Ok(&8));
    // A later failure keeps the running service.
    assert_eq!(d.enable_discovery(Err::<u8, &str>("busy")), Err("busy"));
    assert_eq!(d.start_discovery_search(), Ok(&8));
}

#[test]
fn discovered_players_go_to_listener() {
    let d: SpotifyDiscovery<u32, u8, u16> = SpotifyDiscovery::new(5);
    assert_eq!(
        d.emitter().send_event(discovered_player_event()),
        Some((&5, String::from("discovered_player")))
    );
}
