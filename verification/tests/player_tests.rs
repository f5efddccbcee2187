use spotify_native::error::NotReadyError;
use spotify_native::events::NodeEventEmitter;
use spotify_native::player::SpotifyPlayer;
use spotify_native::player::TokenCredentials;

const TRACK: &str = "spotify:track:4eEDECI99JmE2w7H2VLUag";

#[test]
fn not_ready_error_message() {
    assert_eq!(NotReadyError.to_string(), "Spotify not ready");
}

#[test]
fn fresh_player_refuses_play() {
    let mut player: SpotifyPlayer<u32> = SpotifyPlayer::new(1);
    assert_eq!(player.play(&String::from(TRACK), false), Err(NotReadyError));
    assert_eq!(player.play(&String::from(TRACK), true), Err(NotReadyError));
}

#[test]
fn fresh_player_refuses_stop_and_pause() {
    let mut player: SpotifyPlayer<u32> = SpotifyPlayer::new(1);
    assert_eq!(player.stop(), Err(NotReadyError));
    assert_eq!(player.pause(), Err(NotReadyError));
    // Refusals leave the player as it was: it still reports to the same listener.
    let delivered = player.emitter().send_event(String::from("track_started"));
    assert_eq!(delivered, Some((&1, String::from("track_started"))));
}

#[test]
fn player_reports_to_its_listener() {
    let player: SpotifyPlayer<String> = SpotifyPlayer::new(String::from("first"));
    let delivered = player.emitter().send_event(String::from("track_changed"));
    assert_eq!(delivered, Some((&String::from("first"), String::from("track_changed"))));
}

#[test]
fn change_event_listener_redirects_events() {
    let mut player: SpotifyPlayer<u32> = SpotifyPlayer::new(1);
    player.change_event_listener(2);
    let delivered = player.emitter().send_event(String::from("track_finished"));
    assert_eq!(delivered, Some((&2, String::from("track_finished"))));
    // The session state is kept: still not ready.
    assert_eq!(player.pause(), Err(NotReadyError));
}

#[test]
fn earlier_emitter_keeps_old_listener() {
    let mut player: SpotifyPlayer<u32> = SpotifyPlayer::new(1);
    let earlier = std::sync::Arc::clone(player.emitter());
    player.change_event_listener(2);
    assert_eq!(earlier.send_event(String::from("x")), Some((&1, String::from("x"))));
    assert_eq!(player.emitter().send_event(String::from("x")), Some((&2, String::from("x"))));
}

#[test]
fn player_with_empty_emitter_is_silent() {
    let mut player: SpotifyPlayer<u32> = SpotifyPlayer::new_with_emitter(NodeEventEmitter::new_empty());
    assert_eq!(player.emitter().send_event(String::from("track_started")), None);
    assert_eq!(player.stop(), Err(NotReadyError));
}

#[test]
fn player_with_given_emitter_uses_it() {
    let player: SpotifyPlayer<u32> = SpotifyPlayer::new_with_emitter(NodeEventEmitter::new(9));
    assert_eq!(player.emitter().send_event(String::from("e")), Some((&9, String::from("e"))));
}

#[test]
fn oauth_credentials_carry_token_bytes() {
    let creds = TokenCredentials::from_oauth(String::from("alice"), String::from("tok-123"));
    assert_eq!(creds.username, "alice");
    assert_eq!(creds.auth_data, b"tok-123".to_vec());
}

#[test]
fn oauth_credentials_encode_utf8() {
    let creds = TokenCredentials::from_oauth(String::from("bob"), String::from("é"));
    assert_eq!(creds.auth_data, vec![0xc3, 0xa9]);
    let empty = TokenCredentials::from_oauth(String::new(), String::new());
    assert_eq!(empty.username, "");
    assert!(empty.auth_data.is_empty());
}

#[test]
fn play_of_other_track_kinds_is_refused_without_session() {
    let mut player: SpotifyPlayer<u32> = SpotifyPlayer::new(1);
    let episode = String::from("spotify:episode:0000000000000000000001");
    assert_eq!(player.play(&episode, false), Err(NotReadyError));
}
