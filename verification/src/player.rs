//! The player: a session's playback engine, if one is connected, and the
//! emitter that reports its events.

use vstd::prelude::*;
use librespot::playback::player::Player;
use std::sync::Arc;
use crate::error::NotReadyError;
use crate::events::NodeEventEmitter;
use crate::playback::PlayerCommand;
use crate::playback::is_spotify_uri;
use crate::playback::player_load;
use crate::playback::player_pause;
use crate::playback::player_stop;
use crate::playback::sent_commands;
use crate::playback::TrackId;
use crate::playback::track_id_of_uri;
use crate::playback::uri_id_fits;
use crate::playback::base62_value;
use crate::playback::lemma_track_id_number;

verus! {

/// Credentials that authenticate a user with an OAuth access token: the user
/// name and the token's bytes (UTF-8).
#[derive(Debug, Clone)]
pub struct TokenCredentials {
    pub username: String,
    pub auth_data: Vec<u8>,
}

impl TokenCredentials {
    /// The credentials that log `username` in with the access token `oauth`.
    pub fn from_oauth(username: String, oauth: String) -> (r: TokenCredentials)
        ensures
            r.username@ == username@,
            r.auth_data@ == vstd::utf8::encode_utf8(oauth@),
    {
        let auth_data = oauth.as_str().as_bytes_vec();
        TokenCredentials { username, auth_data }
    }
}

/// A command for the given track, started from its beginning, as `play` issues it.
pub open spec fn is_play_of(command: PlayerCommand, uri: Seq<char>) -> bool {
    command matches PlayerCommand::Load { track, start_playing, position_ms, .. }
        && Some(track) == track_id_of_uri(uri) && start_playing && position_ms == 0
}

/// What `play`, `pause` and `stop` answer: `Ok(0)` when the player holds a
/// session, the not-ready error otherwise.
pub open spec fn command_answer(connected: bool) -> Result<u64, NotReadyError> {
    if connected {
        Ok(0)
    } else {
        Err(NotReadyError)
    }
}

/// The outcome of `play(track, wait_for_end)` on a player in state `before`:
/// the answer of [`command_answer`]; the session and the listener are kept;
/// with a session, exactly one command is added, a load of the track that
/// `track` names, started from its beginning; without one, nothing is added.
/// `wait_for_end` takes no part in it.
pub open spec fn play_outcome<L>(
    before: SpotifyPlayer<L>,
    track: Seq<char>,
    wait_for_end: bool,
    r: Result<u64, NotReadyError>,
    after: SpotifyPlayer<L>,
) -> bool {
    &&& r == command_answer(before.is_connected())
    &&& after.is_connected() == before.is_connected()
    &&& after.listener() == before.listener()
    &&& before.is_connected() ==> {
        &&& after.commands().len() == before.commands().len() + 1
        &&& after.commands().drop_last() == before.commands()
        &&& is_play_of(after.commands().last(), track)
    }
    &&& !before.is_connected() ==> after.commands() == before.commands()
}

/// The change that `change_event_listener` makes: a new listener; the session
/// and the commands are kept.
pub open spec fn listener_replaced<L>(before: SpotifyPlayer<L>, after: SpotifyPlayer<L>) -> bool {
    &&& after.is_connected() == before.is_connected()
    &&& after.commands() == before.commands()
    &&& after.listener() is Some
}

/// The change that `play`, `pause` and `stop` make: the session and the
/// listener are kept, and at most one command is added.
pub open spec fn command_issued<L>(before: SpotifyPlayer<L>, after: SpotifyPlayer<L>) -> bool {
    &&& after.is_connected() == before.is_connected()
    &&& after.listener() == before.listener()
    &&& (after.commands() == before.commands() || (after.commands().len()
        == before.commands().len() + 1 && after.commands().drop_last() == before.commands()))
}

/// The change that `attach_player` makes: a session is held; the listener is
/// kept.
pub open spec fn player_attached<L>(before: SpotifyPlayer<L>, after: SpotifyPlayer<L>) -> bool {
    &&& after.is_connected()
    &&& after.listener() == before.listener()
}

/// The change that one call of a player's operations makes.
pub open spec fn player_step<L>(before: SpotifyPlayer<L>, after: SpotifyPlayer<L>) -> bool {
    ||| listener_replaced(before, after)
    ||| command_issued(before, after)
    ||| player_attached(before, after)
}

/// A Spotify player driven from JavaScript.
///
/// It holds the playback engine of its session once one is connected, and the
/// emitter through which its events reach the JavaScript listener (`L`, see
/// [`NodeEventEmitter`]).
pub struct SpotifyPlayer<L> {
    player: Option<Player>,
    emits: Arc<NodeEventEmitter<L>>,
}

impl<L> SpotifyPlayer<L> {
    /// Whether the player holds the playback engine of a session.
    pub closed spec fn is_connected(&self) -> bool {
        self.player is Some
    }

    /// The listener that receives the player's events.
    pub closed spec fn listener(&self) -> Option<L> {
        self.emits@
    }

    /// The commands handed to the playback engine of the session, oldest
    /// first; none while no session is connected.
    pub closed spec fn commands(&self) -> Seq<PlayerCommand> {
        match self.player {
            Some(p) => sent_commands(p),
            None => Seq::empty(),
        }
    }

    /// A player without a session, whose events go to `listener`.
    pub fn new(listener: L) -> (r: Self)
        ensures
            !r.is_connected(),
            r.listener() == Some(listener),
            r.commands() == Seq::<PlayerCommand>::empty(),
    {
        SpotifyPlayer { player: None, emits: Arc::new(NodeEventEmitter::new(listener)) }
    }

    /// A player without a session, whose events go through `emitter`.
    pub fn new_with_emitter(emitter: NodeEventEmitter<L>) -> (r: Self)
        ensures
            !r.is_connected(),
            r.listener() == emitter@,
            r.commands() == Seq::<PlayerCommand>::empty(),
    {
        SpotifyPlayer { player: None, emits: Arc::new(emitter) }
    }

    /// The player of a session that a Spotify client handed over through
    /// discovery: it holds the session's engine and has no listener until one
    /// is set with `change_event_listener`.
    pub fn new_discovered(engine: Player) -> (r: Self)
        ensures
            r.is_connected(),
            r.listener() is None,
            r.commands() == sent_commands(engine),
    {
        let mut player = SpotifyPlayer::new_with_emitter(NodeEventEmitter::new_empty());
        player.attach_player(engine);
        player
    }

    /// The emitter of the player's events, to be shared with the task that
    /// forwards the engine's events.
    pub fn emitter(&self) -> (r: &Arc<NodeEventEmitter<L>>)
        ensures
            r@ == self.listener(),
    {
        &self.emits
    }

    /// Sends the player's future events to `listener`. The session is kept.
    pub fn change_event_listener(&mut self, listener: L)
        ensures
            final(self).listener() == Some(listener),
            final(self).is_connected() == old(self).is_connected(),
            final(self).commands() == old(self).commands(),
            listener_replaced(*old(self), *final(self)),
    {
        self.emits = Arc::new(NodeEventEmitter::new(listener));
    }

    /// Takes the playback engine of a newly connected session; it replaces the
    /// engine of an earlier session, if any.
    pub fn attach_player(&mut self, player: Player)
        ensures
            final(self).is_connected(),
            final(self).commands() == sent_commands(player),
            final(self).listener() == old(self).listener(),
            player_attached(*old(self), *final(self)),
    {
        self.player = Some(player);
    }

    /// Plays the track that the Spotify URI `track` names, from its start.
    ///
    /// Without a session this fails with [`NotReadyError`]; with one, it hands
    /// the engine a load command for the track and answers `Ok(0)`.
    /// `wait_for_end` has no effect. A `track` that is no Spotify URI is
    /// refused by `requires`.
    pub fn play(&mut self, track: &String, wait_for_end: bool) -> (r: Result<u64, NotReadyError>)
        requires
            is_spotify_uri(track@),
            uri_id_fits(track@),
        ensures
            play_outcome(*old(self), track@, wait_for_end, r, *final(self)),
            command_issued(*old(self), *final(self)),
            old(self).is_connected() ==> match final(self).commands().last() {
                PlayerCommand::Load { track: t, start_playing, position_ms, .. } => {
                    &&& start_playing == true
                    &&& position_ms == 0
                    &&& Some(t) == track_id_of_uri(track@)
                    &&& t.id as int == base62_value(track@.subrange(track@.len() - 22, track@.len() as int))
                },
                _ => false,
            },
    {
        proof {
            lemma_track_id_number(track@);
        }
        let id = TrackId::from_uri(track.as_str());
        let track_id = match id {
            Some(t) => t,
            None => {
                assert(false);
                return Err(NotReadyError);
            },
        };
        match self.player.take() {
            Some(mut player) => {
                let _request = player_load(&mut player, track_id, true, 0);
                self.player = Some(player);
                assert(self.commands().drop_last() =~= old(self).commands());
                Ok(0)
            },
            None => Err(NotReadyError),
        }
    }

    /// Stops playback: without a session this fails with [`NotReadyError`];
    /// with one, it hands the engine a stop command and answers `Ok(0)`.
    pub fn stop(&mut self) -> (r: Result<u64, NotReadyError>)
        ensures
            r == command_answer(old(self).is_connected()),
            final(self).is_connected() == old(self).is_connected(),
            final(self).listener() == old(self).listener(),
            old(self).is_connected() ==> final(self).commands() == old(self).commands().push(
                PlayerCommand::Stop,
            ),
            !old(self).is_connected() ==> final(self).commands() == old(self).commands(),
            command_issued(*old(self), *final(self)),
    {
        match self.player.take() {
            Some(mut player) => {
                player_stop(&mut player);
                self.player = Some(player);
                assert(self.commands().drop_last() =~= old(self).commands());
                Ok(0)
            },
            None => Err(NotReadyError),
        }
    }

    /// Pauses playback: without a session this fails with [`NotReadyError`];
    /// with one, it hands the engine a pause command and answers `Ok(0)`.
    pub fn pause(&mut self) -> (r: Result<u64, NotReadyError>)
        ensures
            r == command_answer(old(self).is_connected()),
            final(self).is_connected() == old(self).is_connected(),
            final(self).listener() == old(self).listener(),
            old(self).is_connected() ==> final(self).commands() == old(self).commands().push(
                PlayerCommand::Pause,
            ),
            !old(self).is_connected() ==> final(self).commands() == old(self).commands(),
            command_issued(*old(self), *final(self)),
    {
        match self.player.take() {
            Some(mut player) => {
                player_pause(&mut player);
                self.player = Some(player);
                assert(self.commands().drop_last() =~= old(self).commands());
                Ok(0)
            },
            None => Err(NotReadyError),
        }
    }
}


/// Once connected, a player stays connected whatever operations follow:
/// `play`, `pause` and `stop` keep answering `Ok(0)`.
pub proof fn law_connected_player_stays_connected<L>(states: Seq<SpotifyPlayer<L>>)
    requires
        states.len() > 0,
        states[0].is_connected(),
        forall|i: int| 0 <= i < states.len() - 1 ==> player_step(#[trigger] states[i], states[i + 1]),
    ensures
        forall|i: int| 0 <= i < states.len() ==> #[trigger] states[i].is_connected(),
        command_answer(states.last().is_connected()) == Ok::<u64, NotReadyError>(0),
    decreases states.len(),
{
    if states.len() > 1 {
        let prefix = states.drop_last();
        assert forall|i: int| 0 <= i < prefix.len() - 1 implies player_step(
            #[trigger] prefix[i],
            prefix[i + 1],
        ) by {
            assert(player_step(states[i], states[i + 1]));
        }
        law_connected_player_stays_connected(prefix);
        let n = states.len() - 1;
        assert(prefix[n - 1].is_connected());
        assert(player_step(states[n - 1], states[n]));
        assert forall|i: int| 0 <= i < states.len() implies #[trigger] states[i].is_connected() by {
            if i < n {
                assert(prefix[i].is_connected());
            }
        }
    }
}

/// On a connected player, `play` answers `Ok(0)` and adds exactly one command:
/// a load of the track that the URI names, with its number read from the
/// URI's last 22 characters, that starts playing at once (`start_playing` is
/// `true`) from the beginning (position 0).
pub proof fn law_play_starts_track_from_beginning<L>(
    before: SpotifyPlayer<L>,
    track: Seq<char>,
    wait_for_end: bool,
    r: Result<u64, NotReadyError>,
    after: SpotifyPlayer<L>,
)
    requires
        is_spotify_uri(track),
        uri_id_fits(track),
        play_outcome(before, track, wait_for_end, r, after),
        before.is_connected(),
    ensures
        r == Ok::<u64, NotReadyError>(0),
        after.commands().len() == before.commands().len() + 1,
        after.commands().drop_last() == before.commands(),
        match after.commands().last() {
            PlayerCommand::Load { track: t, start_playing, position_ms, .. } => {
                &&& start_playing == true
                &&& position_ms == 0
                &&& Some(t) == track_id_of_uri(track)
                &&& t.id as int == base62_value(track.subrange(track.len() - 22, track.len() as int))
            },
            _ => false,
        },
{
    lemma_track_id_number(track);
}

/// `play` ignores `wait_for_end`: the outcomes it allows are the same for both
/// values, so two calls on the same state with the same track, one waiting and
/// one not, give the same answer, keep the same session and listener, and add
/// the same load of the same track.
pub proof fn law_play_ignores_wait_for_end<L>(
    before: SpotifyPlayer<L>,
    track: Seq<char>,
    r1: Result<u64, NotReadyError>,
    after1: SpotifyPlayer<L>,
    r2: Result<u64, NotReadyError>,
    after2: SpotifyPlayer<L>,
)
    requires
        play_outcome(before, track, true, r1, after1),
        play_outcome(before, track, false, r2, after2),
    ensures
        forall|r: Result<u64, NotReadyError>, after: SpotifyPlayer<L>|
            play_outcome(before, track, true, r, after) == play_outcome(
                before,
                track,
                false,
                r,
                after,
            ),
        r1 == r2,
        after1.is_connected() == after2.is_connected(),
        after1.listener() == after2.listener(),
        after1.commands().len() == after2.commands().len(),
        before.is_connected() ==> {
            &&& after1.commands().drop_last() == after2.commands().drop_last()
            &&& is_play_of(after1.commands().last(), track)
            &&& is_play_of(after2.commands().last(), track)
        },
        !before.is_connected() ==> after1.commands() == after2.commands(),
{
}

/// `play`, `pause` and `stop` succeed, answering `Ok(0)`, exactly when the
/// player holds a session; otherwise they fail with [`NotReadyError`].
pub proof fn law_command_answer(connected: bool)
    ensures
        command_answer(connected) is Ok <==> connected,
        command_answer(connected) matches Ok(v) ==> v == 0,
        command_answer(connected) matches Err(e) ==> e == NotReadyError,
{
}

/// A player without a session has handed no command to any engine.
pub proof fn law_no_commands_without_session<L>(player: SpotifyPlayer<L>)
    requires
        !player.is_connected(),
    ensures
        player.commands() == Seq::<PlayerCommand>::empty(),
{
}

} // verus!
