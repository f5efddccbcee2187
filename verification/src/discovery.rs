//! Announcing this process as a Spotify Connect device: the device's identity,
//! the state of the announcement, and when the search for listeners stops.

use vstd::prelude::*;
use std::sync::Arc;
use crate::device::device_type_code;
use crate::device::device_type_code_of;
use crate::device::hex_encode;
use crate::device::hex_lower;
use crate::device::hex_lower_digits;
use crate::device::lemma_hex_lower_shape;
use crate::device::sha1_digest;
use crate::device::sha1_of;
use crate::error::NotReadyError;
use crate::events::NodeEventEmitter;
use crate::player::SpotifyPlayer;

verus! {

/// The id under which a device named `name` is announced: the lower-case hex
/// SHA-1 digest of the name's UTF-8 bytes.
pub open spec fn device_id_of(name: Seq<char>) -> Seq<char> {
    hex_lower(sha1_digest(vstd::utf8::encode_utf8(name)))
}

/// The device id hashes the whole name: it is the lower-case hex SHA-1 digest
/// of all the name's UTF-8 bytes, and names that differ are hashed as
/// different inputs (their byte strings differ).
pub proof fn law_device_id_hashes_whole_name(name: Seq<char>, other: Seq<char>)
    ensures
        device_id_of(name) == hex_lower(sha1_digest(vstd::utf8::encode_utf8(name))),
        vstd::utf8::decode_utf8(vstd::utf8::encode_utf8(name)) == name,
        name != other ==> vstd::utf8::encode_utf8(name) != vstd::utf8::encode_utf8(other),
{
    vstd::utf8::encode_utf8_decode_utf8(name);
    vstd::utf8::encode_utf8_decode_utf8(other);
}

/// What the discovery service is launched with.
#[derive(Debug, Clone)]
pub struct DiscoverySetup {
    /// The device id, see [`device_id_of`].
    pub device_id: String,
    /// The name shown to Spotify clients.
    pub name: String,
    /// The device type's code, as librespot numbers its `DeviceType`.
    pub device_type: u8,
}

impl DiscoverySetup {
    /// The setup for a device named `name` of the type named `device_type`, or
    /// `None` when librespot knows no device type of that name.
    pub fn new(name: String, device_type: String) -> (r: Option<DiscoverySetup>)
        ensures
            r is Some <==> device_type_code_of(device_type@) is Some,
            r matches Some(s) ==> {
                &&& Some(s.device_type) == device_type_code_of(device_type@)
                &&& s.name@ == name@
                &&& s.device_id@ == device_id_of(name@)
                &&& s.device_id@ == hex_lower(sha1_digest(vstd::utf8::encode_utf8(name@)))
                &&& s.device_id@.len() == 40
                &&& forall|i: int|
                    0 <= i < 40 ==> hex_lower_digits().contains(#[trigger] s.device_id@[i])
            },
    {
        let code = match device_type_code(device_type.as_str()) {
            Some(c) => c,
            None => return None,
        };
        let digest = sha1_of(name.as_str().as_bytes());
        let device_id = hex_encode(digest.as_slice());
        proof {
            lemma_hex_lower_shape(digest@);
        }
        Some(DiscoverySetup { device_id, name, device_type: code })
    }
}

/// What the discovery search finds when it looks at its close channel.
#[derive(Debug, Clone, Copy, PartialEq, Eq)]
pub enum CloseSignal {
    /// A close request was sent.
    Requested,
    /// Nothing was sent.
    Empty,
    /// The closing side is gone.
    Disconnected,
}

/// What the discovery search does with the credentials that have just
/// arrived, after looking at its close channel.
#[derive(Debug, Clone, Copy, PartialEq, Eq)]
pub enum SearchAction {
    /// End the search; the credentials are dropped.
    Stop,
    /// Connect a new player with the credentials, then report it.
    ConnectThenReport,
}

/// The search goes on only while nothing was sent on the close channel and
/// its sending side is still there.
pub open spec fn search_action(signal: CloseSignal) -> SearchAction {
    if signal is Empty {
        SearchAction::ConnectThenReport
    } else {
        SearchAction::Stop
    }
}

/// What the search does with newly arrived credentials, as
/// [`search_action`] says.
pub fn search_step(signal: CloseSignal) -> (r: SearchAction)
    ensures
        r == search_action(signal),
        signal == CloseSignal::Empty ==> r == SearchAction::ConnectThenReport,
        signal == CloseSignal::Requested ==> r == SearchAction::Stop,
        signal == CloseSignal::Disconnected ==> r == SearchAction::Stop,
{
    match signal {
        CloseSignal::Empty => SearchAction::ConnectThenReport,
        CloseSignal::Requested | CloseSignal::Disconnected => SearchAction::Stop,
    }
}

/// The number of credentials a search handles, given what it sees on its
/// close channel as each one arrives: those before the first signal that ends
/// it.
pub open spec fn handled_count(signals: Seq<CloseSignal>) -> nat
    decreases signals.len(),
{
    if signals.len() == 0 {
        0
    } else if signals[0] is Empty {
        1 + handled_count(signals.drop_first())
    } else {
        0
    }
}

/// The search handles the arriving credentials one at a time, in order: each
/// of the first `handled_count` gives a player that is connected and then
/// reported, and the next one ends the search.
pub proof fn law_search_handles_credentials_in_order(signals: Seq<CloseSignal>)
    ensures
        handled_count(signals) <= signals.len(),
        forall|i: int|
            0 <= i < handled_count(signals) ==> search_action(#[trigger] signals[i])
                == SearchAction::ConnectThenReport,
        handled_count(signals) < signals.len() ==> search_action(signals[handled_count(signals) as int])
            == SearchAction::Stop,
    decreases signals.len(),
{
    if signals.len() > 0 && signals[0] is Empty {
        let rest = signals.drop_first();
        law_search_handles_credentials_in_order(rest);
        assert forall|i: int|
            0 <= i < handled_count(signals) implies search_action(#[trigger] signals[i])
                == SearchAction::ConnectThenReport by {
            if i > 0 {
                assert(signals[i] == rest[i - 1]);
            }
        }
        if handled_count(signals) < signals.len() {
            assert(signals[handled_count(signals) as int] == rest[handled_count(rest) as int]);
        }
    }
}

/// `"discovered_player"`, the name of the event that hands a player connected
/// through discovery to the listener.
pub open spec fn discovered_player() -> Seq<char> {
    "discovered_player"@
}

/// The name of the event that reports a player connected through discovery.
pub fn discovered_player_event() -> (r: String)
    ensures
        r@ == discovered_player(),
        r@ == "discovered_player"@,
{
    proof {
        broadcast use vstd::string::to_string_from_display_ensures_for_str;
    }
    "discovered_player".to_string()
}

/// Decides the report of a player connected through discovery: the listener
/// and `discovered_player`, or nothing when `emits` has no listener. Only a
/// connected player is reported.
pub fn report_discovered<'a, L, M>(emits: &'a NodeEventEmitter<L>, player: &SpotifyPlayer<M>) -> (r:
    Option<(&'a L, String)>)
    requires
        player.is_connected(),
    ensures
        r is Some <==> emits@ is Some,
        r matches Some(d) ==> Some(*d.0) == emits@ && d.1@ == discovered_player(),
{
    emits.send_event(discovered_player_event())
}

/// What `start_discovery_search` answers for a discovery whose launched
/// service is `service`.
pub open spec fn search_answer<D>(service: Option<D>) -> Result<D, NotReadyError> {
    match service {
        Some(d) => Ok(d),
        None => Err(NotReadyError),
    }
}

/// The announcement of this process as a Spotify Connect device.
///
/// `L` reaches the JavaScript listener (see [`NodeEventEmitter`]), `D` is the
/// launched discovery service and `C` the sending side of the channel that
/// closes the running search; the host chooses all three.
pub struct SpotifyDiscovery<L, D, C> {
    emits: Arc<NodeEventEmitter<L>>,
    discovery: Option<D>,
    discovery_close: Option<C>,
}

impl<L, D, C> SpotifyDiscovery<L, D, C> {
    /// The listener that receives the discovered players.
    pub closed spec fn listener(&self) -> Option<L> {
        self.emits@
    }

    /// The launched discovery service, if any.
    pub closed spec fn service(&self) -> Option<D> {
        self.discovery
    }

    /// The handle that closes the running search, if one was started.
    pub closed spec fn close_handle(&self) -> Option<C> {
        self.discovery_close
    }

    /// A discovery that is not launched, whose players go to `listener`.
    pub fn new(listener: L) -> (r: Self)
        ensures
            r.listener() == Some(listener),
            r.service() is None,
            r.close_handle() is None,
    {
        SpotifyDiscovery {
            emits: Arc::new(NodeEventEmitter::new(listener)),
            discovery: None,
            discovery_close: None,
        }
    }

    /// The emitter of the discovered players, to be shared with the search.
    pub fn emitter(&self) -> (r: &Arc<NodeEventEmitter<L>>)
        ensures
            r@ == self.listener(),
    {
        &self.emits
    }

    /// Takes the outcome of launching the discovery service: a launched
    /// service replaces the earlier one, and a failure is handed back with
    /// the discovery left as it was.
    pub fn enable_discovery<E>(&mut self, launched: Result<D, E>) -> (r: Result<(), E>)
        ensures
            launched matches Ok(d) ==> {
                &&& r is Ok
                &&& final(self).service() == Some(d)
                &&& final(self).close_handle() == old(self).close_handle()
            },
            launched matches Err(e) ==> {
                &&& r == Err::<(), E>(e)
                &&& final(self).service() == old(self).service()
                &&& final(self).close_handle() == old(self).close_handle()
            },
            final(self).listener() == old(self).listener(),
    {
        match launched {
            Ok(d) => {
                self.discovery = Some(d);
                Ok(())
            },
            Err(e) => Err(e),
        }
    }

    /// The service to search with: it fails with [`NotReadyError`] while no
    /// service is launched.
    pub fn start_discovery_search(&self) -> (r: Result<&D, NotReadyError>)
        ensures
            r is Ok <==> self.service() is Some,
            r matches Ok(d) ==> search_answer(self.service()) == Ok::<D, NotReadyError>(*d),
            r matches Err(e) ==> search_answer(self.service()) == Err::<D, NotReadyError>(e),
    {
        match &self.discovery {
            Some(d) => Ok(d),
            None => Err(NotReadyError),
        }
    }

    /// Records the handle that closes the search just started; dropping the
    /// earlier handle lets the earlier search stop.
    pub fn search_started(&mut self, close: C)
        ensures
            final(self).close_handle() == Some(close),
            final(self).service() == old(self).service(),
            final(self).listener() == old(self).listener(),
    {
        self.discovery_close = Some(close);
    }
}


/// The search can start exactly when a discovery service is launched, and it
/// searches with that service; in particular it always starts right after a
/// successful `enable_discovery`.
pub proof fn law_search_follows_launch<L, D, C>(discovery: SpotifyDiscovery<L, D, C>)
    ensures
        search_answer(discovery.service()) is Ok <==> discovery.service() is Some,
        discovery.service() matches Some(d) ==> search_answer(discovery.service()) == Ok::<
            D,
            NotReadyError,
        >(d),
        discovery.service() is None ==> search_answer(discovery.service()) == Err::<
            D,
            NotReadyError,
        >(NotReadyError),
{
}

} // verus!
