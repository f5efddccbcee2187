//! Events reported to JavaScript: who receives them and under which names.

use vstd::prelude::*;
use std::sync::Arc;

verus! {

/// The sender of events to a JavaScript listener.
///
/// `L` is whatever the host needs to reach the listener (for Node.js, the
/// rooted callback and the channel to its event loop). The emitter never looks
/// inside it; it decides whether an event is delivered and to whom.
pub struct NodeEventEmitter<L> {
    listener: Option<L>,
}

impl<L> View for NodeEventEmitter<L> {
    /// The listener that receives the events, if any.
    type V = Option<L>;

    closed spec fn view(&self) -> Option<L> {
        self.listener
    }
}

/// What [`NodeEventEmitter::send_event`] hands back for an event named `event`
/// by an emitter whose listener is `listener`.
pub open spec fn delivery<L>(listener: Option<L>, event: Seq<char>) -> Option<(L, Seq<char>)> {
    match listener {
        Some(l) => Some((l, event)),
        None => None,
    }
}

impl<L> NodeEventEmitter<L> {
    /// An emitter whose events go to `listener`.
    pub fn new(listener: L) -> (r: Self)
        ensures
            r@ == Some(listener),
    {
        NodeEventEmitter { listener: Some(listener) }
    }

    /// An emitter with no listener: every event it is given is dropped.
    pub fn new_empty() -> (r: Self)
        ensures
            r@ is None,
    {
        NodeEventEmitter { listener: None }
    }

    /// Decides the delivery of an event named `event`: the listener that is to
    /// receive it, with the name, or nothing when the emitter has no listener.
    /// The host performs the delivery.
    pub fn send_event(&self, event: String) -> (r: Option<(&L, String)>)
        ensures
            r is Some <==> self@ is Some,
            r matches Some(d) ==> delivery(self@, event@) == Some((*d.0, d.1@)),
    {
        match &self.listener {
            Some(listener) => Some((listener, event)),
            None => None,
        }
    }
}

/// The events of librespot's player, without their data.
#[derive(Debug, Clone, Copy, PartialEq, Eq)]
pub enum PlayerEventKind {
    Stopped,
    Started,
    Changed,
    Loading,
    Preloading,
    Playing,
    Paused,
    TimeToPreloadNextTrack,
    EndOfTrack,
    Unavailable,
    VolumeSet,
}

/// How the player's session was opened: with a user's OAuth token, or with
/// credentials that a Spotify client handed over through discovery.
#[derive(Debug, Clone, Copy, PartialEq, Eq)]
pub enum ConnectMode {
    OAuth,
    Discovered,
}

pub open spec fn track_started() -> Seq<char> {
    "track_started"@
}

pub open spec fn track_changed() -> Seq<char> {
    "track_changed"@
}

pub open spec fn track_finished() -> Seq<char> {
    "track_finished"@
}

pub open spec fn track_stopped() -> Seq<char> {
    "track_stopped"@
}

/// The name under which a player event is reported to the listener, or `None`
/// for the events that are not reported.
///
/// After an OAuth connection a stop is reported as `track_stopped`; after a
/// discovered connection it is reported like the end of a track.
pub open spec fn reported_name(mode: ConnectMode, kind: PlayerEventKind) -> Option<Seq<char>> {
    match kind {
        PlayerEventKind::Started => Some(track_started()),
        PlayerEventKind::Changed => Some(track_changed()),
        PlayerEventKind::EndOfTrack => Some(track_finished()),
        PlayerEventKind::Stopped => match mode {
            ConnectMode::OAuth => Some(track_stopped()),
            ConnectMode::Discovered => Some(track_finished()),
        },
        _ => None,
    }
}

/// The name under which a player event is reported, as [`reported_name`] says.
pub fn event_name(mode: ConnectMode, kind: PlayerEventKind) -> (r: Option<String>)
    ensures
        r is Some <==> reported_name(mode, kind) is Some,
        r matches Some(name) ==> reported_name(mode, kind) == Some(name@),
        (kind == PlayerEventKind::Started || kind == PlayerEventKind::Changed || kind
            == PlayerEventKind::EndOfTrack || kind == PlayerEventKind::Stopped) <==> r is Some,
        r matches Some(name) ==> (kind == PlayerEventKind::Started ==> name@ == "track_started"@),
        r matches Some(name) ==> (kind == PlayerEventKind::Changed ==> name@ == "track_changed"@),
        r matches Some(name) ==> (kind == PlayerEventKind::EndOfTrack ==> name@
            == "track_finished"@),
        r matches Some(name) ==> (kind == PlayerEventKind::Stopped && mode == ConnectMode::OAuth
            ==> name@ == "track_stopped"@),
        r matches Some(name) ==> (kind == PlayerEventKind::Stopped && mode
            == ConnectMode::Discovered ==> name@ == "track_finished"@),
{
    proof {
        broadcast use vstd::string::to_string_from_display_ensures_for_str;
    }
    match kind {
        PlayerEventKind::Started => Some("track_started".to_string()),
        PlayerEventKind::Changed => Some("track_changed".to_string()),
        PlayerEventKind::EndOfTrack => Some("track_finished".to_string()),
        PlayerEventKind::Stopped => match mode {
            ConnectMode::OAuth => Some("track_stopped".to_string()),
            ConnectMode::Discovered => Some("track_finished".to_string()),
        },
        _ => None,
    }
}


impl<L> NodeEventEmitter<L> {
    /// Decides the report of a player event, as the task that forwards a
    /// session's events does: the listener and the event's name when the event
    /// is reported in `mode` and the emitter has a listener, nothing otherwise.
    pub fn report_player_event(&self, mode: ConnectMode, kind: PlayerEventKind) -> (r: Option<
        (&L, String),
    >)
        ensures
            r is Some <==> (self@ is Some && reported_name(mode, kind) is Some),
            r matches Some(d) ==> {
                &&& Some(*d.0) == self@
                &&& Some(d.1@) == reported_name(mode, kind)
            },
    {
        match event_name(mode, kind) {
            Some(name) => self.send_event(name),
            None => None,
        }
    }
}

/// The names under which a run of player events is reported, in the order of
/// the events: one name for each reported event, none for the others.
pub open spec fn reports_of(mode: ConnectMode, kinds: Seq<PlayerEventKind>) -> Seq<Seq<char>>
    decreases kinds.len(),
{
    if kinds.len() == 0 {
        Seq::empty()
    } else {
        let earlier = reports_of(mode, kinds.drop_last());
        match reported_name(mode, kinds.last()) {
            Some(name) => earlier.push(name),
            None => earlier,
        }
    }
}

/// The task that forwards a session's player events to the player's emitter,
/// one event at a time, in the order the engine sends them.
pub struct EventForwarder<L> {
    emits: Arc<NodeEventEmitter<L>>,
    mode: ConnectMode,
    handled: Ghost<Seq<PlayerEventKind>>,
}

impl<L> EventForwarder<L> {
    /// The listener that receives the reports.
    pub closed spec fn listener(&self) -> Option<L> {
        self.emits@
    }

    /// How the session was opened.
    pub closed spec fn mode(&self) -> ConnectMode {
        self.mode
    }

    /// The events forwarded so far, oldest first.
    pub closed spec fn handled(&self) -> Seq<PlayerEventKind> {
        self.handled@
    }

    /// The names delivered to the listener so far, oldest first.
    pub open spec fn delivered(&self) -> Seq<Seq<char>> {
        if self.listener() is Some {
            reports_of(self.mode(), self.handled())
        } else {
            Seq::empty()
        }
    }

    /// A forwarder to `emits` for a session opened in `mode`; nothing is
    /// forwarded yet.
    pub fn new(emits: Arc<NodeEventEmitter<L>>, mode: ConnectMode) -> (r: Self)
        ensures
            r.listener() == emits@,
            r.mode() == mode,
            r.handled() == Seq::<PlayerEventKind>::empty(),
            r.delivered() == Seq::<Seq<char>>::empty(),
    {
        EventForwarder { emits, mode, handled: Ghost(Seq::empty()) }
    }

    /// Forwards the next event of the engine: it decides its report (see
    /// [`NodeEventEmitter::report_player_event`]) and appends it, if any, to
    /// what was delivered before.
    pub fn forward(&mut self, kind: PlayerEventKind) -> (r: Option<(&L, String)>)
        ensures
            final(self).listener() == old(self).listener(),
            final(self).mode() == old(self).mode(),
            final(self).handled() == old(self).handled().push(kind),
            r is Some <==> (old(self).listener() is Some && reported_name(old(self).mode(), kind) is Some),
            r matches Some(d) ==> {
                &&& Some(*d.0) == old(self).listener()
                &&& Some(d.1@) == reported_name(old(self).mode(), kind)
                &&& final(self).delivered() == old(self).delivered().push(d.1@)
            },
            r is None ==> final(self).delivered() == old(self).delivered(),
    {
        proof {
            self.handled@ = self.handled@.push(kind);
            assert(self.handled@.drop_last() =~= old(self).handled@);
        }
        self.emits.report_player_event(self.mode, kind)
    }
}

/// Reports keep the order of the events, and no event is reported twice: the
/// reports of a run followed by one more event are the run's reports followed
/// by that event's report, if it has one; a run gives at most one report per
/// event.
pub proof fn law_reports_follow_event_order(
    mode: ConnectMode,
    kinds: Seq<PlayerEventKind>,
    next: PlayerEventKind,
)
    ensures
        reported_name(mode, next) matches Some(name) ==> reports_of(mode, kinds.push(next))
            == reports_of(mode, kinds).push(name),
        reported_name(mode, next) is None ==> reports_of(mode, kinds.push(next)) == reports_of(
            mode,
            kinds,
        ),
        reports_of(mode, kinds).len() <= kinds.len(),
    decreases kinds.len(),
{
    assert(kinds.push(next).drop_last() =~= kinds);
    if kinds.len() > 0 {
        law_reports_follow_event_order(mode, kinds.drop_last(), kinds.last());
        assert(kinds.drop_last().push(kinds.last()) =~= kinds);
    }
}

/// An event given to an emitter reaches its listener, with its name, exactly
/// when the emitter has one; an emitter made by `new_empty` drops every event.
pub proof fn law_delivery_follows_listener<L>(emitter: NodeEventEmitter<L>, event: Seq<char>)
    ensures
        delivery(emitter@, event) is Some <==> emitter@ is Some,
        emitter@ matches Some(l) ==> delivery(emitter@, event) == Some((l, event)),
{
}

/// Exactly four player events are reported, in either connection mode: a
/// start, a change of track, the end of a track and a stop.
pub proof fn law_reported_kinds(mode: ConnectMode, kind: PlayerEventKind)
    ensures
        reported_name(mode, kind) is Some <==> (kind == PlayerEventKind::Started || kind
            == PlayerEventKind::Changed || kind == PlayerEventKind::EndOfTrack || kind
            == PlayerEventKind::Stopped),
{
}

/// The two connection modes report the same events under the same names,
/// except a stop: `track_stopped` after an OAuth connection, `track_finished`
/// (the name of the end of a track) after a discovered connection.
pub proof fn law_modes_differ_only_on_stop(kind: PlayerEventKind)
    ensures
        kind != PlayerEventKind::Stopped ==> reported_name(ConnectMode::OAuth, kind)
            == reported_name(ConnectMode::Discovered, kind),
        reported_name(ConnectMode::OAuth, PlayerEventKind::Stopped) == Some(track_stopped()),
        reported_name(ConnectMode::Discovered, PlayerEventKind::Stopped) == reported_name(
            ConnectMode::Discovered,
            PlayerEventKind::EndOfTrack,
        ),
{
}

/// After an OAuth connection, no two reported events share a name.
pub proof fn law_oauth_names_distinct(a: PlayerEventKind, b: PlayerEventKind)
    requires
        reported_name(ConnectMode::OAuth, a) is Some,
        reported_name(ConnectMode::OAuth, a) == reported_name(ConnectMode::OAuth, b),
    ensures
        a == b,
{
    reveal_strlit("track_started");
    reveal_strlit("track_changed");
    reveal_strlit("track_finished");
    reveal_strlit("track_stopped");
    assert(track_started()[7] != track_changed()[7]);
    assert(track_started()[8] != track_stopped()[8]);
    assert(track_changed()[7] != track_stopped()[7]);
    assert(track_started().len() != track_finished().len());
    assert(track_changed().len() != track_finished().len());
    assert(track_stopped().len() != track_finished().len());
}

} // verus!
