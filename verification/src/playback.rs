//! The playback engine as the library sees it: track identifiers parsed from
//! Spotify URIs, and the commands handed to librespot's `Player`.

use vstd::prelude::*;
use librespot::playback::player::Player;
use vstd::string::StrSliceExecFns;

verus! {

#[verifier::external_type_specification]
#[verifier::external_body]
pub struct ExPlayer(Player);

/// The kind of audio a Spotify identifier names.
#[derive(Debug, Clone, Copy, PartialEq, Eq)]
pub enum AudioKind {
    Track,
    Podcast,
    NonPlayable,
}

/// A Spotify identifier as plain values: the 128-bit number and its audio kind.
#[derive(Debug, Clone, Copy, PartialEq, Eq)]
pub struct TrackId {
    pub id: u128,
    pub audio: AudioKind,
}

/// A command that the library hands to the playback engine.
#[derive(Debug, Clone, Copy, PartialEq, Eq)]
pub enum PlayerCommand {
    Load { track: TrackId, play_request_id: u64, start_playing: bool, position_ms: u32 },
    Pause,
    Stop,
}

/// The commands that the library has handed to a playback engine's command
/// channel, oldest first. Whether the engine's thread takes them from the
/// channel is not stated: librespot only logs a failed send.
pub uninterp spec fn sent_commands(player: Player) -> Seq<PlayerCommand>;

/// `"spotify:"`, the prefix of every Spotify URI.
pub open spec fn uri_prefix() -> Seq<char> {
    seq!['s', 'p', 'o', 't', 'i', 'f', 'y', ':']
}

/// The number of base62 digits in the identifier part of a URI.
pub open spec fn id_digits() -> int {
    22
}

pub open spec fn is_base62_digit(c: char) -> bool {
    ||| ('0' <= c && c <= '9')
    ||| ('a' <= c && c <= 'z')
    ||| ('A' <= c && c <= 'Z')
}

/// The value of one base62 digit: `0-9`, then `a-z`, then `A-Z`.
pub open spec fn base62_digit_value(c: char) -> int {
    if '0' <= c && c <= '9' {
        c as int - '0' as int
    } else if 'a' <= c && c <= 'z' {
        c as int - 'a' as int + 10
    } else {
        c as int - 'A' as int + 36
    }
}

/// The number that a string of base62 digits spells, most significant first.
pub open spec fn base62_value(digits: Seq<char>) -> int
    decreases digits.len(),
{
    if digits.len() == 0 {
        0
    } else {
        base62_value(digits.drop_last()) * 62 + base62_digit_value(digits.last())
    }
}

/// The identifier part of a URI: its last 22 characters.
pub open spec fn uri_id_part(uri: Seq<char>) -> Seq<char> {
    uri.subrange(uri.len() - id_digits(), uri.len() as int)
}

/// The type part of a URI: what stands between `spotify:` and the last colon.
pub open spec fn uri_type_part(uri: Seq<char>) -> Seq<char> {
    uri.subrange(8, uri.len() - id_digits() - 1)
}

/// A URI of the form `spotify:{type}:{id}`, where `{id}` is 22 base62 digits.
pub open spec fn is_spotify_uri(uri: Seq<char>) -> bool {
    &&& uri.len() >= 8 + id_digits() + 1
    &&& uri.subrange(0, 8) == uri_prefix()
    &&& uri[uri.len() - id_digits() - 1] == ':'
    &&& forall|i: int|
        uri.len() - id_digits() <= i < uri.len() ==> #[trigger] is_base62_digit(uri[i])
}

/// A well-formed URI whose identifier does not fit in 128 bits makes the
/// parser overflow; every other string is parsed or refused.
pub open spec fn uri_id_fits(uri: Seq<char>) -> bool {
    is_spotify_uri(uri) ==> base62_value(uri_id_part(uri)) < 0x1_0000_0000_0000_0000_0000_0000_0000_0000
}

/// The audio kind that a URI's type part names.
pub open spec fn audio_kind_named(kind: Seq<char>) -> AudioKind {
    if kind == seq!['t', 'r', 'a', 'c', 'k'] {
        AudioKind::Track
    } else if kind == seq!['e', 'p', 'i', 's', 'o', 'd', 'e'] {
        AudioKind::Podcast
    } else {
        AudioKind::NonPlayable
    }
}

/// The identifier that a URI names, or `None` when it is not well formed.
pub open spec fn track_id_of_uri(uri: Seq<char>) -> Option<TrackId> {
    if is_spotify_uri(uri) {
        Some(
            TrackId {
                id: base62_value(uri_id_part(uri)) as u128,
                audio: audio_kind_named(uri_type_part(uri)),
            },
        )
    } else {
        None
    }
}

/// Calls librespot's `SpotifyId::from_uri` and gives back the identifier's
/// number and audio kind. Claimed, from its source: a URI is accepted exactly
/// when it is `spotify:{type}:{id}` with 22 base62 digits as `{id}`; the
/// number is those digits read in base 62 and the kind is `track`, `episode`
/// or anything else. Its accumulator overflows on a 22-digit id of 2^128 or
/// more, so such inputs are excluded.
#[verifier::external_body]
pub(crate) fn spotify_id_from_uri(uri: &str) -> (r: Option<TrackId>)
    requires
        uri_id_fits(uri@),
    ensures
        r == track_id_of_uri(uri@),
{
    match librespot::core::spotify_id::SpotifyId::from_uri(uri) {
        Ok(id) => Some(TrackId { id: id.id, audio: match id.audio_type {
            librespot::core::spotify_id::SpotifyAudioType::Track => AudioKind::Track,
            librespot::core::spotify_id::SpotifyAudioType::Podcast => AudioKind::Podcast,
            librespot::core::spotify_id::SpotifyAudioType::NonPlayable => AudioKind::NonPlayable,
        } }),
        Err(_) => None,
    }
}

/// Whether a URI's id fits depends on its id alone: a Spotify URI fits
/// exactly when the number its last 22 characters spell in base 62 is below
/// 2^128, whatever its type part, so two URIs with the same id either both fit
/// or both do not; a string that is not a Spotify URI always fits.
pub proof fn law_fit_depends_on_id_only(uri: Seq<char>, other: Seq<char>)
    ensures
        is_spotify_uri(uri) ==> (uri_id_fits(uri) <==> base62_value(
            uri.subrange(uri.len() - 22, uri.len() as int),
        ) < 0x1_0000_0000_0000_0000_0000_0000_0000_0000),
        !is_spotify_uri(uri) ==> uri_id_fits(uri),
        is_spotify_uri(uri) && is_spotify_uri(other) && uri.subrange(uri.len() - 22, uri.len() as int)
            == other.subrange(other.len() - 22, other.len() as int) ==> uri_id_fits(uri)
            == uri_id_fits(other),
{
}

/// The number of a parsed URI is exactly the value its 22 digits spell: it
/// fits in 128 bits, so the conversion to `u128` loses nothing.
pub proof fn lemma_track_id_number(uri: Seq<char>)
    requires
        is_spotify_uri(uri),
        uri_id_fits(uri),
    ensures
        track_id_of_uri(uri) is Some,
        track_id_of_uri(uri)->0.id as int == base62_value(uri_id_part(uri)),
{
    let id = uri_id_part(uri);
    assert forall|i: int| 0 <= i < id.len() implies #[trigger] is_base62_digit(id[i]) by {
        assert(id[i] == uri[uri.len() - 22 + i]);
    }
    lemma_base62_nonnegative(id);
}

/// Base62 values never go below zero.
proof fn lemma_base62_nonnegative(digits: Seq<char>)
    requires
        forall|i: int| 0 <= i < digits.len() ==> #[trigger] is_base62_digit(digits[i]),
    ensures
        base62_value(digits) >= 0,
    decreases digits.len(),
{
    if digits.len() > 0 {
        let shorter = digits.drop_last();
        assert forall|i: int| 0 <= i < shorter.len() implies #[trigger] is_base62_digit(shorter[i]) by {
            assert(shorter[i] == digits[i]);
        }
        lemma_base62_nonnegative(shorter);
        assert(is_base62_digit(digits[digits.len() - 1]));
    }
}

/// Reading more digits never gives a smaller number.
proof fn lemma_base62_prefix_le(digits: Seq<char>, k: int)
    requires
        0 <= k <= digits.len(),
        forall|i: int| 0 <= i < digits.len() ==> #[trigger] is_base62_digit(digits[i]),
    ensures
        base62_value(digits.subrange(0, k)) <= base62_value(digits),
    decreases digits.len(),
{
    if k == digits.len() {
        assert(digits.subrange(0, k) =~= digits);
    } else {
        let shorter = digits.drop_last();
        assert forall|i: int| 0 <= i < shorter.len() implies #[trigger] is_base62_digit(shorter[i]) by {
            assert(shorter[i] == digits[i]);
        }
        assert(shorter.subrange(0, k) =~= digits.subrange(0, k));
        lemma_base62_prefix_le(shorter, k);
        lemma_base62_nonnegative(shorter);
        assert(is_base62_digit(digits[digits.len() - 1]));
    }
}

/// Whether `c` is a base62 digit.
fn is_base62_char(c: char) -> (b: bool)
    ensures
        b == is_base62_digit(c),
{
    ('0' <= c && c <= '9') || ('a' <= c && c <= 'z') || ('A' <= c && c <= 'Z')
}

/// The value of the base62 digit `c`.
fn base62_char_value(c: char) -> (v: u8)
    requires
        is_base62_digit(c),
    ensures
        v as int == base62_digit_value(c),
{
    let x = c as u32;
    if '0' <= c && c <= '9' {
        (x - ('0' as u32)) as u8
    } else if 'a' <= c && c <= 'z' {
        (x - ('a' as u32) + 10) as u8
    } else {
        (x - ('A' as u32) + 36) as u8
    }
}

impl TrackId {
    /// Whether `uri` is safe to parse: `false` exactly for a well-formed
    /// Spotify URI whose 22-digit id is 2^128 or more, on which librespot's
    /// parser overflows.
    pub fn uri_fits(uri: &str) -> (r: bool)
        ensures
            r == uri_id_fits(uri@),
            is_spotify_uri(uri@) ==> (r <==> base62_value(uri@.subrange(uri@.len() - 22, uri@.len() as int))
                < 0x1_0000_0000_0000_0000_0000_0000_0000_0000),
            !is_spotify_uri(uri@) ==> r,
    {
        let n = uri.unicode_len();
        if n < 31 {
            return true;
        }
        if uri.get_char(0) != 's' || uri.get_char(1) != 'p' || uri.get_char(2) != 'o'
            || uri.get_char(3) != 't' || uri.get_char(4) != 'i' || uri.get_char(5) != 'f'
            || uri.get_char(6) != 'y' || uri.get_char(7) != ':' {
            assert(uri@.subrange(0, 8) != uri_prefix()) by {
                if uri@.subrange(0, 8) == uri_prefix() {
                    assert forall|i: int| 0 <= i < 8 implies uri@[i] == #[trigger] uri_prefix()[i] by {
                        assert(uri@.subrange(0, 8)[i] == uri@[i]);
                    }
                }
            }
            return true;
        }
        assert(uri@.subrange(0, 8) =~= uri_prefix());
        if uri.get_char(n - 23) != ':' {
            return true;
        }
        let start = n - 22;
        let ghost id = uri_id_part(uri@);
        let mut k: usize = 0;
        while k < 22
            invariant
                n == uri@.len(),
                n >= 31,
                start == n - 22,
                id == uri@.subrange(n - 22, n as int),
                k <= 22,
                forall|i: int| 0 <= i < k ==> #[trigger] is_base62_digit(id[i]),
            decreases 22 - k,
        {
            let c = uri.get_char(start + k);
            if !is_base62_char(c) {
                assert(!is_base62_digit(uri@[start + k]));
                return true;
            }
            k = k + 1;
        }
        assert(is_spotify_uri(uri@)) by {
            assert forall|i: int| n - 22 <= i < n implies #[trigger] is_base62_digit(uri@[i]) by {
                assert(id[i - (n - 22)] == uri@[i]);
            }
        }
        let mut value: u128 = 0;
        let mut k: usize = 0;
        while k < 22
            invariant
                n == uri@.len(),
                n >= 31,
                start == n - 22,
                id == uri@.subrange(n - 22, n as int),
                id.len() == 22,
                k <= 22,
                forall|i: int| 0 <= i < 22 ==> #[trigger] is_base62_digit(id[i]),
                is_spotify_uri(uri@),
                id == uri_id_part(uri@),
                value == base62_value(id.subrange(0, k as int)),
            decreases 22 - k,
        {
            assert(id[k as int] == uri@[start + k]);
            assert(is_base62_digit(id[k as int]));
            let d = base62_char_value(uri.get_char(start + k));
            assert(id.subrange(0, k + 1).drop_last() =~= id.subrange(0, k as int));
            assert(id.subrange(0, k + 1).last() == id[k as int]);
            match value.checked_mul(62) {
                Some(shifted) => match shifted.checked_add(d as u128) {
                    Some(next) => {
                        value = next;
                    },
                    None => {
                        proof {
                            lemma_base62_prefix_le(id, k + 1);
                        }
                        return false;
                    },
                },
                None => {
                    proof {
                        lemma_base62_prefix_le(id, k + 1);
                    }
                    return false;
                },
            }
            k = k + 1;
        }
        assert(id.subrange(0, 22) =~= id);
        true
    }
}

impl TrackId {
    /// The identifier that the Spotify URI `uri` names, or `None` when `uri` is
    /// not of the form `spotify:{type}:{id}` with 22 base62 digits as `{id}`.
    /// A 22-digit id of 2^128 or more makes librespot's parser overflow and is
    /// excluded by `requires`.
    pub fn from_uri(uri: &str) -> (r: Option<TrackId>)
        requires
            uri_id_fits(uri@),
        ensures
            r == track_id_of_uri(uri@),
    {
        spotify_id_from_uri(uri)
    }
}

/// Calls librespot's `Player::load` with the `SpotifyId` that `track` holds.
/// Claimed, from its source: it hands the engine's command channel one load
/// command for the track, carrying the play request id that it returns.
#[verifier::external_body]
pub(crate) fn player_load(player: &mut Player, track: TrackId, start_playing: bool, position_ms: u32) -> (r: u64)
    ensures
        sent_commands(*final(player)) == sent_commands(*old(player)).push(
            PlayerCommand::Load { track, play_request_id: r, start_playing, position_ms },
        ),
{
    let audio_type = match track.audio {
        AudioKind::Track => librespot::core::spotify_id::SpotifyAudioType::Track,
        AudioKind::Podcast => librespot::core::spotify_id::SpotifyAudioType::Podcast,
        AudioKind::NonPlayable => librespot::core::spotify_id::SpotifyAudioType::NonPlayable,
    };
    player.load(librespot::core::spotify_id::SpotifyId { id: track.id, audio_type }, start_playing, position_ms)
}

/// Calls librespot's `Player::pause`. Claimed, from its source: it hands the
/// engine's command channel one pause command. The method takes `&self` and
/// sends through the channel; the wrapper takes `&mut` so that the command is
/// recorded.
#[verifier::external_body]
pub(crate) fn player_pause(player: &mut Player)
    ensures
        sent_commands(*final(player)) == sent_commands(*old(player)).push(PlayerCommand::Pause),
{
    player.pause()
}

/// Calls librespot's `Player::stop`. Claimed, from its source: it hands the
/// engine's command channel one stop command (`&mut` as for `player_pause`).
#[verifier::external_body]
pub(crate) fn player_stop(player: &mut Player)
    ensures
        sent_commands(*final(player)) == sent_commands(*old(player)).push(PlayerCommand::Stop),
{
    player.stop()
}

} // verus!
