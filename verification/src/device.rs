//! How the device announced through discovery is identified: its type code,
//! parsed from a name, and its id, the hex SHA-1 digest of its name.

use vstd::prelude::*;
use sha1::Digest;

verus! {

/// The lower-case ASCII hex digits, in order of value.
pub open spec fn hex_lower_digits() -> Seq<char> {
    seq!['0', '1', '2', '3', '4', '5', '6', '7', '8', '9', 'a', 'b', 'c', 'd', 'e', 'f']
}

/// Lower-case hex encoding: two digits per byte, the high half first.
pub open spec fn hex_lower(bytes: Seq<u8>) -> Seq<char>
    decreases bytes.len(),
{
    if bytes.len() == 0 {
        Seq::empty()
    } else {
        seq![hex_lower_digits()[(bytes[0] / 16) as int], hex_lower_digits()[(bytes[0] % 16) as int]] + hex_lower(
            bytes.drop_first(),
        )
    }
}

/// Hex encoding gives two lower-case hex digits per byte.
pub proof fn lemma_hex_lower_shape(bytes: Seq<u8>)
    ensures
        hex_lower(bytes).len() == 2 * bytes.len(),
        forall|i: int|
            0 <= i < hex_lower(bytes).len() ==> hex_lower_digits().contains(
                #[trigger] hex_lower(bytes)[i],
            ),
    decreases bytes.len(),
{
    if bytes.len() > 0 {
        lemma_hex_lower_shape(bytes.drop_first());
        assert(hex_lower_digits().contains(hex_lower_digits()[(bytes[0] / 16) as int]));
        assert(hex_lower_digits().contains(hex_lower_digits()[(bytes[0] % 16) as int]));
        let rest = hex_lower(bytes.drop_first());
        assert forall|i: int| 0 <= i < hex_lower(bytes).len() implies hex_lower_digits().contains(
            #[trigger] hex_lower(bytes)[i],
        ) by {
            if i >= 2 {
                assert(hex_lower(bytes)[i] == rest[i - 2]);
            }
        }
    }
}

/// The SHA-1 digest of `data`.
pub uninterp spec fn sha1_digest(data: Seq<u8>) -> Seq<u8>;

/// Calls `Sha1::digest` of the `sha1` crate. Claimed: the result is the SHA-1
/// digest of `data`, 20 bytes long. The digest itself is left unstated.
#[verifier::external_body]
pub(crate) fn sha1_of(data: &[u8]) -> (r: Vec<u8>)
    ensures
        r@ == sha1_digest(data@),
        r@.len() == 20,
{
    sha1::Sha1::digest(data).to_vec()
}

/// Calls `hex::encode`. Claimed, from its source: lower-case hex, two digits
/// per byte, the high half first.
#[verifier::external_body]
pub(crate) fn hex_encode(data: &[u8]) -> (r: String)
    ensures
        r@ == hex_lower(data@),
{
    hex::encode(data)
}

/// `c` with an ASCII upper-case letter turned into lower case.
pub open spec fn ascii_lower_char(c: char) -> char {
    if 'A' <= c && c <= 'Z' {
        ((c as int) + 32) as char
    } else {
        c
    }
}

pub open spec fn ascii_lowercase(s: Seq<char>) -> Seq<char> {
    s.map_values(|c: char| ascii_lower_char(c))
}

/// The device type codes, as librespot numbers them.
pub open spec fn device_code_named(name: Seq<char>) -> Option<u8> {
    if name == "computer"@ {
        Some(1u8)
    } else if name == "tablet"@ {
        Some(2u8)
    } else if name == "smartphone"@ {
        Some(3u8)
    } else if name == "speaker"@ {
        Some(4u8)
    } else if name == "tv"@ {
        Some(5u8)
    } else if name == "avr"@ {
        Some(6u8)
    } else if name == "stb"@ {
        Some(7u8)
    } else if name == "audiodongle"@ {
        Some(8u8)
    } else if name == "gameconsole"@ {
        Some(9u8)
    } else if name == "castaudio"@ {
        Some(10u8)
    } else if name == "castvideo"@ {
        Some(11u8)
    } else if name == "automobile"@ {
        Some(12u8)
    } else if name == "smartwatch"@ {
        Some(13u8)
    } else if name == "chromebook"@ {
        Some(14u8)
    } else if name == "carthing"@ {
        Some(101u8)
    } else if name == "homething"@ {
        Some(103u8)
    } else {
        None
    }
}

/// The code of the device type that librespot parses from `name`, if any.
pub uninterp spec fn device_type_code_of(name: Seq<char>) -> Option<u8>;

/// Calls `DeviceType::from_str` of librespot and gives the parsed type's code
/// (its discriminant). Claimed, from its source: the name is matched, after
/// lower-casing, against the sixteen names of [`device_code_named`]. For an
/// ASCII name that is stated exactly; for another name only that the result
/// is determined by the name (Unicode lower-casing is left unstated).
#[verifier::external_body]
pub(crate) fn device_type_code(name: &str) -> (r: Option<u8>)
    ensures
        r == device_type_code_of(name@),
        vstd::utf8::is_ascii_chars(name@) ==> r == device_code_named(ascii_lowercase(name@)),
{
    match <librespot::discovery::DeviceType as std::str::FromStr>::from_str(name) {
        Ok(t) => Some(t as u8),
        Err(_) => None,
    }
}

} // verus!
