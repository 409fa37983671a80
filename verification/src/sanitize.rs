//! Validity rules for metadata keys and values, and the model of a single
//! carrier write.
//!
//! A write into the metadata map goes through when both the key and the value
//! satisfy the map's rules, and is silently discarded otherwise; this module
//! states those rules over character sequences, together with the resulting
//! map transformation, so that the carrier operations can promise exactly
//! which writes take effect.

use vstd::prelude::*;

verus! {

/// Lowercase image of one character: ASCII uppercase letters map to their
/// lowercase counterpart, every other character is unchanged.
pub open spec fn lower_char(c: char) -> char {
    if 65 <= (c as u32) && (c as u32) <= 90 {
        (((c as u32) + 32) as u32) as char
    } else {
        c
    }
}

/// Lowercase image of a whole key, character by character.
pub open spec fn ascii_lower(s: Seq<char>) -> Seq<char> {
    s.map_values(|c: char| lower_char(c))
}

/// Characters admitted in a metadata key name: lowercase and uppercase ASCII
/// letters, digits, and the token symbols `! # $ % & ' * + - . ^ _ ` | ~`.
/// Uppercase letters are normalized to lowercase when the key is stored.
pub open spec fn valid_key_char(c: char) -> bool {
    let u = (c as u32);
    (97 <= u && u <= 122) || (65 <= u && u <= 90) || (48 <= u && u <= 57) || u == 33 || (35 <= u
        && u <= 39) || u == 42 || u == 43 || u == 45 || u == 46 || u == 94 || u == 95 || u == 96
        || u == 124 || u == 126
}

/// Whether a key name ends with the reserved binary-key suffix `-bin`.
pub open spec fn ends_with_bin(s: Seq<char>) -> bool {
    s.len() >= 4 && s.subrange(s.len() - 4, s.len() as int) == seq!['-', 'b', 'i', 'n']
}

/// A string is a valid plain (ASCII-flavored) metadata key when it is
/// non-empty, no longer than the map's key-length cap, made of admitted key
/// characters only, and its normalized form does not carry the reserved
/// binary suffix.
pub open spec fn is_valid_ascii_key(s: Seq<char>) -> bool {
    1 <= s.len() && s.len() <= 65535 && (forall|i: int|
        0 <= i < s.len() ==> valid_key_char(#[trigger] s[i])) && !ends_with_bin(ascii_lower(s))
}

/// Characters a metadata value may hold: horizontal tab and every character
/// other than the ASCII control range and delete.  Characters beyond ASCII
/// are admitted here, but make the value unreadable as plain text.
pub open spec fn valid_value_char(c: char) -> bool {
    (c as u32) == 9 || ((c as u32) >= 32 && (c as u32) != 127)
}

/// A string is storable as a plain metadata value when all its characters are
/// admitted value characters.
pub open spec fn is_valid_ascii_value(s: Seq<char>) -> bool {
    forall|i: int| 0 <= i < s.len() ==> valid_value_char(#[trigger] s[i])
}

/// Characters that keep a stored value readable back as plain text: visible
/// ASCII, space and horizontal tab.
pub open spec fn text_char(c: char) -> bool {
    (c as u32) == 9 || (32 <= (c as u32) && (c as u32) < 127)
}

/// A stored value reads back as plain text exactly when all its characters
/// are visible ASCII, space or tab.
pub open spec fn is_text_value(s: Seq<char>) -> bool {
    forall|i: int| 0 <= i < s.len() ==> text_char(#[trigger] s[i])
}

/// A carrier write takes effect when both the key and the value satisfy the
/// metadata rules; otherwise it is discarded without any other effect.
pub open spec fn set_allowed(key: Seq<char>, value: Seq<char>) -> bool {
    is_valid_ascii_key(key) && is_valid_ascii_value(value)
}

/// The largest number of distinct names the carrier writes alongside.  The
/// metadata map's hash table holds at most 32768 distinct names and its
/// collision defense may ask for a table doubling as soon as five times the
/// name count reaches the table size, so only below a fifth of the largest
/// table is every insertion guaranteed to go through without failing.
pub const NAME_ROOM_LIMIT: usize = 32768 / 5;

/// Whether the map still has room for a carrier write: past the limit every
/// write, replacement included, is refused rather than risked.
pub open spec fn has_room(names: Set<Seq<char>>) -> bool {
    names.len() <= NAME_ROOM_LIMIT
}

/// A carrier write goes through exactly when the pair satisfies the metadata
/// rules and the map still has room for it.
pub open spec fn set_effective(names: Set<Seq<char>>, key: Seq<char>, value: Seq<char>) -> bool {
    set_allowed(key, value) && has_room(names)
}

/// Effect of one carrier write on the set of key names present in the map.
pub open spec fn set_names_model(names: Set<Seq<char>>, key: Seq<char>, value: Seq<char>) -> Set<
    Seq<char>,
> {
    if set_effective(names, key, value) {
        names.insert(ascii_lower(key))
    } else {
        names
    }
}

/// Effect of one carrier write on the text view of the map: an accepted write
/// replaces whatever the key held before; a value that is not plain text
/// leaves the key unreadable; a rejected write changes nothing.
pub open spec fn set_text_model(
    names: Set<Seq<char>>,
    texts: Map<Seq<char>, Seq<char>>,
    key: Seq<char>,
    value: Seq<char>,
) -> Map<Seq<char>, Seq<char>> {
    if set_effective(names, key, value) {
        if is_text_value(value) {
            texts.insert(ascii_lower(key), value)
        } else {
            texts.remove(ascii_lower(key))
        }
    } else {
        texts
    }
}

/// The carrier's half of a propagation round trip: a write the carrier
/// accepts, with a value that is plain text and room left for it, lands
/// under the normalized key and is read back exactly, and the key it was
/// written under remains a readable lookup key.
pub proof fn lemma_write_then_read_back(
    names: Set<Seq<char>>,
    texts: Map<Seq<char>, Seq<char>>,
    key: Seq<char>,
    value: Seq<char>,
)
    requires
        set_allowed(key, value),
        is_text_value(value),
        has_room(names),
    ensures
        !ends_with_bin(ascii_lower(key)),
        set_names_model(names, key, value).contains(ascii_lower(key)),
        set_text_model(names, texts, key, value).contains_key(ascii_lower(key)),
        set_text_model(names, texts, key, value)[ascii_lower(key)] == value,
{
}

/// Writing the same key and value twice leaves the carrier exactly as one
/// write does: injection is idempotent.  The second write is applied to the
/// name set and text view the first one left behind.
pub proof fn lemma_set_idempotent(
    names: Set<Seq<char>>,
    texts: Map<Seq<char>, Seq<char>>,
    key: Seq<char>,
    value: Seq<char>,
)
    ensures
        set_names_model(set_names_model(names, key, value), key, value) == set_names_model(
            names,
            key,
            value,
        ),
        set_text_model(
            set_names_model(names, key, value),
            set_text_model(names, texts, key, value),
            key,
            value,
        ) == set_text_model(names, texts, key, value),
{
    let names1 = set_names_model(names, key, value);
    let texts1 = set_text_model(names, texts, key, value);
    if set_effective(names, key, value) && set_effective(names1, key, value) {
        assert(set_names_model(names1, key, value) =~= names1);
        if is_text_value(value) {
            assert(set_text_model(names1, texts1, key, value) =~= texts1);
        } else {
            assert(set_text_model(names1, texts1, key, value) =~= texts1);
        }
    }
}

/// A write whose key or value breaks the metadata rules is discarded whole:
/// the key written to stays absent from the name set unless it was already
/// there, and every entry of the carrier is left exactly as it was.
pub proof fn lemma_set_invalid_discarded(
    names: Set<Seq<char>>,
    texts: Map<Seq<char>, Seq<char>>,
    key: Seq<char>,
    value: Seq<char>,
)
    requires
        !set_allowed(key, value),
    ensures
        set_names_model(names, key, value) == names,
        set_text_model(names, texts, key, value) == texts,
{
}

} // verus!
