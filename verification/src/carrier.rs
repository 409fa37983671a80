//! The carrier adapter over an RPC metadata map.
//!
//! A propagator exchanges trace context with a transport through a plain
//! key-value surface: `set` to write, `get` and `keys` to read.  This module
//! bridges that surface to `tonic`'s `MetadataMap`, whose keys obey a
//! restricted, case-insensitive syntax with a reserved `-bin` suffix for
//! binary entries, and whose values obey their own encoding rules.
//!
//! The map is modeled by two projections: `entry_names`, the set of
//! normalized key names present, and `ascii_text`, the entries whose stored
//! value reads back as plain text.  Writes that break the metadata rules are
//! silently discarded; reads of entries that are not plain text report the
//! entry as absent.

use vstd::prelude::*;
use std::str::FromStr;
use tonic::metadata::Ascii;
use tonic::metadata::KeyRef;
use tonic::metadata::MetadataKey;
use tonic::metadata::MetadataMap;
use tonic::metadata::MetadataValue;
use crate::sanitize::ascii_lower;
use crate::sanitize::ends_with_bin;
use crate::sanitize::is_text_value;
use crate::sanitize::is_valid_ascii_key;
use crate::sanitize::is_valid_ascii_value;
use crate::sanitize::set_effective;
use crate::sanitize::set_names_model;
use crate::sanitize::set_text_model;
use crate::sanitize::NAME_ROOM_LIMIT;

verus! {

#[verifier::external_type_specification]
#[verifier::external_body]
pub struct ExMetadataMap(MetadataMap);

/// A key name accepted by the metadata map, held in normalized (lowercase)
/// form.  Opaque to verification; built only through `parse_ascii_key`.
#[verifier::external_body]
pub struct AsciiKey {
    inner: MetadataKey<Ascii>,
}

/// A value accepted by the metadata map's plain-text flavor.  Opaque to
/// verification; built only through `parse_ascii_value`.
#[verifier::external_body]
pub struct AsciiValue {
    inner: MetadataValue<Ascii>,
}

/// The set of key names present in the map, in normalized (lowercase) form,
/// binary-flavored and plain entries alike.
pub uninterp spec fn entry_names(m: MetadataMap) -> Set<Seq<char>>;

/// The text view of the map: for each key whose first stored value reads
/// back as plain text, that text, under the normalized key name.
pub uninterp spec fn ascii_text(m: MetadataMap) -> Map<Seq<char>, Seq<char>>;

/// The normalized name a parsed key carries.
pub uninterp spec fn key_chars(k: AsciiKey) -> Seq<char>;

/// The text a stored value reads back as, or nothing when the value is not
/// plain visible ASCII.
pub uninterp spec fn value_text(v: AsciiValue) -> Option<Seq<char>>;

/// Relies on `tonic::metadata::MetadataKey::<Ascii>::from_str`: it accepts
/// exactly the non-empty names of admitted key characters, at most 65535
/// characters long, whose normalized form does not end in `-bin`, and it
/// normalizes the accepted name to lowercase.
#[verifier::external_body]
fn parse_ascii_key(s: &str) -> (r: Option<AsciiKey>)
    ensures
        r is Some <==> is_valid_ascii_key(s@),
        r is Some ==> key_chars(r.unwrap()) == ascii_lower(s@),
{
    MetadataKey::from_str(s).ok().map(|k| AsciiKey { inner: k })
}

/// Relies on `FromStr` for `tonic::metadata::MetadataValue::<Ascii>`: it
/// accepts exactly the strings of admitted value characters, and the stored
/// value reads back as the same text when every character is visible ASCII,
/// space or tab, and as no text at all otherwise.
#[verifier::external_body]
fn parse_ascii_value(s: &str) -> (r: Option<AsciiValue>)
    ensures
        r is Some <==> is_valid_ascii_value(s@),
        r is Some ==> value_text(r.unwrap()) == (if is_text_value(s@) {
            Some(s@)
        } else {
            None::<Seq<char>>
        }),
{
    MetadataValue::from_str(s).ok().map(|v| AsciiValue { inner: v })
}

/// Relies on `tonic::metadata::MetadataMap::keys_len`: the number of
/// distinct key names present, both flavors counted once each.
#[verifier::external_body]
fn metadata_keys_len(m: &MetadataMap) -> (r: usize)
    ensures
        r == entry_names(*m).len(),
{
    m.keys_len()
}

/// Relies on `tonic::metadata::MetadataMap::insert`: it sets the key to the
/// single given value, replacing every value the key held before, whatever
/// its previous flavor.  The underlying map refuses to grow past 32768
/// distinct names, and its collision defense may demand that growth as soon
/// as five times the name count reaches the table size, so the call is made
/// only while the name count is below a fifth of that cap, where every
/// insertion path is guaranteed to go through.
#[verifier::external_body]
fn metadata_insert(m: &mut MetadataMap, k: AsciiKey, v: AsciiValue)
    requires
        entry_names(*old(m)).len() <= NAME_ROOM_LIMIT,
    ensures
        entry_names(*final(m)) == entry_names(*old(m)).insert(key_chars(k)),
        value_text(v) is Some ==> ascii_text(*final(m)) == ascii_text(*old(m)).insert(
            key_chars(k),
            value_text(v).unwrap(),
        ),
        value_text(v) is None ==> ascii_text(*final(m)) == ascii_text(*old(m)).remove(
            key_chars(k),
        ),
{
    m.insert(k.inner, v.inner);
}

/// Write one key-value pair into the metadata map, enforcing the map's
/// rules: a pair whose key or value is invalid is silently discarded, and an
/// accepted pair replaces whatever the key held before, so repeating a write
/// never grows the map.  A write into a map already holding more distinct
/// names than the room limit is discarded too, so the carrier never drives
/// the map into its capacity failure; a discarded write of any kind leaves
/// the map untouched.
pub fn carrier_set(m: &mut MetadataMap, key: &str, value: &str)
    ensures
        entry_names(*final(m)) == set_names_model(entry_names(*old(m)), key@, value@),
        ascii_text(*final(m)) == set_text_model(
            entry_names(*old(m)),
            ascii_text(*old(m)),
            key@,
            value@,
        ),
        !set_effective(entry_names(*old(m)), key@, value@) ==> *final(m) == *old(m),
{
    match parse_ascii_key(key) {
        Some(k) => {
            match parse_ascii_value(value) {
                Some(v) => {
                    if metadata_keys_len(m) <= NAME_ROOM_LIMIT {
                        metadata_insert(m, k, v);
                    }
                },
                None => {
                },
            }
        },
        None => {
        },
    }
}

/// Read one key back as plain text.  The lookup string is normalized to
/// lowercase before the map is asked, so every casing of a name reads
/// alike, and a name carrying the reserved binary suffix reads as absent in
/// any casing.  Relies on `tonic::metadata::MetadataMap::get`, which
/// refuses a lookup string ending in `-bin` and otherwise matches the name,
/// and on `MetadataValue::to_str`, which yields the stored text exactly
/// when it is visible ASCII; an entry that is not plain text reads as
/// absent.
#[verifier::external_body]
pub fn carrier_get<'a>(m: &'a MetadataMap, key: &str) -> (r: Option<&'a str>)
    ensures
        r is Some <==> (!ends_with_bin(ascii_lower(key@)) && entry_names(*m).contains(
            ascii_lower(key@),
        ) && ascii_text(*m).contains_key(ascii_lower(key@))),
        r is Some ==> r.unwrap()@ == ascii_text(*m)[ascii_lower(key@)],
{
    let lowered = key.to_ascii_lowercase();
    m.get(lowered.as_str()).and_then(|value| value.to_str().ok())
}

/// Enumerate every key name currently present, each once, whatever its
/// flavor.  Relies on `tonic::metadata::MetadataMap::keys`, which visits
/// each distinct name once, and on `MetadataKey::as_str`, which yields the
/// normalized name.
#[verifier::external_body]
pub fn carrier_keys<'a>(m: &'a MetadataMap) -> (r: Vec<&'a str>)
    ensures
        r@.map_values(|s: &str| s@).to_set() == entry_names(*m),
        r@.map_values(|s: &str| s@).no_duplicates(),
{
    m.keys().map(|key| match key {
        KeyRef::Ascii(v) => v.as_str(),
        KeyRef::Binary(v) => v.as_str(),
    }).collect::<Vec<_>>()
}

} // verus!
