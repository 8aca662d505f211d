//! Conversions between the formats that the host and the guests use.

use serde::de::IntoDeserializer;
use vstd::prelude::*;

verus! {

#[verifier::external_type_specification]
#[verifier::external_body]
#[verifier::reject_recursive_types(K)]
#[verifier::reject_recursive_types(V)]
pub struct ExTomlMap<K, V>(toml::map::Map<K, V>);

#[verifier::external_type_specification]
#[verifier::external_body]
pub struct ExTomlValue(toml::Value);

/// Whether `byte` opens a MessagePack map: a fixmap (`0x80..=0x8f`), a map16 (`0xde`)
/// or a map32 (`0xdf`).
pub open spec fn is_map_marker(byte: u8) -> bool {
    (0x80 <= byte && byte <= 0x8f) || byte == 0xde || byte == 0xdf
}

/// Whether `bytes` begin as the MessagePack encoding of a map.
pub open spec fn opens_map(bytes: Seq<u8>) -> bool {
    bytes.len() >= 1 && is_map_marker(bytes[0])
}

/// The MessagePack bytes that rmp_serde (with struct maps) writes for `table` when
/// serde_transcode carries it over from the table's serde deserializer. Keys come in
/// the table's own order (sorted: toml's `preserve_order` feature is off here).
pub uninterp spec fn spec_message_pack(table: toml::Table) -> Seq<u8>;

/// Runs `serde_transcode::transcode` from the table's serde deserializer into an
/// `rmp_serde::Serializer` (with struct maps) that writes into a new byte vector,
/// and hands back that vector, or the text of the serializer's error.
///
/// Claimed of it: it succeeds on every table, and the bytes are `spec_message_pack`
/// of the table and open a map. The table deserializes as a map of known length
/// (`deserialize_any` visits it with an exact size hint), rmp_serde's `serialize_map`
/// with a known length writes the map marker first (`write_map_len`), and nothing on
/// the way can fail: writing into a `Vec` cannot, and neither the deserializer nor
/// the serializer refuses any TOML value. The bytes after the marker are named, not
/// spelled out.
#[verifier::external_body]
fn transcode_table(table: toml::Table) -> (result: Result<Vec<u8>, String>)
    ensures
        result is Ok,
        result matches Ok(bytes) ==> bytes@ == spec_message_pack(table),
        result matches Ok(bytes) ==> opens_map(bytes@),
{
    let mut buffer = Vec::new();
    let mut serializer = rmp_serde::Serializer::new(&mut buffer).with_struct_map();
    match serde_transcode::transcode(table.into_deserializer(), &mut serializer) {
        Ok(()) => Ok(buffer),
        Err(error) => Err(error.to_string()),
    }
}

/// The context that a failed transcoding is reported with.
pub open spec fn transcode_failure_text(cause: Seq<char>) -> Seq<char> {
    "failed to transcode TOML table to MessagePack: "@ + cause
}

/// The outcome of a transcoding as the host reports it: the bytes, or the cause of
/// the failure in its context.
pub fn report_transcoding(outcome: Result<Vec<u8>, String>) -> (result: Result<Vec<u8>, String>)
    ensures
        outcome matches Ok(bytes) ==> (result matches Ok(b) && b@ == bytes@),
        outcome matches Err(cause) ==> (result matches Err(text) && text@
            == transcode_failure_text(cause@)),
{
    match outcome {
        Ok(bytes) => Ok(bytes),
        Err(cause) => {
            let text = String::from_str("failed to transcode TOML table to MessagePack: ");
            Err(text.concat(cause.as_str()))
        },
    }
}

/// Transcode a connection's TOML settings table into MessagePack, the form in which
/// a guest's `init()` takes its settings: the bytes encode the table as a map.
/// Transcoding a TOML table does not fail.
pub fn transcode_toml_to_message_pack(table: toml::Table) -> (result: Result<Vec<u8>, String>)
    ensures
        result is Ok,
        result matches Ok(bytes) ==> bytes@ == spec_message_pack(table),
        result matches Ok(bytes) ==> opens_map(bytes@),
{
    report_transcoding(transcode_table(table))
}

} // verus!
