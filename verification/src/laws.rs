use vstd::prelude::*;

use crate::codec::spec_decode_address;
use crate::codec::spec_decode_bool;
use crate::codec::spec_decode_map_entries;
use crate::codec::spec_decode_u32;
use crate::codec::spec_decode_u64;
use crate::codec::spec_decode_u8;
use crate::codec::spec_encode_address;
use crate::codec::spec_encode_bool;
use crate::codec::spec_encode_u64;
use crate::codec::text_bytes;
use crate::text::parse_dec_u64;
use crate::value::Address;
use crate::value::MapEntry;
use crate::value::UintValue;
use crate::value::Value;
use crate::DePoolError;

verus! {

/// Round trip: any 64-bit unsigned value the builder encodes, the
/// codec decodes back unchanged.
pub proof fn lemma_round_trip_u64(v: u64)
    ensures
        spec_decode_u64(spec_encode_u64(v)) == Ok::<u64, DePoolError>(v),
{
}

/// Round trip: any boolean the builder encodes, the codec decodes
/// back unchanged.
pub proof fn lemma_round_trip_bool(b: bool)
    ensures
        spec_decode_bool(spec_encode_bool(b)) == Ok::<bool, DePoolError>(b),
{
}

/// Round trip: any address the builder encodes, the codec decodes
/// back unchanged.
pub proof fn lemma_round_trip_address(a: Address)
    ensures
        spec_decode_address(spec_encode_address(a)) == Ok::<Address, DePoolError>(a),
{
}

/// Width mismatch is a hard decode failure: an integer slot declared
/// at one width never decodes a value carried at another width, at any
/// of the supported widths — in particular a 32-bit slot carrying a
/// 64-bit value is rejected, never truncated.
pub proof fn lemma_width_mismatch_rejected(u: UintValue)
    ensures
        u.size != 32 ==> spec_decode_u32(Value::Uint(u)) == Err::<u32, DePoolError>(
            DePoolError::InvalidAbi,
        ),
        u.size != 64 ==> spec_decode_u64(Value::Uint(u)) == Err::<u64, DePoolError>(
            DePoolError::InvalidAbi,
        ),
        u.size != 8 ==> spec_decode_u8(Value::Uint(u)) == Err::<u8, DePoolError>(
            DePoolError::InvalidAbi,
        ),
{
}

/// Decoding a valid 64-bit-keyed, 64-bit-valued map preserves every
/// key with its associated value: when the textual keys denote
/// pairwise distinct numbers, each entry is found in the decoded map
/// under its parsed key, and the decoded map holds no other key.
pub proof fn lemma_map_decode_preserves(entries: Seq<MapEntry>, m: Map<u64, u64>)
    requires
        spec_decode_map_entries(entries) == Ok::<Map<u64, u64>, DePoolError>(m),
        forall|i: int, j: int|
            0 <= i < j < entries.len() ==> parse_dec_u64(text_bytes(#[trigger] entries[i].key@))
                != parse_dec_u64(text_bytes(#[trigger] entries[j].key@)),
    ensures
        forall|i: int|
            0 <= i < entries.len() ==> (parse_dec_u64(text_bytes(#[trigger] entries[i].key@))
                matches Some(k) && spec_decode_u64(entries[i].value) matches Ok(v)
                && m.contains_key(k) && m[k] == v),
        forall|k: u64|
            m.contains_key(k) ==> exists|i: int|
                0 <= i < entries.len() && parse_dec_u64(text_bytes(#[trigger] entries[i].key@))
                    == Some(k),
    decreases entries.len(),
{
    if entries.len() > 0 {
        let t = entries.drop_last();
        let last = entries.last();
        let m0 = match spec_decode_map_entries(t) {
            Ok(m0) => m0,
            Err(_) => Map::empty(),
        };
        assert(spec_decode_map_entries(t) == Ok::<Map<u64, u64>, DePoolError>(m0));
        let kl = parse_dec_u64(text_bytes(last.key@)).unwrap();
        let vl = match spec_decode_u64(last.value) {
            Ok(v) => v,
            Err(_) => 0u64,
        };
        assert(m == m0.insert(kl, vl));
        assert(forall|i: int| 0 <= i < t.len() ==> t[i] == entries[i]);
        lemma_map_decode_preserves(t, m0);
        assert forall|i: int| 0 <= i < entries.len() implies (parse_dec_u64(
            text_bytes(#[trigger] entries[i].key@),
        ) matches Some(k) && spec_decode_u64(entries[i].value) matches Ok(v) && m.contains_key(k)
            && m[k] == v) by {
            if i < entries.len() - 1 {
                let ki = parse_dec_u64(text_bytes(entries[i].key@)).unwrap();
                assert(parse_dec_u64(text_bytes(entries[i].key@)) != parse_dec_u64(
                    text_bytes(entries[entries.len() - 1].key@),
                ));
                assert(ki != kl);
            } else {
                assert(entries[i] == last);
            }
        }
        assert forall|k: u64| m.contains_key(k) implies exists|i: int|
            0 <= i < entries.len() && parse_dec_u64(text_bytes(#[trigger] entries[i].key@)) == Some(
            k,
        ) by {
            if k == kl {
                assert(entries[entries.len() - 1] == last);
                assert(parse_dec_u64(text_bytes(entries[entries.len() - 1].key@)) == Some(k));
            } else {
                assert(m0.contains_key(k));
            }
        }
    }
}

} // verus!
