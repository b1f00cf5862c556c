use vstd::prelude::*;
use vstd::string::StringSliceAdditionalSpecFns;

use crate::ordered_map::OrderedMap;
use crate::text::parse_dec_u64;
use crate::text::parse_u64;
use crate::value::Address;
use crate::value::MapEntry;
use crate::value::NamedValue;
use crate::value::ParamType;
use crate::value::UintValue;
use crate::value::Value;
use crate::DePoolError;

verus! {

/// The UTF-8 bytes of a text, the form in which map keys are parsed.
pub open spec fn text_bytes(s: Seq<char>) -> Seq<u8> {
    vstd::utf8::encode_utf8(s)
}

/// What decoding a 64-bit unsigned slot yields: the value exactly when
/// the dynamic value is an integer declared 64 bits wide and in range;
/// any other shape or width is rejected, never coerced.
pub open spec fn spec_decode_u64(v: Value) -> Result<u64, DePoolError> {
    match v {
        Value::Uint(u) => if u.size == 64 && u.number <= u64::MAX {
            Ok(u.number as u64)
        } else {
            Err(DePoolError::InvalidAbi)
        },
        _ => Err(DePoolError::InvalidAbi),
    }
}

/// As `spec_decode_u64`, for a 32-bit declared width.
pub open spec fn spec_decode_u32(v: Value) -> Result<u32, DePoolError> {
    match v {
        Value::Uint(u) => if u.size == 32 && u.number <= u32::MAX {
            Ok(u.number as u32)
        } else {
            Err(DePoolError::InvalidAbi)
        },
        _ => Err(DePoolError::InvalidAbi),
    }
}

/// As `spec_decode_u64`, for an 8-bit declared width.
pub open spec fn spec_decode_u8(v: Value) -> Result<u8, DePoolError> {
    match v {
        Value::Uint(u) => if u.size == 8 && u.number <= u8::MAX {
            Ok(u.number as u8)
        } else {
            Err(DePoolError::InvalidAbi)
        },
        _ => Err(DePoolError::InvalidAbi),
    }
}

/// A boolean decodes from a boolean value only.
pub open spec fn spec_decode_bool(v: Value) -> Result<bool, DePoolError> {
    match v {
        Value::Bool(b) => Ok(b),
        _ => Err(DePoolError::InvalidAbi),
    }
}

/// An address decodes from an address value only.
pub open spec fn spec_decode_address(v: Value) -> Result<Address, DePoolError> {
    match v {
        Value::Address(a) => Ok(a),
        _ => Err(DePoolError::InvalidAbi),
    }
}

/// What the argument builder produces for a 64-bit unsigned argument.
pub open spec fn spec_encode_u64(n: u64) -> Value {
    Value::Uint(UintValue { size: 64, number: n as u128 })
}

/// What the argument builder produces for a boolean argument.
pub open spec fn spec_encode_bool(b: bool) -> Value {
    Value::Bool(b)
}

/// What the argument builder produces for an address argument.
pub open spec fn spec_encode_address(a: Address) -> Value {
    Value::Address(a)
}

/// Decodes a 64-bit unsigned slot.
pub fn decode_u64(v: &Value) -> (r: Result<u64, DePoolError>)
    ensures
        r == spec_decode_u64(*v),
{
    match v {
        Value::Uint(u) => {
            if u.size == 64 && u.number <= u64::MAX as u128 {
                Ok(u.number as u64)
            } else {
                Err(DePoolError::InvalidAbi)
            }
        },
        _ => Err(DePoolError::InvalidAbi),
    }
}

/// Decodes a 32-bit unsigned slot.
pub fn decode_u32(v: &Value) -> (r: Result<u32, DePoolError>)
    ensures
        r == spec_decode_u32(*v),
{
    match v {
        Value::Uint(u) => {
            if u.size == 32 && u.number <= u32::MAX as u128 {
                Ok(u.number as u32)
            } else {
                Err(DePoolError::InvalidAbi)
            }
        },
        _ => Err(DePoolError::InvalidAbi),
    }
}

/// Decodes an 8-bit unsigned slot.
pub fn decode_u8(v: &Value) -> (r: Result<u8, DePoolError>)
    ensures
        r == spec_decode_u8(*v),
{
    match v {
        Value::Uint(u) => {
            if u.size == 8 && u.number <= u8::MAX as u128 {
                Ok(u.number as u8)
            } else {
                Err(DePoolError::InvalidAbi)
            }
        },
        _ => Err(DePoolError::InvalidAbi),
    }
}

/// Decodes a boolean slot.
pub fn decode_bool(v: &Value) -> (r: Result<bool, DePoolError>)
    ensures
        r == spec_decode_bool(*v),
{
    match v {
        Value::Bool(b) => Ok(*b),
        _ => Err(DePoolError::InvalidAbi),
    }
}

/// Decodes an address slot.
pub fn decode_address(v: &Value) -> (r: Result<Address, DePoolError>)
    ensures
        r == spec_decode_address(*v),
{
    match v {
        Value::Address(a) => Ok(*a),
        _ => Err(DePoolError::InvalidAbi),
    }
}

/// Encodes a 64-bit unsigned argument.
pub fn encode_u64(n: u64) -> (r: Value)
    ensures
        r == spec_encode_u64(n),
{
    Value::Uint(UintValue { size: 64, number: n as u128 })
}

/// Encodes a boolean argument.
pub fn encode_bool(b: bool) -> (r: Value)
    ensures
        r == spec_encode_bool(b),
{
    Value::Bool(b)
}

/// Encodes an address argument.
pub fn encode_address(a: Address) -> (r: Value)
    ensures
        r == spec_encode_address(a),
{
    Value::Address(a)
}

/// The first value under the given name, scanning left to right.
pub open spec fn find_named(s: Seq<NamedValue>, name: Seq<char>) -> Option<Value>
    decreases s.len(),
{
    if s.len() == 0 {
        None
    } else if s[0].name@ == name {
        Some(s[0].value)
    } else {
        find_named(s.drop_first(), name)
    }
}

/// Looks a named sub-value up, as the tuple decoders do.
#[verifier::loop_isolation(false)]
pub fn get_named<'a>(tokens: &'a Vec<NamedValue>, name: &str) -> (r: Option<&'a Value>)
    ensures
        match r {
            Some(v) => find_named(tokens@, name@) == Some(*v),
            None => find_named(tokens@, name@) is None,
        },
{
    let wanted: String = name.to_owned();
    let n = tokens.len();
    let mut i: usize = 0;
    proof {
        assert(tokens@.skip(0) =~= tokens@);
    }
    while i < n
        invariant
            0 <= i <= n,
            find_named(tokens@, name@) == find_named(tokens@.skip(i as int), name@),
        decreases n - i,
    {
        if tokens[i].name == wanted {
            proof {
                assert(tokens@.skip(i as int)[0] == tokens@[i as int]);
            }
            return Some(&tokens[i].value);
        }
        proof {
            assert(tokens@.skip(i as int)[0] == tokens@[i as int]);
            assert(tokens@.skip(i as int).drop_first() =~= tokens@.skip(i as int + 1));
        }
        i = i + 1;
    }
    proof {
        assert(tokens@.skip(n as int).len() == 0);
    }
    None
}

/// What a named 64-bit unsigned field of a tuple decodes to; a missing
/// field is rejected.
pub open spec fn field_u64(s: Seq<NamedValue>, name: Seq<char>) -> Result<u64, DePoolError> {
    match find_named(s, name) {
        Some(v) => spec_decode_u64(v),
        None => Err(DePoolError::InvalidAbi),
    }
}

/// As `field_u64`, for a 32-bit declared width.
pub open spec fn field_u32(s: Seq<NamedValue>, name: Seq<char>) -> Result<u32, DePoolError> {
    match find_named(s, name) {
        Some(v) => spec_decode_u32(v),
        None => Err(DePoolError::InvalidAbi),
    }
}

/// As `field_u64`, for an 8-bit declared width.
pub open spec fn field_u8(s: Seq<NamedValue>, name: Seq<char>) -> Result<u8, DePoolError> {
    match find_named(s, name) {
        Some(v) => spec_decode_u8(v),
        None => Err(DePoolError::InvalidAbi),
    }
}

/// As `field_u64`, for a boolean field.
pub open spec fn field_bool(s: Seq<NamedValue>, name: Seq<char>) -> Result<bool, DePoolError> {
    match find_named(s, name) {
        Some(v) => spec_decode_bool(v),
        None => Err(DePoolError::InvalidAbi),
    }
}

/// As `field_u64`, for an address field.
pub open spec fn field_address(s: Seq<NamedValue>, name: Seq<char>) -> Result<
    Address,
    DePoolError,
> {
    match find_named(s, name) {
        Some(v) => spec_decode_address(v),
        None => Err(DePoolError::InvalidAbi),
    }
}

/// As `field_u64`, for a 64-bit-keyed, 64-bit-valued map field.
pub open spec fn field_map_u64(s: Seq<NamedValue>, name: Seq<char>) -> Result<
    Map<u64, u64>,
    DePoolError,
> {
    match find_named(s, name) {
        Some(v) => spec_decode_map_u64_u64(v),
        None => Err(DePoolError::InvalidAbi),
    }
}

/// As `field_u64`, for an address-array field.
pub open spec fn field_address_array(s: Seq<NamedValue>, name: Seq<char>) -> Result<
    Seq<Address>,
    DePoolError,
> {
    match find_named(s, name) {
        Some(v) => spec_decode_address_array(v),
        None => Err(DePoolError::InvalidAbi),
    }
}

/// What decoding the entries of a 64-bit-keyed, 64-bit-valued map
/// yields: each textual key parsed as a decimal number, each value
/// decoded as a 64-bit integer, gathered into a finite map where a
/// later duplicate key overrides an earlier one.
pub open spec fn spec_decode_map_entries(s: Seq<MapEntry>) -> Result<Map<u64, u64>, DePoolError>
    decreases s.len(),
{
    if s.len() == 0 {
        Ok(Map::empty())
    } else {
        match spec_decode_map_entries(s.drop_last()) {
            Ok(m) => match (parse_dec_u64(text_bytes(s.last().key@)), spec_decode_u64(
                s.last().value,
            )) {
                (Some(k), Ok(v)) => Ok(m.insert(k, v)),
                _ => Err(DePoolError::InvalidAbi),
            },
            Err(e) => Err(e),
        }
    }
}

/// Once a prefix of the entries fails to decode, the whole map does.
pub proof fn lemma_map_entries_err(s: Seq<MapEntry>, i: int)
    requires
        0 <= i <= s.len(),
        spec_decode_map_entries(s.subrange(0, i)) == Err::<Map<u64, u64>, DePoolError>(
            DePoolError::InvalidAbi,
        ),
    ensures
        spec_decode_map_entries(s) == Err::<Map<u64, u64>, DePoolError>(DePoolError::InvalidAbi),
    decreases s.len() - i,
{
    if i == s.len() {
        assert(s.subrange(0, i) =~= s);
    } else {
        assert(s.subrange(0, i + 1).drop_last() =~= s.subrange(0, i));
        lemma_map_entries_err(s, i + 1);
    }
}

/// What decoding a whole map slot of 64-bit keys and values yields:
/// rejected unless the declared key and value types are both exactly
/// 64-bit unsigned integers, then decoded entry-wise.
pub open spec fn spec_decode_map_u64_u64(v: Value) -> Result<Map<u64, u64>, DePoolError> {
    match v {
        Value::Mapping(kt, vt, entries) => if kt == ParamType::Uint(64) && vt == ParamType::Uint(
            64,
        ) {
            spec_decode_map_entries(entries@)
        } else {
            Err(DePoolError::InvalidAbi)
        },
        _ => Err(DePoolError::InvalidAbi),
    }
}

/// Decodes a map slot of 64-bit keys and 64-bit values into a
/// key-ordered mapping.
#[verifier::loop_isolation(false)]
pub fn decode_map_u64_u64(v: &Value) -> (r: Result<OrderedMap<u64>, DePoolError>)
    ensures
        match r {
            Ok(m) => m.wf() && spec_decode_map_u64_u64(*v) == Ok::<Map<u64, u64>, DePoolError>(m@),
            Err(e) => spec_decode_map_u64_u64(*v) == Err::<Map<u64, u64>, DePoolError>(e),
        },
{
    match v {
        Value::Mapping(kt, vt, entries) => {
            match kt {
                ParamType::Uint(w) => {
                    if *w != 64 {
                        return Err(DePoolError::InvalidAbi);
                    }
                    assert(*kt == ParamType::Uint(64));
                },
                _ => {
                    return Err(DePoolError::InvalidAbi);
                },
            }
            match vt {
                ParamType::Uint(w) => {
                    if *w != 64 {
                        return Err(DePoolError::InvalidAbi);
                    }
                    assert(*vt == ParamType::Uint(64));
                },
                _ => {
                    return Err(DePoolError::InvalidAbi);
                },
            }
            let mut m = OrderedMap::<u64>::new();
            let n = entries.len();
            let mut i: usize = 0;
            while i < n
                invariant
                    0 <= i <= n,
                    m.wf(),
                    spec_decode_map_entries(entries@.subrange(0, i as int)) == Ok::<
                        Map<u64, u64>,
                        DePoolError,
                    >(m@),
                decreases n - i,
            {
                proof {
                    assert(entries@.subrange(0, i as int + 1).drop_last() =~= entries@.subrange(
                        0,
                        i as int,
                    ));
                    assert(entries@.subrange(0, i as int + 1).last() == entries@[i as int]);
                }
                let key = match parse_u64(entries[i].key.as_str()) {
                    Some(k) => k,
                    None => {
                        proof {
                            lemma_map_entries_err(entries@, i as int + 1);
                        }
                        return Err(DePoolError::InvalidAbi);
                    },
                };
                let val = match decode_u64(&entries[i].value) {
                    Ok(x) => x,
                    Err(_) => {
                        proof {
                            lemma_map_entries_err(entries@, i as int + 1);
                        }
                        return Err(DePoolError::InvalidAbi);
                    },
                };
                m.insert(key, val);
                i = i + 1;
            }
            proof {
                assert(entries@.subrange(0, n as int) =~= entries@);
            }
            Ok(m)
        },
        _ => Err(DePoolError::InvalidAbi),
    }
}

/// What decoding an array of addresses yields: every element must be
/// an address and the declared element type must be `address`.
pub open spec fn spec_decode_address_array(v: Value) -> Result<Seq<Address>, DePoolError> {
    match v {
        Value::Array(et, elems) => if et == ParamType::Address && (forall|i: int|
            0 <= i < elems@.len() ==> #[trigger] elems@[i] is Address) {
            Ok(Seq::new(elems@.len(), |i: int| elems@[i]->Address_0))
        } else {
            Err(DePoolError::InvalidAbi)
        },
        _ => Err(DePoolError::InvalidAbi),
    }
}

/// Decodes an array slot of addresses.
#[verifier::loop_isolation(false)]
pub fn decode_address_array(v: &Value) -> (r: Result<Vec<Address>, DePoolError>)
    ensures
        match r {
            Ok(a) => spec_decode_address_array(*v) == Ok::<Seq<Address>, DePoolError>(a@),
            Err(e) => spec_decode_address_array(*v) == Err::<Seq<Address>, DePoolError>(e),
        },
{
    match v {
        Value::Array(et, elems) => {
            match et {
                ParamType::Address => {},
                _ => {
                    return Err(DePoolError::InvalidAbi);
                },
            }
            let n = elems.len();
            let mut out: Vec<Address> = Vec::new();
            let mut i: usize = 0;
            while i < n
                invariant
                    0 <= i <= n,
                    out@.len() == i,
                    forall|j: int| 0 <= j < i ==> #[trigger] elems@[j] is Address,
                    forall|j: int| 0 <= j < i ==> #[trigger] out@[j] == elems@[j]->Address_0,
                decreases n - i,
            {
                match &elems[i] {
                    Value::Address(a) => {
                        out.push(*a);
                    },
                    _ => {
                        return Err(DePoolError::InvalidAbi);
                    },
                }
                i = i + 1;
            }
            proof {
                assert(out@ =~= Seq::new(elems@.len(), |i: int| elems@[i]->Address_0));
            }
            Ok(out)
        },
        _ => Err(DePoolError::InvalidAbi),
    }
}

} // verus!
