use vstd::prelude::*;
use vstd::map::*;

use crate::codec::decode_address;
use crate::codec::decode_address_array;
use crate::codec::decode_bool;
use crate::codec::decode_map_u64_u64;
use crate::codec::decode_u32;
use crate::codec::decode_u64;
use crate::codec::decode_u8;
use crate::codec::field_address;
use crate::codec::field_address_array;
use crate::codec::field_bool;
use crate::codec::field_map_u64;
use crate::codec::field_u32;
use crate::codec::field_u64;
use crate::codec::field_u8;
use crate::codec::find_named;
use crate::codec::get_named;
use crate::codec::text_bytes;
use crate::ordered_map::map_of;
use crate::ordered_map::OrderedMap;
use crate::text::parse_dec_u64;
use crate::text::parse_u64;
use crate::value::Address;
use crate::value::MapEntry;
use crate::value::NamedValue;
use crate::value::ParamType;
use crate::value::Value;
use crate::DePoolError;

verus! {

/// One vesting or lock stake as the contract reports it.
#[derive(Clone, Copy, Debug, PartialEq, Eq)]
pub struct StakesTuple {
    pub remaining_amount: u64,
    pub last_withdrawal_time: u64,
    pub withdrawal_period: u32,
    pub withdrawal_value: u64,
    pub owner: Address,
}

/// What decoding one stake tuple yields: a five-field tuple whose
/// sub-values are matched by name; a missing or extra field, or a
/// mistyped sub-value, is rejected.
pub open spec fn spec_decode_stakes_tuple(v: Value) -> Result<StakesTuple, DePoolError> {
    match v {
        Value::Tuple(fields) => if fields@.len() == 5 {
            match (
                field_u64(fields@, "remainingAmount"@),
                field_u64(fields@, "lastWithdrawalTime"@),
                field_u32(fields@, "withdrawalPeriod"@),
                field_u64(fields@, "withdrawalValue"@),
                field_address(fields@, "owner"@),
            ) {
                (Ok(ra), Ok(lw), Ok(wp), Ok(wv), Ok(ow)) => Ok(
                    StakesTuple {
                        remaining_amount: ra,
                        last_withdrawal_time: lw,
                        withdrawal_period: wp,
                        withdrawal_value: wv,
                        owner: ow,
                    },
                ),
                _ => Err(DePoolError::InvalidAbi),
            }
        } else {
            Err(DePoolError::InvalidAbi)
        },
        _ => Err(DePoolError::InvalidAbi),
    }
}

/// Decodes one stake tuple.
pub fn decode_stakes_tuple(v: &Value) -> (r: Result<StakesTuple, DePoolError>)
    ensures
        r == spec_decode_stakes_tuple(*v),
{
    match v {
        Value::Tuple(fields) => {
            if fields.len() != 5 {
                return Err(DePoolError::InvalidAbi);
            }
            let ra = match get_named(fields, "remainingAmount") {
                Some(x) => match decode_u64(x) {
                    Ok(n) => n,
                    Err(_) => {
                        return Err(DePoolError::InvalidAbi);
                    },
                },
                None => {
                    return Err(DePoolError::InvalidAbi);
                },
            };
            let lw = match get_named(fields, "lastWithdrawalTime") {
                Some(x) => match decode_u64(x) {
                    Ok(n) => n,
                    Err(_) => {
                        return Err(DePoolError::InvalidAbi);
                    },
                },
                None => {
                    return Err(DePoolError::InvalidAbi);
                },
            };
            let wp = match get_named(fields, "withdrawalPeriod") {
                Some(x) => match decode_u32(x) {
                    Ok(n) => n,
                    Err(_) => {
                        return Err(DePoolError::InvalidAbi);
                    },
                },
                None => {
                    return Err(DePoolError::InvalidAbi);
                },
            };
            let wv = match get_named(fields, "withdrawalValue") {
                Some(x) => match decode_u64(x) {
                    Ok(n) => n,
                    Err(_) => {
                        return Err(DePoolError::InvalidAbi);
                    },
                },
                None => {
                    return Err(DePoolError::InvalidAbi);
                },
            };
            let ow = match get_named(fields, "owner") {
                Some(x) => match decode_address(x) {
                    Ok(a) => a,
                    Err(_) => {
                        return Err(DePoolError::InvalidAbi);
                    },
                },
                None => {
                    return Err(DePoolError::InvalidAbi);
                },
            };
            Ok(
                StakesTuple {
                    remaining_amount: ra,
                    last_withdrawal_time: lw,
                    withdrawal_period: wp,
                    withdrawal_value: wv,
                    owner: ow,
                },
            )
        },
        _ => Err(DePoolError::InvalidAbi),
    }
}

/// What decoding the entries of a 64-bit-keyed map of stake tuples
/// yields, a later duplicate key overriding an earlier one.
pub open spec fn spec_decode_stake_map_entries(s: Seq<MapEntry>) -> Result<
    Map<u64, StakesTuple>,
    DePoolError,
>
    decreases s.len(),
{
    if s.len() == 0 {
        Ok(Map::empty())
    } else {
        match spec_decode_stake_map_entries(s.drop_last()) {
            Ok(m) => match (
                parse_dec_u64(text_bytes(s.last().key@)),
                spec_decode_stakes_tuple(s.last().value),
            ) {
                (Some(k), Ok(v)) => Ok(m.insert(k, v)),
                _ => Err(DePoolError::InvalidAbi),
            },
            Err(e) => Err(e),
        }
    }
}

/// Once a prefix of the entries fails to decode, the whole map does.
pub proof fn lemma_stake_map_entries_err(s: Seq<MapEntry>, i: int)
    requires
        0 <= i <= s.len(),
        spec_decode_stake_map_entries(s.subrange(0, i)) == Err::<Map<u64, StakesTuple>, DePoolError>(
            DePoolError::InvalidAbi,
        ),
    ensures
        spec_decode_stake_map_entries(s) == Err::<Map<u64, StakesTuple>, DePoolError>(
            DePoolError::InvalidAbi,
        ),
    decreases s.len() - i,
{
    if i == s.len() {
        assert(s.subrange(0, i) =~= s);
    } else {
        assert(s.subrange(0, i + 1).drop_last() =~= s.subrange(0, i));
        lemma_stake_map_entries_err(s, i + 1);
    }
}

/// What decoding a map slot of 64-bit keys and stake-tuple values
/// yields: rejected unless the declared key type is a 64-bit unsigned
/// integer and the declared value type is a tuple.
pub open spec fn spec_decode_stake_map(v: Value) -> Result<Map<u64, StakesTuple>, DePoolError> {
    match v {
        Value::Mapping(kt, vt, entries) => if kt == ParamType::Uint(64) && vt is Tuple {
            spec_decode_stake_map_entries(entries@)
        } else {
            Err(DePoolError::InvalidAbi)
        },
        _ => Err(DePoolError::InvalidAbi),
    }
}

/// As `field_u64`, for a stake-map field.
pub open spec fn field_stake_map(s: Seq<NamedValue>, name: Seq<char>) -> Result<
    Map<u64, StakesTuple>,
    DePoolError,
> {
    match find_named(s, name) {
        Some(v) => spec_decode_stake_map(v),
        None => Err(DePoolError::InvalidAbi),
    }
}

/// Decodes a map slot of 64-bit keys and stake-tuple values into a
/// key-ordered mapping.
#[verifier::loop_isolation(false)]
pub fn decode_stake_map(v: &Value) -> (r: Result<OrderedMap<StakesTuple>, DePoolError>)
    ensures
        match r {
            Ok(m) => m.wf() && spec_decode_stake_map(*v) == Ok::<Map<u64, StakesTuple>, DePoolError>(
                m@,
            ),
            Err(e) => spec_decode_stake_map(*v) == Err::<Map<u64, StakesTuple>, DePoolError>(e),
        },
{
    match v {
        Value::Mapping(kt, vt, entries) => {
            match kt {
                ParamType::Uint(w) => {
                    if *w != 64 {
                        return Err(DePoolError::InvalidAbi);
                    }
                    assert(*kt == ParamType::Uint(64));
                },
                _ => {
                    return Err(DePoolError::InvalidAbi);
                },
            }
            match vt {
                ParamType::Tuple(_) => {},
                _ => {
                    return Err(DePoolError::InvalidAbi);
                },
            }
            let mut m = OrderedMap::<StakesTuple>::new();
            let n = entries.len();
            let mut i: usize = 0;
            while i < n
                invariant
                    0 <= i <= n,
                    m.wf(),
                    spec_decode_stake_map_entries(entries@.subrange(0, i as int)) == Ok::<
                        Map<u64, StakesTuple>,
                        DePoolError,
                    >(m@),
                decreases n - i,
            {
                proof {
                    assert(entries@.subrange(0, i as int + 1).drop_last() =~= entries@.subrange(
                        0,
                        i as int,
                    ));
                    assert(entries@.subrange(0, i as int + 1).last() == entries@[i as int]);
                }
                let key = match parse_u64(entries[i].key.as_str()) {
                    Some(k) => k,
                    None => {
                        proof {
                            lemma_stake_map_entries_err(entries@, i as int + 1);
                        }
                        return Err(DePoolError::InvalidAbi);
                    },
                };
                let val = match decode_stakes_tuple(&entries[i].value) {
                    Ok(x) => x,
                    Err(_) => {
                        proof {
                            lemma_stake_map_entries_err(entries@, i as int + 1);
                        }
                        return Err(DePoolError::InvalidAbi);
                    },
                };
                m.insert(key, val);
                i = i + 1;
            }
            proof {
                assert(entries@.subrange(0, n as int) =~= entries@);
            }
            Ok(m)
        },
        _ => Err(DePoolError::InvalidAbi),
    }
}

/// The raw decode of the participant-info output tuple, one field per
/// declared output parameter.
pub struct GetParticipantInfoOutput {
    pub total: u64,
    pub withdraw_value: u64,
    pub reinvest: bool,
    pub reward: u64,
    pub stakes: OrderedMap<u64>,
    pub vestings: OrderedMap<StakesTuple>,
    pub locks: OrderedMap<StakesTuple>,
    pub vesting_donor: Address,
    pub lock_donor: Address,
}

/// Whether the participant-info tuple decodes to exactly this raw output.
pub open spec fn participant_output_ok(tokens: Seq<NamedValue>, out: GetParticipantInfoOutput) -> bool {
    &&& tokens.len() == 9
    &&& field_u64(tokens, "total"@) == Ok::<u64, DePoolError>(out.total)
    &&& field_u64(tokens, "withdrawValue"@) == Ok::<u64, DePoolError>(out.withdraw_value)
    &&& field_bool(tokens, "reinvest"@) == Ok::<bool, DePoolError>(out.reinvest)
    &&& field_u64(tokens, "reward"@) == Ok::<u64, DePoolError>(out.reward)
    &&& out.stakes.wf()
    &&& field_map_u64(tokens, "stakes"@) == Ok::<Map<u64, u64>, DePoolError>(out.stakes@)
    &&& out.vestings.wf()
    &&& field_stake_map(tokens, "vestings"@) == Ok::<Map<u64, StakesTuple>, DePoolError>(
        out.vestings@,
    )
    &&& out.locks.wf()
    &&& field_stake_map(tokens, "locks"@) == Ok::<Map<u64, StakesTuple>, DePoolError>(out.locks@)
    &&& field_address(tokens, "vestingDonor"@) == Ok::<Address, DePoolError>(out.vesting_donor)
    &&& field_address(tokens, "lockDonor"@) == Ok::<Address, DePoolError>(out.lock_donor)
}

/// Whether the participant-info tuple is rejected: a wrong number of
/// values, or some named value missing or mistyped.
pub open spec fn participant_tuple_rejected(tokens: Seq<NamedValue>) -> bool {
    ||| tokens.len() != 9
    ||| field_u64(tokens, "total"@) is Err
    ||| field_u64(tokens, "withdrawValue"@) is Err
    ||| field_bool(tokens, "reinvest"@) is Err
    ||| field_u64(tokens, "reward"@) is Err
    ||| field_map_u64(tokens, "stakes"@) is Err
    ||| field_stake_map(tokens, "vestings"@) is Err
    ||| field_stake_map(tokens, "locks"@) is Err
    ||| field_address(tokens, "vestingDonor"@) is Err
    ||| field_address(tokens, "lockDonor"@) is Err
}

impl GetParticipantInfoOutput {
    /// Decodes the nine named output values of the participant query;
    /// a missing or extra value, or any mistyped one, is rejected.
    pub fn unpack(tokens: &Vec<NamedValue>) -> (r: Result<Self, DePoolError>)
        ensures
            match r {
                Ok(out) => participant_output_ok(tokens@, out),
                Err(e) => e == DePoolError::InvalidAbi && participant_tuple_rejected(tokens@),
            },
    {
        if tokens.len() != 9 {
            return Err(DePoolError::InvalidAbi);
        }
        let total = match get_named(tokens, "total") {
            Some(x) => match decode_u64(x) {
                Ok(n) => n,
                Err(_) => {
                    return Err(DePoolError::InvalidAbi);
                },
            },
            None => {
                return Err(DePoolError::InvalidAbi);
            },
        };
        let withdraw_value = match get_named(tokens, "withdrawValue") {
            Some(x) => match decode_u64(x) {
                Ok(n) => n,
                Err(_) => {
                    return Err(DePoolError::InvalidAbi);
                },
            },
            None => {
                return Err(DePoolError::InvalidAbi);
            },
        };
        let reinvest = match get_named(tokens, "reinvest") {
            Some(x) => match decode_bool(x) {
                Ok(b) => b,
                Err(_) => {
                    return Err(DePoolError::InvalidAbi);
                },
            },
            None => {
                return Err(DePoolError::InvalidAbi);
            },
        };
        let reward = match get_named(tokens, "reward") {
            Some(x) => match decode_u64(x) {
                Ok(n) => n,
                Err(_) => {
                    return Err(DePoolError::InvalidAbi);
                },
            },
            None => {
                return Err(DePoolError::InvalidAbi);
            },
        };
        let stakes = match get_named(tokens, "stakes") {
            Some(x) => match decode_map_u64_u64(x) {
                Ok(m) => m,
                Err(_) => {
                    return Err(DePoolError::InvalidAbi);
                },
            },
            None => {
                return Err(DePoolError::InvalidAbi);
            },
        };
        let vestings = match get_named(tokens, "vestings") {
            Some(x) => match decode_stake_map(x) {
                Ok(m) => m,
                Err(_) => {
                    return Err(DePoolError::InvalidAbi);
                },
            },
            None => {
                return Err(DePoolError::InvalidAbi);
            },
        };
        let locks = match get_named(tokens, "locks") {
            Some(x) => match decode_stake_map(x) {
                Ok(m) => m,
                Err(_) => {
                    return Err(DePoolError::InvalidAbi);
                },
            },
            None => {
                return Err(DePoolError::InvalidAbi);
            },
        };
        let vesting_donor = match get_named(tokens, "vestingDonor") {
            Some(x) => match decode_address(x) {
                Ok(a) => a,
                Err(_) => {
                    return Err(DePoolError::InvalidAbi);
                },
            },
            None => {
                return Err(DePoolError::InvalidAbi);
            },
        };
        let lock_donor = match get_named(tokens, "lockDonor") {
            Some(x) => match decode_address(x) {
                Ok(a) => a,
                Err(_) => {
                    return Err(DePoolError::InvalidAbi);
                },
            },
            None => {
                return Err(DePoolError::InvalidAbi);
            },
        };
        Ok(
            GetParticipantInfoOutput {
                total,
                withdraw_value,
                reinvest,
                reward,
                stakes,
                vestings,
                locks,
                vesting_donor,
                lock_donor,
            },
        )
    }
}

/// One vesting or lock stake in the public participant record.
#[derive(Clone, Copy, Debug, PartialEq, Eq)]
pub struct ParticipantStake {
    pub remaining_amount: u64,
    pub last_withdrawal_time: u64,
    pub withdrawal_period: u32,
    pub withdrawal_value: u64,
    pub owner: Address,
}

/// The pure, total transform from a raw stake tuple to its public form.
pub open spec fn spec_participant_stake(s: StakesTuple) -> ParticipantStake {
    ParticipantStake {
        remaining_amount: s.remaining_amount,
        last_withdrawal_time: s.last_withdrawal_time,
        withdrawal_period: s.withdrawal_period,
        withdrawal_value: s.withdrawal_value,
        owner: s.owner,
    }
}

/// The same transform applied to every value of a stake map.
pub open spec fn convert_stake_map(m: Map<u64, StakesTuple>) -> Map<u64, ParticipantStake> {
    Map::new(|k: u64| m.contains_key(k), |k: u64| spec_participant_stake(m[k]))
}

/// Converting commutes with inserting one pair.
pub proof fn lemma_convert_insert(m: Map<u64, StakesTuple>, k: u64, v: StakesTuple)
    ensures
        convert_stake_map(m.insert(k, v)) == convert_stake_map(m).insert(
            k,
            spec_participant_stake(v),
        ),
{
    let a = convert_stake_map(m.insert(k, v));
    let b = convert_stake_map(m).insert(k, spec_participant_stake(v));
    assert_maps_equal!(a, b, key => {});
}

/// Rewrites every stake of a key-ordered map into its public form,
/// keeping the keys and their order.
#[verifier::loop_isolation(false)]
fn convert_stakes(src: &OrderedMap<StakesTuple>) -> (r: OrderedMap<ParticipantStake>)
    requires
        src.wf(),
    ensures
        r.wf(),
        r@ == convert_stake_map(src@),
{
    proof {
        src.lemma_view();
    }
    let mut out = OrderedMap::<ParticipantStake>::new();
    let n = src.len();
    let mut i: usize = 0;
    proof {
        assert(src.kv().subrange(0, 0) =~= Seq::<(u64, StakesTuple)>::empty());
        assert(out@ =~= convert_stake_map(map_of(src.kv().subrange(0, 0))));
    }
    while i < n
        invariant
            0 <= i <= n,
            out.wf(),
            out@ == convert_stake_map(map_of(src.kv().subrange(0, i as int))),
        decreases n - i,
    {
        let e = src.entry_at(i);
        let stake = ParticipantStake {
            remaining_amount: e.1.remaining_amount,
            last_withdrawal_time: e.1.last_withdrawal_time,
            withdrawal_period: e.1.withdrawal_period,
            withdrawal_value: e.1.withdrawal_value,
            owner: e.1.owner,
        };
        proof {
            assert(src.kv().subrange(0, i as int + 1).drop_last() =~= src.kv().subrange(
                0,
                i as int,
            ));
            assert(src.kv().subrange(0, i as int + 1).last() == src.kv()[i as int]);
            lemma_convert_insert(map_of(src.kv().subrange(0, i as int)), e.0, e.1);
        }
        out.insert(e.0, stake);
        i = i + 1;
    }
    proof {
        assert(src.kv().subrange(0, n as int) =~= src.kv());
        src.lemma_view_def();
    }
    out
}

/// The public participant record: what the contract reports for one
/// participant, with the vesting and lock stakes in their public form.
pub struct ParticipantInfo {
    pub total: u64,
    pub withdraw_value: u64,
    pub reinvest: bool,
    pub reward: u64,
    pub stakes: OrderedMap<u64>,
    pub vestings: OrderedMap<ParticipantStake>,
    pub locks: OrderedMap<ParticipantStake>,
    pub vesting_donor: Address,
    pub lock_donor: Address,
}

/// Whether the participant-info tuple decodes to exactly this public
/// record: the raw fields carried over, each vesting and lock stake in
/// its public form under its original key.
pub open spec fn participant_info_ok(tokens: Seq<NamedValue>, info: ParticipantInfo) -> bool {
    &&& tokens.len() == 9
    &&& field_u64(tokens, "total"@) == Ok::<u64, DePoolError>(info.total)
    &&& field_u64(tokens, "withdrawValue"@) == Ok::<u64, DePoolError>(info.withdraw_value)
    &&& field_bool(tokens, "reinvest"@) == Ok::<bool, DePoolError>(info.reinvest)
    &&& field_u64(tokens, "reward"@) == Ok::<u64, DePoolError>(info.reward)
    &&& info.stakes.wf()
    &&& field_map_u64(tokens, "stakes"@) == Ok::<Map<u64, u64>, DePoolError>(info.stakes@)
    &&& info.vestings.wf()
    &&& field_stake_map(tokens, "vestings"@) matches Ok(m) && info.vestings@ == convert_stake_map(
        m,
    )
    &&& info.locks.wf()
    &&& field_stake_map(tokens, "locks"@) matches Ok(m) && info.locks@ == convert_stake_map(m)
    &&& field_address(tokens, "vestingDonor"@) == Ok::<Address, DePoolError>(info.vesting_donor)
    &&& field_address(tokens, "lockDonor"@) == Ok::<Address, DePoolError>(info.lock_donor)
}

impl ParticipantInfo {
    /// Decodes the participant-info output tuple and applies the pure
    /// transform to the public record; all fallibility lies in the
    /// decode, never in the transform.
    pub fn try_from(tokens: Vec<NamedValue>) -> (r: Result<ParticipantInfo, DePoolError>)
        ensures
            match r {
                Ok(info) => participant_info_ok(tokens@, info),
                Err(e) => e == DePoolError::InvalidAbi && participant_tuple_rejected(tokens@),
            },
    {
        let data = match GetParticipantInfoOutput::unpack(&tokens) {
            Ok(d) => d,
            Err(e) => {
                return Err(e);
            },
        };
        let vestings = convert_stakes(&data.vestings);
        let locks = convert_stakes(&data.locks);
        Ok(
            ParticipantInfo {
                total: data.total,
                withdraw_value: data.withdraw_value,
                reinvest: data.reinvest,
                reward: data.reward,
                stakes: data.stakes,
                vestings,
                locks,
                vesting_donor: data.vesting_donor,
                lock_donor: data.lock_donor,
            },
        )
    }
}

/// The raw decode of the pool-info output tuple, one field per
/// declared output parameter.
pub struct GetDePoolInfoOutput {
    pub pool_closed: bool,
    pub min_stake: u64,
    pub validator_assurance: u64,
    pub participant_reward_fraction: u8,
    pub validator_reward_fraction: u8,
    pub balance_threshold: u64,
    pub validator_wallet: Address,
    pub proxies: Vec<Address>,
    pub stake_fee: u64,
    pub ret_or_reinv_fee: u64,
    pub proxy_fee: u64,
}

/// Whether the pool-info tuple decodes to exactly this raw output.
pub open spec fn depool_output_ok(tokens: Seq<NamedValue>, out: GetDePoolInfoOutput) -> bool {
    &&& tokens.len() == 11
    &&& field_bool(tokens, "poolClosed"@) == Ok::<bool, DePoolError>(out.pool_closed)
    &&& field_u64(tokens, "minStake"@) == Ok::<u64, DePoolError>(out.min_stake)
    &&& field_u64(tokens, "validatorAssurance"@) == Ok::<u64, DePoolError>(out.validator_assurance)
    &&& field_u8(tokens, "participantRewardFraction"@) == Ok::<u8, DePoolError>(
        out.participant_reward_fraction,
    )
    &&& field_u8(tokens, "validatorRewardFraction"@) == Ok::<u8, DePoolError>(
        out.validator_reward_fraction,
    )
    &&& field_u64(tokens, "balanceThreshold"@) == Ok::<u64, DePoolError>(out.balance_threshold)
    &&& field_address(tokens, "validatorWallet"@) == Ok::<Address, DePoolError>(
        out.validator_wallet,
    )
    &&& field_address_array(tokens, "proxies"@) == Ok::<Seq<Address>, DePoolError>(out.proxies@)
    &&& field_u64(tokens, "stakeFee"@) == Ok::<u64, DePoolError>(out.stake_fee)
    &&& field_u64(tokens, "retOrReinvFee"@) == Ok::<u64, DePoolError>(out.ret_or_reinv_fee)
    &&& field_u64(tokens, "proxyFee"@) == Ok::<u64, DePoolError>(out.proxy_fee)
}

/// Whether the pool-info tuple is rejected: a wrong number of values,
/// or some named value missing or mistyped.
pub open spec fn depool_tuple_rejected(tokens: Seq<NamedValue>) -> bool {
    ||| tokens.len() != 11
    ||| field_bool(tokens, "poolClosed"@) is Err
    ||| field_u64(tokens, "minStake"@) is Err
    ||| field_u64(tokens, "validatorAssurance"@) is Err
    ||| field_u8(tokens, "participantRewardFraction"@) is Err
    ||| field_u8(tokens, "validatorRewardFraction"@) is Err
    ||| field_u64(tokens, "balanceThreshold"@) is Err
    ||| field_address(tokens, "validatorWallet"@) is Err
    ||| field_address_array(tokens, "proxies"@) is Err
    ||| field_u64(tokens, "stakeFee"@) is Err
    ||| field_u64(tokens, "retOrReinvFee"@) is Err
    ||| field_u64(tokens, "proxyFee"@) is Err
}

impl GetDePoolInfoOutput {
    /// Decodes the eleven named output values of the pool query;
    /// a missing or extra value, or any mistyped one, is rejected.
    pub fn unpack(tokens: &Vec<NamedValue>) -> (r: Result<Self, DePoolError>)
        ensures
            match r {
                Ok(out) => depool_output_ok(tokens@, out),
                Err(e) => e == DePoolError::InvalidAbi && depool_tuple_rejected(tokens@),
            },
    {
        if tokens.len() != 11 {
            return Err(DePoolError::InvalidAbi);
        }
        let pool_closed = match get_named(tokens, "poolClosed") {
            Some(x) => match decode_bool(x) {
                Ok(b) => b,
                Err(_) => {
                    return Err(DePoolError::InvalidAbi);
                },
            },
            None => {
                return Err(DePoolError::InvalidAbi);
            },
        };
        let min_stake = match get_named(tokens, "minStake") {
            Some(x) => match decode_u64(x) {
                Ok(n) => n,
                Err(_) => {
                    return Err(DePoolError::InvalidAbi);
                },
            },
            None => {
                return Err(DePoolError::InvalidAbi);
            },
        };
        let validator_assurance = match get_named(tokens, "validatorAssurance") {
            Some(x) => match decode_u64(x) {
                Ok(n) => n,
                Err(_) => {
                    return Err(DePoolError::InvalidAbi);
                },
            },
            None => {
                return Err(DePoolError::InvalidAbi);
            },
        };
        let participant_reward_fraction = match get_named(tokens, "participantRewardFraction") {
            Some(x) => match decode_u8(x) {
                Ok(n) => n,
                Err(_) => {
                    return Err(DePoolError::InvalidAbi);
                },
            },
            None => {
                return Err(DePoolError::InvalidAbi);
            },
        };
        let validator_reward_fraction = match get_named(tokens, "validatorRewardFraction") {
            Some(x) => match decode_u8(x) {
                Ok(n) => n,
                Err(_) => {
                    return Err(DePoolError::InvalidAbi);
                },
            },
            None => {
                return Err(DePoolError::InvalidAbi);
            },
        };
        let balance_threshold = match get_named(tokens, "balanceThreshold") {
            Some(x) => match decode_u64(x) {
                Ok(n) => n,
                Err(_) => {
                    return Err(DePoolError::InvalidAbi);
                },
            },
            None => {
                return Err(DePoolError::InvalidAbi);
            },
        };
        let validator_wallet = match get_named(tokens, "validatorWallet") {
            Some(x) => match decode_address(x) {
                Ok(a) => a,
                Err(_) => {
                    return Err(DePoolError::InvalidAbi);
                },
            },
            None => {
                return Err(DePoolError::InvalidAbi);
            },
        };
        let proxies = match get_named(tokens, "proxies") {
            Some(x) => match decode_address_array(x) {
                Ok(a) => a,
                Err(_) => {
                    return Err(DePoolError::InvalidAbi);
                },
            },
            None => {
                return Err(DePoolError::InvalidAbi);
            },
        };
        let stake_fee = match get_named(tokens, "stakeFee") {
            Some(x) => match decode_u64(x) {
                Ok(n) => n,
                Err(_) => {
                    return Err(DePoolError::InvalidAbi);
                },
            },
            None => {
                return Err(DePoolError::InvalidAbi);
            },
        };
        let ret_or_reinv_fee = match get_named(tokens, "retOrReinvFee") {
            Some(x) => match decode_u64(x) {
                Ok(n) => n,
                Err(_) => {
                    return Err(DePoolError::InvalidAbi);
                },
            },
            None => {
                return Err(DePoolError::InvalidAbi);
            },
        };
        let proxy_fee = match get_named(tokens, "proxyFee") {
            Some(x) => match decode_u64(x) {
                Ok(n) => n,
                Err(_) => {
                    return Err(DePoolError::InvalidAbi);
                },
            },
            None => {
                return Err(DePoolError::InvalidAbi);
            },
        };
        Ok(
            GetDePoolInfoOutput {
                pool_closed,
                min_stake,
                validator_assurance,
                participant_reward_fraction,
                validator_reward_fraction,
                balance_threshold,
                validator_wallet,
                proxies,
                stake_fee,
                ret_or_reinv_fee,
                proxy_fee,
            },
        )
    }
}

/// The public pool record: what the contract reports about the pool
/// itself. The transform from the raw decode is pure and total.
pub struct DePoolInfo {
    pub pool_closed: bool,
    pub min_stake: u64,
    pub validator_assurance: u64,
    pub participant_reward_fraction: u8,
    pub validator_reward_fraction: u8,
    pub balance_threshold: u64,
    pub validator_wallet: Address,
    pub proxies: Vec<Address>,
    pub stake_fee: u64,
    pub ret_or_reinv_fee: u64,
    pub proxy_fee: u64,
}

/// Whether the pool-info tuple decodes to exactly this public record.
pub open spec fn depool_info_ok(tokens: Seq<NamedValue>, info: DePoolInfo) -> bool {
    &&& tokens.len() == 11
    &&& field_bool(tokens, "poolClosed"@) == Ok::<bool, DePoolError>(info.pool_closed)
    &&& field_u64(tokens, "minStake"@) == Ok::<u64, DePoolError>(info.min_stake)
    &&& field_u64(tokens, "validatorAssurance"@) == Ok::<u64, DePoolError>(
        info.validator_assurance,
    )
    &&& field_u8(tokens, "participantRewardFraction"@) == Ok::<u8, DePoolError>(
        info.participant_reward_fraction,
    )
    &&& field_u8(tokens, "validatorRewardFraction"@) == Ok::<u8, DePoolError>(
        info.validator_reward_fraction,
    )
    &&& field_u64(tokens, "balanceThreshold"@) == Ok::<u64, DePoolError>(info.balance_threshold)
    &&& field_address(tokens, "validatorWallet"@) == Ok::<Address, DePoolError>(
        info.validator_wallet,
    )
    &&& field_address_array(tokens, "proxies"@) == Ok::<Seq<Address>, DePoolError>(info.proxies@)
    &&& field_u64(tokens, "stakeFee"@) == Ok::<u64, DePoolError>(info.stake_fee)
    &&& field_u64(tokens, "retOrReinvFee"@) == Ok::<u64, DePoolError>(info.ret_or_reinv_fee)
    &&& field_u64(tokens, "proxyFee"@) == Ok::<u64, DePoolError>(info.proxy_fee)
}

impl DePoolInfo {
    /// Decodes the pool-info output tuple into the public record.
    pub fn try_from(tokens: Vec<NamedValue>) -> (r: Result<DePoolInfo, DePoolError>)
        ensures
            match r {
                Ok(info) => depool_info_ok(tokens@, info),
                Err(e) => e == DePoolError::InvalidAbi && depool_tuple_rejected(tokens@),
            },
    {
        let data = match GetDePoolInfoOutput::unpack(&tokens) {
            Ok(d) => d,
            Err(e) => {
                return Err(e);
            },
        };
        Ok(
            DePoolInfo {
                pool_closed: data.pool_closed,
                min_stake: data.min_stake,
                validator_assurance: data.validator_assurance,
                participant_reward_fraction: data.participant_reward_fraction,
                validator_reward_fraction: data.validator_reward_fraction,
                balance_threshold: data.balance_threshold,
                validator_wallet: data.validator_wallet,
                proxies: data.proxies,
                stake_fee: data.stake_fee,
                ret_or_reinv_fee: data.ret_or_reinv_fee,
                proxy_fee: data.proxy_fee,
            },
        )
    }
}

} // verus!
