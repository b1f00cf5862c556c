use vstd::prelude::*;

use crate::value::Param;
use crate::value::ParamType;
use crate::DePoolError;

verus! {

/// The selector the embedded interface definition assigns to the
/// participant query.
pub const GET_PARTICIPANT_INFO_ID: u32 = 0x4e731001;

/// The selector the embedded interface definition assigns to the pool
/// query.
pub const GET_DEPOOL_INFO_ID: u32 = 0x4e731002;

/// The selector the embedded interface definition assigns to the
/// stake-adding call.
pub const ADD_ORDINARY_STAKE_ID: u32 = 0x4e731003;

/// The selector the embedded interface definition assigns to the
/// partial-withdrawal call.
pub const WITHDRAW_PART_ID: u32 = 0x4e731004;

/// One callable function of an interface: its name, its selector, and
/// its declared input and output parameters in order.
pub struct FunctionSignature {
    pub name: String,
    pub id: u32,
    pub inputs: Vec<Param>,
    pub outputs: Vec<Param>,
}

/// An immutable table of named functions.
pub struct InterfaceSchema {
    pub functions: Vec<FunctionSignature>,
}

/// The first function under the given name, scanning left to right.
pub open spec fn find_function(s: Seq<FunctionSignature>, name: Seq<char>) -> Option<
    FunctionSignature,
>
    decreases s.len(),
{
    if s.len() == 0 {
        None
    } else if s[0].name@ == name {
        Some(s[0])
    } else {
        find_function(s.drop_first(), name)
    }
}

/// A function standing at a position before which its name does not
/// occur is what the lookup finds.
pub proof fn lemma_find_function_at(s: Seq<FunctionSignature>, name: Seq<char>, i: int)
    requires
        0 <= i < s.len(),
        s[i].name@ == name,
        forall|j: int| 0 <= j < i ==> s[j].name@ != name,
    ensures
        find_function(s, name) == Some(s[i]),
    decreases i,
{
    if i > 0 {
        lemma_find_function_at(s.drop_first(), name, i - 1);
        assert(s.drop_first()[i - 1] == s[i]);
        assert(forall|j: int| 0 <= j < i - 1 ==> s.drop_first()[j] == s[j + 1]);
    }
}

impl InterfaceSchema {
    /// Looks a function up by name; `UnknownFunction` exactly when the
    /// schema holds no function of that name.
    #[verifier::loop_isolation(false)]
    pub fn function(&self, name: &str) -> (r: Result<&FunctionSignature, DePoolError>)
        ensures
            match r {
                Ok(f) => find_function(self.functions@, name@) == Some(*f),
                Err(e) => e == DePoolError::UnknownFunction && find_function(
                    self.functions@,
                    name@,
                ) is None,
            },
    {
        let wanted: String = name.to_owned();
        let n = self.functions.len();
        let mut i: usize = 0;
        proof {
            assert(self.functions@.skip(0) =~= self.functions@);
        }
        while i < n
            invariant
                0 <= i <= n,
                find_function(self.functions@, name@) == find_function(
                    self.functions@.skip(i as int),
                    name@,
                ),
            decreases n - i,
        {
            if self.functions[i].name == wanted {
                proof {
                    assert(self.functions@.skip(i as int)[0] == self.functions@[i as int]);
                }
                return Ok(&self.functions[i]);
            }
            proof {
                assert(self.functions@.skip(i as int)[0] == self.functions@[i as int]);
                assert(self.functions@.skip(i as int).drop_first() =~= self.functions@.skip(
                    i as int + 1,
                ));
            }
            i = i + 1;
        }
        proof {
            assert(self.functions@.skip(n as int).len() == 0);
        }
        Err(DePoolError::UnknownFunction)
    }
}

/// The declared parameters of one vesting or lock stake tuple.
fn stakes_tuple_params() -> Vec<Param> {
    let mut ps: Vec<Param> = Vec::new();
    ps.push(Param { name: "remainingAmount".to_owned(), kind: ParamType::Uint(64) });
    ps.push(Param { name: "lastWithdrawalTime".to_owned(), kind: ParamType::Uint(64) });
    ps.push(Param { name: "withdrawalPeriod".to_owned(), kind: ParamType::Uint(32) });
    ps.push(Param { name: "withdrawalValue".to_owned(), kind: ParamType::Uint(64) });
    ps.push(Param { name: "owner".to_owned(), kind: ParamType::Address });
    ps
}

/// The embedded declarative interface definition of the staking pool:
/// the four callable functions with their parameter trees. Built
/// afresh on demand and immutable thereafter; an explicit instance is
/// passed to the operations rather than hidden process-wide state.
pub fn depool_v3() -> (r: InterfaceSchema)
    ensures
        r.functions@.len() == 4,
        r.functions@[0].name@ == "getParticipantInfo"@,
        r.functions@[0].id == GET_PARTICIPANT_INFO_ID,
        r.functions@[0].inputs@.len() == 1,
        r.functions@[0].inputs@[0].name@ == "addr"@,
        r.functions@[0].inputs@[0].kind == ParamType::Address,
        r.functions@[1].name@ == "getDePoolInfo"@,
        r.functions@[1].id == GET_DEPOOL_INFO_ID,
        r.functions@[1].inputs@.len() == 0,
        r.functions@[2].name@ == "addOrdinaryStake"@,
        r.functions@[2].id == ADD_ORDINARY_STAKE_ID,
        r.functions@[2].inputs@.len() == 1,
        r.functions@[2].inputs@[0].name@ == "stake"@,
        r.functions@[2].inputs@[0].kind == ParamType::Uint(64),
        r.functions@[3].name@ == "withdrawPart"@,
        r.functions@[3].id == WITHDRAW_PART_ID,
        r.functions@[3].inputs@.len() == 1,
        r.functions@[3].inputs@[0].name@ == "withdrawValue"@,
        r.functions@[3].inputs@[0].kind == ParamType::Uint(64),
        find_function(r.functions@, "getParticipantInfo"@) == Some(r.functions@[0]),
        find_function(r.functions@, "getDePoolInfo"@) == Some(r.functions@[1]),
        find_function(r.functions@, "addOrdinaryStake"@) == Some(r.functions@[2]),
        find_function(r.functions@, "withdrawPart"@) == Some(r.functions@[3]),
{
    let mut participant_inputs: Vec<Param> = Vec::new();
    participant_inputs.push(Param { name: "addr".to_owned(), kind: ParamType::Address });
    let mut participant_outputs: Vec<Param> = Vec::new();
    participant_outputs.push(Param { name: "total".to_owned(), kind: ParamType::Uint(64) });
    participant_outputs.push(Param { name: "withdrawValue".to_owned(), kind: ParamType::Uint(64) });
    participant_outputs.push(Param { name: "reinvest".to_owned(), kind: ParamType::Bool });
    participant_outputs.push(Param { name: "reward".to_owned(), kind: ParamType::Uint(64) });
    participant_outputs.push(
        Param {
            name: "stakes".to_owned(),
            kind: ParamType::Mapping(
                Box::new(ParamType::Uint(64)),
                Box::new(ParamType::Uint(64)),
            ),
        },
    );
    participant_outputs.push(
        Param {
            name: "vestings".to_owned(),
            kind: ParamType::Mapping(
                Box::new(ParamType::Uint(64)),
                Box::new(ParamType::Tuple(stakes_tuple_params())),
            ),
        },
    );
    participant_outputs.push(
        Param {
            name: "locks".to_owned(),
            kind: ParamType::Mapping(
                Box::new(ParamType::Uint(64)),
                Box::new(ParamType::Tuple(stakes_tuple_params())),
            ),
        },
    );
    participant_outputs.push(Param { name: "vestingDonor".to_owned(), kind: ParamType::Address });
    participant_outputs.push(Param { name: "lockDonor".to_owned(), kind: ParamType::Address });

    let mut pool_outputs: Vec<Param> = Vec::new();
    pool_outputs.push(Param { name: "poolClosed".to_owned(), kind: ParamType::Bool });
    pool_outputs.push(Param { name: "minStake".to_owned(), kind: ParamType::Uint(64) });
    pool_outputs.push(Param { name: "validatorAssurance".to_owned(), kind: ParamType::Uint(64) });
    pool_outputs.push(
        Param { name: "participantRewardFraction".to_owned(), kind: ParamType::Uint(8) },
    );
    pool_outputs.push(
        Param { name: "validatorRewardFraction".to_owned(), kind: ParamType::Uint(8) },
    );
    pool_outputs.push(Param { name: "balanceThreshold".to_owned(), kind: ParamType::Uint(64) });
    pool_outputs.push(Param { name: "validatorWallet".to_owned(), kind: ParamType::Address });
    pool_outputs.push(
        Param { name: "proxies".to_owned(), kind: ParamType::Array(Box::new(ParamType::Address)) },
    );
    pool_outputs.push(Param { name: "stakeFee".to_owned(), kind: ParamType::Uint(64) });
    pool_outputs.push(Param { name: "retOrReinvFee".to_owned(), kind: ParamType::Uint(64) });
    pool_outputs.push(Param { name: "proxyFee".to_owned(), kind: ParamType::Uint(64) });

    let mut stake_inputs: Vec<Param> = Vec::new();
    stake_inputs.push(Param { name: "stake".to_owned(), kind: ParamType::Uint(64) });
    let mut withdraw_inputs: Vec<Param> = Vec::new();
    withdraw_inputs.push(Param { name: "withdrawValue".to_owned(), kind: ParamType::Uint(64) });

    let mut functions: Vec<FunctionSignature> = Vec::new();
    functions.push(
        FunctionSignature {
            name: "getParticipantInfo".to_owned(),
            id: GET_PARTICIPANT_INFO_ID,
            inputs: participant_inputs,
            outputs: participant_outputs,
        },
    );
    functions.push(
        FunctionSignature {
            name: "getDePoolInfo".to_owned(),
            id: GET_DEPOOL_INFO_ID,
            inputs: Vec::new(),
            outputs: pool_outputs,
        },
    );
    functions.push(
        FunctionSignature {
            name: "addOrdinaryStake".to_owned(),
            id: ADD_ORDINARY_STAKE_ID,
            inputs: stake_inputs,
            outputs: Vec::new(),
        },
    );
    functions.push(
        FunctionSignature {
            name: "withdrawPart".to_owned(),
            id: WITHDRAW_PART_ID,
            inputs: withdraw_inputs,
            outputs: Vec::new(),
        },
    );
    let schema = InterfaceSchema { functions };
    proof {
        reveal_strlit("getParticipantInfo");
        reveal_strlit("getDePoolInfo");
        reveal_strlit("addOrdinaryStake");
        reveal_strlit("withdrawPart");
        assert("getParticipantInfo"@.len() == 18);
        assert("getDePoolInfo"@.len() == 13);
        assert("addOrdinaryStake"@.len() == 16);
        assert("withdrawPart"@.len() == 12);
        let fs = schema.functions@;
        lemma_find_function_at(fs, "getParticipantInfo"@, 0);
        lemma_find_function_at(fs, "getDePoolInfo"@, 1);
        lemma_find_function_at(fs, "addOrdinaryStake"@, 2);
        lemma_find_function_at(fs, "withdrawPart"@, 3);
    }
    schema
}

} // verus!
