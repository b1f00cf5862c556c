use vstd::prelude::*;

use crate::codec::encode_address;
use crate::codec::spec_encode_address;
use crate::models::depool_info_ok;
use crate::models::depool_tuple_rejected;
use crate::models::participant_info_ok;
use crate::models::participant_tuple_rejected;
use crate::models::DePoolInfo;
use crate::models::ParticipantInfo;
use crate::value::Address;
use crate::value::NamedValue;
use crate::DePoolError;

verus! {

/// A read-only capture of a contract's persisted state, as the
/// external executor collaborator consumes it: the account data and
/// the timing and last-transaction metadata of the capture. This core
/// never reads inside it and never mutates it.
pub struct ExecutionSnapshot {
    pub account: Vec<u8>,
    pub gen_utime: u32,
    pub gen_lt: u64,
    pub last_transaction_lt: u64,
    pub last_transaction_hash: Vec<u8>,
}

/// What the state transport reports for an address: no persisted state
/// at all, or a snapshot of it.
pub enum ContractState {
    NotExists,
    Exists(ExecutionSnapshot),
}

/// What local, non-mutating execution by the collaborator yields: the
/// exit code, and the output values exactly when the run produced any.
pub struct ExecutionOutput {
    pub result_code: i32,
    pub tokens: Option<Vec<NamedValue>>,
}

/// Classifies a read-only invocation: a missing contract always fails
/// with `UnknownContract`, whatever was to be executed and whatever
/// the execution yielded; a run without output values always fails
/// with `NonZeroResultCode`; otherwise the output values are handed
/// back untouched.
pub fn invoke_readonly(state: &ContractState, execution: ExecutionOutput) -> (r: Result<
    Vec<NamedValue>,
    DePoolError,
>)
    ensures
        state is NotExists ==> r == Err::<Vec<NamedValue>, DePoolError>(
            DePoolError::UnknownContract,
        ),
        state is Exists && execution.tokens is None ==> r == Err::<Vec<NamedValue>, DePoolError>(
            DePoolError::NonZeroResultCode,
        ),
        state is Exists ==> (execution.tokens matches Some(t) ==> r == Ok::<
            Vec<NamedValue>,
            DePoolError,
        >(t)),
{
    match state {
        ContractState::NotExists => Err(DePoolError::UnknownContract),
        ContractState::Exists(_) => match execution.tokens {
            Some(t) => Ok(t),
            None => Err(DePoolError::NonZeroResultCode),
        },
    }
}

/// A staking-pool view over one existing contract's snapshot.
pub struct DePoolContractState<'a>(pub &'a ExecutionSnapshot);

impl<'a> DePoolContractState<'a> {
    /// The argument sequence of the participant query: the queried
    /// wallet address under the declared parameter name.
    pub fn participant_info_inputs(&self, address: Address) -> (r: Vec<NamedValue>)
        ensures
            r@.len() == 1,
            r@[0].name@ == "addr"@,
            r@[0].value == spec_encode_address(address),
    {
        let mut inputs: Vec<NamedValue> = Vec::new();
        inputs.push(NamedValue { name: "addr".to_owned(), value: encode_address(address) });
        inputs
    }

    /// Turns what executing the participant query yielded into the
    /// public record: no output values fail with `NonZeroResultCode`,
    /// and a malformed output tuple with `InvalidAbi`.
    pub fn get_participant_info(&self, execution: ExecutionOutput) -> (r: Result<
        ParticipantInfo,
        DePoolError,
    >)
        ensures
            execution.tokens is None ==> r == Err::<ParticipantInfo, DePoolError>(
                DePoolError::NonZeroResultCode,
            ),
            execution.tokens matches Some(t) ==> match r {
                Ok(info) => participant_info_ok(t@, info),
                Err(e) => e == DePoolError::InvalidAbi && participant_tuple_rejected(t@),
            },
    {
        match execution.tokens {
            Some(t) => ParticipantInfo::try_from(t),
            None => Err(DePoolError::NonZeroResultCode),
        }
    }

    /// Turns what executing the pool query yielded into the public
    /// record, classifying failures as `get_participant_info` does.
    pub fn get_depool_info(&self, execution: ExecutionOutput) -> (r: Result<
        DePoolInfo,
        DePoolError,
    >)
        ensures
            execution.tokens is None ==> r == Err::<DePoolInfo, DePoolError>(
                DePoolError::NonZeroResultCode,
            ),
            execution.tokens matches Some(t) ==> match r {
                Ok(info) => depool_info_ok(t@, info),
                Err(e) => e == DePoolError::InvalidAbi && depool_tuple_rejected(t@),
            },
    {
        match execution.tokens {
            Some(t) => DePoolInfo::try_from(t),
            None => Err(DePoolError::NonZeroResultCode),
        }
    }
}

/// The whole participant query, given what the collaborators reported:
/// a missing contract always fails with `UnknownContract`, whatever
/// the execution yielded; an output-less run fails with
/// `NonZeroResultCode`; a well-formed output tuple decodes to the
/// public record.
pub fn get_participant_info(state: &ContractState, execution: ExecutionOutput) -> (r: Result<
    ParticipantInfo,
    DePoolError,
>)
    ensures
        state is NotExists ==> r == Err::<ParticipantInfo, DePoolError>(
            DePoolError::UnknownContract,
        ),
        state is Exists && execution.tokens is None ==> r == Err::<ParticipantInfo, DePoolError>(
            DePoolError::NonZeroResultCode,
        ),
        state is Exists ==> (execution.tokens matches Some(t) ==> match r {
            Ok(info) => participant_info_ok(t@, info),
            Err(e) => e == DePoolError::InvalidAbi && participant_tuple_rejected(t@),
        }),
{
    match state {
        ContractState::NotExists => Err(DePoolError::UnknownContract),
        ContractState::Exists(snapshot) => DePoolContractState(snapshot).get_participant_info(
            execution,
        ),
    }
}

/// The whole pool query, classified as `get_participant_info` is.
pub fn get_depool_info(state: &ContractState, execution: ExecutionOutput) -> (r: Result<
    DePoolInfo,
    DePoolError,
>)
    ensures
        state is NotExists ==> r == Err::<DePoolInfo, DePoolError>(DePoolError::UnknownContract),
        state is Exists && execution.tokens is None ==> r == Err::<DePoolInfo, DePoolError>(
            DePoolError::NonZeroResultCode,
        ),
        state is Exists ==> (execution.tokens matches Some(t) ==> match r {
            Ok(info) => depool_info_ok(t@, info),
            Err(e) => e == DePoolError::InvalidAbi && depool_tuple_rejected(t@),
        }),
{
    match state {
        ContractState::NotExists => Err(DePoolError::UnknownContract),
        ContractState::Exists(snapshot) => DePoolContractState(snapshot).get_depool_info(execution),
    }
}

} // verus!
