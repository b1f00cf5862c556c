use vstd::prelude::*;

pub mod abi;
pub mod codec;
pub mod laws;
pub mod message;
pub mod models;
pub mod ordered_map;
pub mod state;
pub mod text;
pub mod value;

pub use abi::depool_v3;
pub use abi::FunctionSignature;
pub use abi::InterfaceSchema;
pub use message::prepare_add_ordinary_stake;
pub use message::prepare_withdraw_part;
pub use message::CallPayload;
pub use message::MessageBuilder;
pub use message::OutboundMessage;
pub use models::DePoolInfo;
pub use models::GetDePoolInfoOutput;
pub use models::GetParticipantInfoOutput;
pub use models::ParticipantInfo;
pub use models::ParticipantStake;
pub use models::StakesTuple;
pub use ordered_map::OrderedMap;
pub use state::get_depool_info;
pub use state::get_participant_info;
pub use state::invoke_readonly;
pub use state::ContractState;
pub use state::DePoolContractState;
pub use state::ExecutionOutput;
pub use state::ExecutionSnapshot;
pub use value::Address;
pub use value::MapEntry;
pub use value::NamedValue;
pub use value::Param;
pub use value::ParamType;
pub use value::UintValue;
pub use value::Value;

verus! {

/// The error kinds this library reports.
#[derive(Clone, Copy, Debug, PartialEq, Eq, Structural)]
pub enum DePoolError {
    /// The target account has no persisted state.
    UnknownContract,
    /// Local execution produced no usable output.
    NonZeroResultCode,
    /// A schema lookup missed.
    UnknownFunction,
    /// A decode step found a value shape inconsistent with the declared type.
    InvalidAbi,
}

} // verus!
