use vstd::prelude::*;

use crate::abi::depool_v3;
use crate::abi::find_function;
use crate::abi::FunctionSignature;
use crate::abi::InterfaceSchema;
use crate::abi::ADD_ORDINARY_STAKE_ID;
use crate::abi::WITHDRAW_PART_ID;
use crate::codec::encode_u64;
use crate::codec::spec_encode_u64;
use crate::value::Address;
use crate::value::NamedValue;
use crate::value::ParamType;
use crate::DePoolError;

verus! {

/// An encoded call payload: the selector of the function being
/// invoked — the header is always present, never produced header-less —
/// followed by the argument sequence in declared order.
pub struct CallPayload {
    pub function_id: u32,
    pub args: Vec<NamedValue>,
}

/// An outbound contract-call message, ready for a transport
/// collaborator to submit: unbound to a sender at this layer.
pub struct OutboundMessage {
    pub source: Option<Address>,
    pub destination: Address,
    pub amount: u64,
    pub bounce: bool,
    pub body: CallPayload,
}

/// A typed-argument builder bound to exactly one function signature:
/// each `arg_u64` call appends one value under the next declared
/// parameter's name, and `build` consumes the builder, so reuse after
/// building is a compile-time error.
pub struct MessageBuilder<'a> {
    function: &'a FunctionSignature,
    args: Vec<NamedValue>,
}

impl<'a> MessageBuilder<'a> {
    /// The signature the builder is bound to.
    pub closed spec fn func(self) -> FunctionSignature {
        *self.function
    }

    /// The arguments appended so far.
    pub closed spec fn built(self) -> Seq<NamedValue> {
        self.args@
    }

    /// Binds a builder to the named function; `UnknownFunction`
    /// exactly when the schema holds no function of that name.
    pub fn new(schema: &'a InterfaceSchema, name: &str) -> (r: Result<
        MessageBuilder<'a>,
        DePoolError,
    >)
        ensures
            match r {
                Ok(b) => find_function(schema.functions@, name@) == Some(b.func()) && b.built()
                    == Seq::<NamedValue>::empty(),
                Err(e) => e == DePoolError::UnknownFunction && find_function(
                    schema.functions@,
                    name@,
                ) is None,
            },
    {
        match schema.function(name) {
            Ok(f) => Ok(MessageBuilder { function: f, args: Vec::new() }),
            Err(e) => Err(e),
        }
    }

    /// Appends one 64-bit unsigned argument, named after the next
    /// declared input parameter, which must be a 64-bit unsigned slot.
    pub fn arg_u64(self, v: u64) -> (r: Self)
        requires
            self.built().len() < self.func().inputs@.len(),
            self.func().inputs@[self.built().len() as int].kind == ParamType::Uint(64),
        ensures
            r.func() == self.func(),
            r.built() == self.built().push(
                NamedValue {
                    name: self.func().inputs@[self.built().len() as int].name,
                    value: spec_encode_u64(v),
                },
            ),
    {
        let name = self.function.inputs[self.args.len()].name.clone();
        let mut args = self.args;
        args.push(NamedValue { name, value: encode_u64(v) });
        MessageBuilder { function: self.function, args }
    }

    /// Finishes the builder, handing back the bound signature and the
    /// argument sequence together.
    pub fn build(self) -> (r: (&'a FunctionSignature, Vec<NamedValue>))
        ensures
            *r.0 == self.func(),
            r.1@ == self.built(),
    {
        (self.function, self.args)
    }
}

/// Builds the message adding an ordinary stake to the pool: the
/// attached amount prepays the stake itself plus the flat service fee,
/// with bouncing disabled and no declared source.
pub fn prepare_add_ordinary_stake(depool: Address, depool_fee: u64, stake: u64) -> (r: Result<
    OutboundMessage,
    DePoolError,
>)
    requires
        depool_fee + stake <= u64::MAX,
    ensures
        r matches Ok(m) && {
            &&& m.source is None
            &&& m.destination == depool
            &&& m.amount == depool_fee + stake
            &&& m.bounce == false
            &&& m.body.function_id == ADD_ORDINARY_STAKE_ID
            &&& m.body.args@.len() == 1
            &&& m.body.args@[0].name@ == "stake"@
            &&& m.body.args@[0].value == spec_encode_u64(stake)
        },
{
    let schema = depool_v3();
    let builder = match MessageBuilder::new(&schema, "addOrdinaryStake") {
        Ok(b) => b,
        Err(e) => {
            return Err(e);
        },
    };
    let (function, input) = builder.arg_u64(stake).build();
    let body = CallPayload { function_id: function.id, args: input };
    Ok(
        OutboundMessage {
            source: None,
            destination: depool,
            amount: stake + depool_fee,
            bounce: false,
            body,
        },
    )
}

/// Builds the message withdrawing part of a stake: the attached amount
/// covers the flat service fee only — the withdrawn principal is not
/// prepaid — with bouncing disabled and no declared source.
pub fn prepare_withdraw_part(depool: Address, depool_fee: u64, withdraw_value: u64) -> (r: Result<
    OutboundMessage,
    DePoolError,
>)
    ensures
        r matches Ok(m) && {
            &&& m.source is None
            &&& m.destination == depool
            &&& m.amount == depool_fee
            &&& m.bounce == false
            &&& m.body.function_id == WITHDRAW_PART_ID
            &&& m.body.args@.len() == 1
            &&& m.body.args@[0].name@ == "withdrawValue"@
            &&& m.body.args@[0].value == spec_encode_u64(withdraw_value)
        },
{
    let schema = depool_v3();
    let builder = match MessageBuilder::new(&schema, "withdrawPart") {
        Ok(b) => b,
        Err(e) => {
            return Err(e);
        },
    };
    let (function, input) = builder.arg_u64(withdraw_value).build();
    let body = CallPayload { function_id: function.id, args: input };
    Ok(
        OutboundMessage {
            source: None,
            destination: depool,
            amount: depool_fee,
            bounce: false,
            body,
        },
    )
}

} // verus!
