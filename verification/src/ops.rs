use vstd::prelude::*;

verus! {

/// One deferred operation, destined for the host's atomic, in-order
/// execution queue. Every operation the protocol schedules invokes a
/// contract with no funds attached, so an operation is an address
/// together with what is sent to it.
pub enum Operation {
    /// Invoke another contract with an already-encoded payload: a token
    /// instruction for the stable-asset contract, or the borrower's own
    /// opaque callback.
    Execute { contract_addr: String, msg: Vec<u8> },
    /// The self-addressed continuation record that triggers settlement:
    /// it carries the borrower, the principal to burn and the fee to
    /// forward, and the host delivers it to `contract_addr` (this market
    /// itself) after the callback has run.
    SettlementTrigger {
        contract_addr: String,
        flash_minter: String,
        burn_amount: u128,
        fee_amount: u128,
    },
}

/// One string-keyed observability attribute; attributes carry no
/// authorization weight.
pub struct Attribute {
    pub key: String,
    pub value: String,
}

/// What a protocol phase returns to the host: the ordered list of
/// deferred operations and the attributes describing the action.
pub struct FlashResponse {
    pub operations: Vec<Operation>,
    pub attributes: Vec<Attribute>,
}

/// The failures this core decides itself. Downstream failures (a burn or
/// transfer the token contract rejects, a reverting callback) are the
/// host's to unwind and never reach this core as values.
#[derive(Clone, Copy, Debug, PartialEq, Eq, Structural)]
pub enum ContractError {
    /// The settlement phase was invoked by anyone other than the market
    /// contract itself.
    Unauthorized,
}

/// Whether an operation invokes `addr` with exactly the payload `msg`.
pub open spec fn is_execute(op: Operation, addr: Seq<char>, msg: Seq<u8>) -> bool {
    op matches Operation::Execute { contract_addr, msg: m } && contract_addr@ == addr && m@
        == msg
}

/// Whether an operation is the settlement trigger addressed to `addr`
/// for `minter`, with the given principal and fee.
pub open spec fn is_settlement_trigger(
    op: Operation,
    addr: Seq<char>,
    minter: Seq<char>,
    burn: nat,
    fee: nat,
) -> bool {
    &&& op matches Operation::SettlementTrigger {
        contract_addr,
        flash_minter,
        burn_amount,
        fee_amount,
    }
    &&& contract_addr@ == addr
    &&& flash_minter@ == minter
    &&& burn_amount == burn
    &&& fee_amount == fee
}

/// Whether an attribute has exactly this key and value.
pub open spec fn is_attr(a: Attribute, key: Seq<char>, value: Seq<char>) -> bool {
    a.key@ == key && a.value@ == value
}

} // verus!
