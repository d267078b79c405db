use vstd::prelude::*;
use vstd::string::StringExecFns;

use crate::config::Config;
use crate::decfmt::{dec_str, u128_dec};
use crate::fee::{decimal_mul, spec_fee};
use crate::msg::{
    burn_from_msg, burn_from_msg_bytes, mint_msg, mint_msg_bytes, transfer_from_msg,
    transfer_from_msg_bytes,
};
use crate::ops::{
    is_attr, is_execute, is_settlement_trigger, Attribute, ContractError, FlashResponse,
    Operation,
};

verus! {

/// Issuance phase of the flash mint. Computes the fee and schedules, in
/// this exact order, the mint of the principal to the caller, the
/// caller's opaque callback, and the self-addressed settlement trigger;
/// the host executes the three atomically after this returns. Nothing
/// about the caller's intent is validated here: settlement, later in the
/// same atomic batch, is what forces repayment.
pub fn flash_mint(
    config: &Config,
    contract_address: &String,
    sender: &String,
    msg_callback: Vec<u8>,
    amount: u128,
) -> (r: FlashResponse)
    requires
        config.wf(),
    ensures
        r.operations@.len() == 3,
        is_execute(
            r.operations@[0],
            config.stable_contract@,
            mint_msg_bytes(sender@, amount as nat),
        ),
        is_execute(r.operations@[1], sender@, msg_callback@),
        is_settlement_trigger(
            r.operations@[2],
            contract_address@,
            sender@,
            amount as nat,
            spec_fee(amount as nat, config.flash_mint_fee as nat),
        ),
        r.attributes@.len() == 4,
        is_attr(r.attributes@[0], "action"@, "flash_mint"@),
        is_attr(r.attributes@[1], "flash_minter"@, sender@),
        is_attr(r.attributes@[2], "amount"@, dec_str(amount as nat)),
        is_attr(
            r.attributes@[3],
            "fee_amount"@,
            dec_str(spec_fee(amount as nat, config.flash_mint_fee as nat)),
        ),
{
    let fee_amount = decimal_mul(amount, config.flash_mint_fee);

    let mut operations: Vec<Operation> = Vec::new();
    operations.push(
        Operation::Execute {
            contract_addr: config.stable_contract.clone(),
            msg: mint_msg(sender.as_str(), amount),
        },
    );
    operations.push(Operation::Execute { contract_addr: sender.clone(), msg: msg_callback });
    operations.push(
        Operation::SettlementTrigger {
            contract_addr: contract_address.clone(),
            flash_minter: sender.clone(),
            burn_amount: amount,
            fee_amount,
        },
    );

    let mut attributes: Vec<Attribute> = Vec::new();
    attributes.push(
        Attribute { key: String::from_str("action"), value: String::from_str("flash_mint") },
    );
    attributes.push(
        Attribute {
            key: String::from_str("flash_minter"),
            value: String::from_str(sender.as_str()),
        },
    );
    attributes.push(Attribute { key: String::from_str("amount"), value: u128_dec(amount) });
    attributes.push(
        Attribute { key: String::from_str("fee_amount"), value: u128_dec(fee_amount) },
    );

    FlashResponse { operations, attributes }
}

/// Settlement phase of the flash mint: the self-only continuation that
/// burns the borrowed principal from the borrower and forwards the fee
/// to the collector. The identity check against the contract's own
/// address is the sole gate that keeps an outside caller — the borrower
/// included — from shaping a settlement against an arbitrary victim, and
/// it runs before anything else.
pub fn private_flash_end(
    config: &Config,
    contract_address: &String,
    sender: &String,
    flash_minter: &String,
    burn_amount: u128,
    fee_amount: u128,
) -> (r: Result<FlashResponse, ContractError>)
    ensures
        r is Ok <==> sender@ == contract_address@,
        r matches Err(e) ==> e == ContractError::Unauthorized,
        r matches Ok(resp) ==> {
            &&& resp.operations@.len() == (if fee_amount > 0 {
                2int
            } else {
                1int
            })
            &&& is_execute(
                resp.operations@[0],
                config.stable_contract@,
                burn_from_msg_bytes(flash_minter@, burn_amount as nat),
            )
            &&& (fee_amount > 0 ==> is_execute(
                resp.operations@[1],
                config.stable_contract@,
                transfer_from_msg_bytes(
                    flash_minter@,
                    config.collector_contract@,
                    fee_amount as nat,
                ),
            ))
            &&& resp.attributes@.len() == 1
            &&& is_attr(resp.attributes@[0], "action"@, "private_flash_end"@)
        },
{
    if !(*sender == *contract_address) {
        return Err(ContractError::Unauthorized);
    }

    let mut operations: Vec<Operation> = Vec::new();
    operations.push(
        Operation::Execute {
            contract_addr: config.stable_contract.clone(),
            msg: burn_from_msg(flash_minter.as_str(), burn_amount),
        },
    );

    if fee_amount > 0 {
        operations.push(
            Operation::Execute {
                contract_addr: config.stable_contract.clone(),
                msg: transfer_from_msg(
                    flash_minter.as_str(),
                    config.collector_contract.as_str(),
                    fee_amount,
                ),
            },
        );
    }

    let mut attributes: Vec<Attribute> = Vec::new();
    attributes.push(
        Attribute {
            key: String::from_str("action"),
            value: String::from_str("private_flash_end"),
        },
    );

    Ok(FlashResponse { operations, attributes })
}

} // verus!
