use vstd::prelude::*;

use crate::address::{address_digits, decode_hex, is_address_text, Address};
use crate::amount::{goal_amount, parse_goal, Amount};

verus! {

/// Why the ledger settings could not be read.
#[derive(Clone, Copy, Debug, PartialEq, Eq, Structural)]
pub enum ConfigError {
    /// The contract address is not forty hexadecimal digits.
    InvalidContractAddress,
    /// The sender address is not forty hexadecimal digits.
    InvalidSenderAddress,
}

/// The fixed settings of the ledger connection: where to reach it, the contract
/// to bind, and the account that write calls are sent from.
#[derive(Clone, Debug, PartialEq, Eq)]
pub struct LedgerConfig {
    pub rpc_url: String,
    pub contract: Address,
    pub sender: Address,
}

impl LedgerConfig {
    /// Reads the settings, checking the contract address before the sender's.
    pub fn new(rpc_url: String, contract_address: &str, sender_address: &str) -> (r: Result<
        LedgerConfig,
        ConfigError,
    >)
        ensures
            !is_address_text(contract_address@) ==> r == Err::<LedgerConfig, ConfigError>(
                ConfigError::InvalidContractAddress,
            ),
            is_address_text(contract_address@) && !is_address_text(sender_address@) ==> r == Err::<
                LedgerConfig,
                ConfigError,
            >(ConfigError::InvalidSenderAddress),
            r is Ok <==> is_address_text(contract_address@) && is_address_text(sender_address@),
            r matches Ok(c) ==> {
                &&& c.rpc_url == rpc_url
                &&& c.contract.bytes@ == decode_hex(address_digits(contract_address@))
                &&& c.sender.bytes@ == decode_hex(address_digits(sender_address@))
            },
    {
        let contract = match Address::parse(contract_address) {
            Some(a) => a,
            None => return Err(ConfigError::InvalidContractAddress),
        };
        let sender = match Address::parse(sender_address) {
            Some(a) => a,
            None => return Err(ConfigError::InvalidSenderAddress),
        };
        Ok(LedgerConfig { rpc_url, contract, sender })
    }
}

/// The parameters of a `createCampaign(title, description, goal)` write call.
#[derive(Clone, Debug, PartialEq, Eq)]
pub struct CreateRequest {
    pub title: String,
    pub description: String,
    pub goal: Amount,
}

impl CreateRequest {
    /// Builds the call from the form: title and description verbatim, the goal
    /// read as a decimal number, and zero where it is not one.
    pub fn new(title: String, description: String, goal: &str) -> (r: CreateRequest)
        ensures
            r.title == title,
            r.description == description,
            r.goal.value() == goal_amount(goal@),
    {
        CreateRequest { title, description, goal: parse_goal(goal) }
    }
}

} // verus!
