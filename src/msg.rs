use vstd::prelude::*;

use crate::coin::Coin;

verus! {

/// Sets the price of registering a name; `None` makes registration free.
#[derive(Debug)]
pub struct InstantiateMsg {
    pub purchase_price: Option<Coin>,
}

/// The operations that change the registry.
#[derive(Debug)]
pub enum ExecuteMsg {
    Register { name: String },
    Transfer { name: String, to: String },
}

/// The read-only questions the registry answers.
#[derive(Debug)]
pub enum QueryMsg {
    ResolveRecord { name: String },
}

/// The owner of a name, or `None` where the name is not registered.
#[derive(Debug, PartialEq, Eq)]
pub struct ResolveRecordResponse {
    pub address: Option<String>,
}

/// Who sent a request and the funds attached to it.
#[derive(Debug)]
pub struct MessageInfo {
    pub sender: String,
    pub funds: Vec<Coin>,
}

} // verus!
