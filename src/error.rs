use vstd::prelude::*;

verus! {

/// Every way a registry operation can fail.
#[derive(Debug, PartialEq, Eq)]
pub enum ContractError {
    /// The name has fewer bytes than allowed.
    NameTooShort { length: u64, min_length: u64 },
    /// The name has more bytes than allowed.
    NameTooLong { length: u64, max_length: u64 },
    /// The name holds a character that names may not hold.
    InvalidCharacter { c: char },
    /// No single coin sent covers the price asked.
    InsufficientFundsSend,
    /// The name is registered already.
    NameTaken { name: String },
    /// The name has never been registered.
    NameNotExists { name: String },
    /// Only the owner of a name may transfer it.
    Unauthorized,
    /// The recipient of a transfer is not an address the host accepts.
    InvalidAddress,
    /// The price of registration was never set.
    NotInitialized,
}

} // verus!
