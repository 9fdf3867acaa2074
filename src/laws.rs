use vstd::prelude::*;

use crate::coin::{funds_cover, Coin};
use crate::contract::{register_post, registration_price, resolved_owner, transfer_post};
use crate::error::ContractError;
use crate::name::{byte_length, first_invalid, is_name_char, name_verdict, MAX_LENGTH, MIN_LENGTH};
use crate::state::RegistryView;

verus! {

/// A name that is too short, too long, or holds a character outside
/// `[a-z0-9._-]` is rejected with the error for the first rule it breaks.
pub proof fn lemma_invalid_name_rejected(name: Seq<char>)
    requires
        byte_length(name) < MIN_LENGTH || byte_length(name) > MAX_LENGTH || exists|i: int|
            0 <= i < name.len() && !is_name_char(#[trigger] name[i]),
    ensures
        name_verdict(name) is Err,
        byte_length(name) < MIN_LENGTH ==> name_verdict(name) == Err::<(), ContractError>(
            ContractError::NameTooShort { length: byte_length(name), min_length: MIN_LENGTH },
        ),
        byte_length(name) > MAX_LENGTH ==> name_verdict(name) == Err::<(), ContractError>(
            ContractError::NameTooLong { length: byte_length(name), max_length: MAX_LENGTH },
        ),
        MIN_LENGTH <= byte_length(name) <= MAX_LENGTH ==> name_verdict(name) == Err::<
            (),
            ContractError,
        >(ContractError::InvalidCharacter { c: name[first_invalid(name)] }),
{
}

/// A registration with an invalid name fails with the name's error and
/// leaves the registry as it was.
pub proof fn lemma_invalid_name_changes_nothing(
    old: RegistryView,
    sender: Seq<char>,
    name: String,
    funds: Seq<Coin>,
    r: Result<(), ContractError>,
    new: RegistryView,
)
    requires
        register_post(old, sender, name, funds, r, new),
        name_verdict(name@) is Err,
    ensures
        r == name_verdict(name@),
        new == old,
{
}

/// Once a name is registered, registering it again fails and leaves the
/// first owner in place; with the price paid, the failure is `NameTaken`.
pub proof fn lemma_register_twice(
    v0: RegistryView,
    first: Seq<char>,
    second: Seq<char>,
    name: String,
    funds1: Seq<Coin>,
    funds2: Seq<Coin>,
    r1: Result<(), ContractError>,
    r2: Result<(), ContractError>,
    v1: RegistryView,
    v2: RegistryView,
)
    requires
        register_post(v0, first, name, funds1, r1, v1),
        r1 is Ok,
        register_post(v1, second, name, funds2, r2, v2),
    ensures
        r2 is Err,
        v2 == v1,
        resolved_owner(v2, name@) == Some(first),
        funds_cover(funds2, v1.purchase_price) ==> r2 == Err::<(), ContractError>(
            ContractError::NameTaken { name },
        ),
{
    assert(v1.records.contains_key(name@));
}

/// Resolving a name twice with nothing in between gives the same answer.
pub proof fn lemma_resolve_idempotent(v: RegistryView, name: Seq<char>, a: Option<Seq<char>>, b: Option<Seq<char>>)
    requires
        a == resolved_owner(v, name),
        b == resolved_owner(v, name),
    ensures
        a == b,
{
}

/// A transfer by anyone but the owner fails and changes neither owner nor
/// price; where the name exists, the price is paid and the new address is
/// accepted, the failure is `Unauthorized`.
pub proof fn lemma_transfer_by_non_owner(
    v0: RegistryView,
    sender: Seq<char>,
    name: String,
    to: Seq<char>,
    to_is_valid: bool,
    funds: Seq<Coin>,
    r: Result<(), ContractError>,
    v1: RegistryView,
)
    requires
        transfer_post(v0, sender, name, to, to_is_valid, funds, r, v1),
        resolved_owner(v0, name@) != Some(sender),
    ensures
        r is Err,
        v1 == v0,
        v0.records.contains_key(name@) && funds_cover(funds, Some(v0.records[name@].cur_price))
            && to_is_valid ==> r == Err::<(), ContractError>(ContractError::Unauthorized),
{
}

/// A transfer of a name that was never registered fails with `NameNotExists`.
pub proof fn lemma_transfer_missing_name(
    v0: RegistryView,
    sender: Seq<char>,
    name: String,
    to: Seq<char>,
    to_is_valid: bool,
    funds: Seq<Coin>,
    r: Result<(), ContractError>,
    v1: RegistryView,
)
    requires
        transfer_post(v0, sender, name, to, to_is_valid, funds, r, v1),
        !v0.records.contains_key(name@),
    ensures
        r == Err::<(), ContractError>(ContractError::NameNotExists { name }),
        v1 == v0,
{
}

/// After a successful registration the name resolves to whoever registered it,
/// at the configured price.
pub proof fn lemma_register_then_resolve(
    v0: RegistryView,
    sender: Seq<char>,
    name: String,
    funds: Seq<Coin>,
    r: Result<(), ContractError>,
    v1: RegistryView,
)
    requires
        register_post(v0, sender, name, funds, r, v1),
        r is Ok,
    ensures
        resolved_owner(v1, name@) == Some(sender),
        v1.records[name@].cur_price == registration_price(v0.purchase_price),
{
}

} // verus!
