use vstd::prelude::*;

use crate::coin::{assert_sent_sufficient_coin, funds_cover, price_after_payment, price_view, Coin, CoinView};
use crate::error::ContractError;
use crate::msg::{ExecuteMsg, InstantiateMsg, MessageInfo, QueryMsg, ResolveRecordResponse};
use crate::name::{name_verdict, validate_name};
use crate::state::{NameRecord, RecordView, Registry, RegistryView};

verus! {

/// The price a newly registered name carries: the configured price, or a
/// coin of amount zero (which asks for nothing) where registration is free.
pub open spec fn registration_price(config: Option<CoinView>) -> CoinView {
    match config {
        Some(c) => c,
        None => CoinView { denom: Seq::empty(), amount: 0 },
    }
}

/// The outcome of handing the record found under `name` to a transfer from
/// `sender` to `new_owner` at `new_price`: only the owner may transfer.
pub open spec fn transfer_result(
    current: Option<NameRecord>,
    name: String,
    sender: Seq<char>,
    new_owner: String,
    new_price: Coin,
) -> Result<NameRecord, ContractError> {
    match current {
        None => Err(ContractError::NameNotExists { name }),
        Some(rec) => if sender != rec.owner@ {
            Err(ContractError::Unauthorized)
        } else {
            Ok(NameRecord { owner: new_owner, cur_price: new_price })
        },
    }
}

/// What a registration of `name` by `sender` with `funds` attached does to
/// the registry `old`, giving `r` and leaving `new`.
pub open spec fn register_post(
    old: RegistryView,
    sender: Seq<char>,
    name: String,
    funds: Seq<Coin>,
    r: Result<(), ContractError>,
    new: RegistryView,
) -> bool {
    &&& new.purchase_price == old.purchase_price
    &&& match name_verdict(name@) {
        Err(e) => r == Err::<(), ContractError>(e),
        Ok(_) => if !funds_cover(funds, old.purchase_price) {
            r == Err::<(), ContractError>(ContractError::InsufficientFundsSend)
        } else if old.records.contains_key(name@) {
            r == Err::<(), ContractError>(ContractError::NameTaken { name })
        } else {
            r is Ok && new.records == old.records.insert(
                name@,
                RecordView { owner: sender, cur_price: registration_price(old.purchase_price) },
            )
        },
    }
    &&& r is Err ==> new == old
}

/// What a transfer of `name` by `sender` to `to` with `funds` attached does
/// to the registry `old`, giving `r` and leaving `new`; `to_is_valid` is
/// whether the host accepts `to` as an address.
pub open spec fn transfer_post(
    old: RegistryView,
    sender: Seq<char>,
    name: String,
    to: Seq<char>,
    to_is_valid: bool,
    funds: Seq<Coin>,
    r: Result<(), ContractError>,
    new: RegistryView,
) -> bool {
    &&& new.purchase_price == old.purchase_price
    &&& !old.records.contains_key(name@) ==> r == Err::<(), ContractError>(
        ContractError::NameNotExists { name },
    )
    &&& old.records.contains_key(name@) ==> {
        let rec = old.records[name@];
        if !funds_cover(funds, Some(rec.cur_price)) {
            r == Err::<(), ContractError>(ContractError::InsufficientFundsSend)
        } else if !to_is_valid {
            r == Err::<(), ContractError>(ContractError::InvalidAddress)
        } else if sender != rec.owner {
            r == Err::<(), ContractError>(ContractError::Unauthorized)
        } else {
            r is Ok && new.records == old.records.insert(
                name@,
                RecordView { owner: to, cur_price: price_after_payment(funds, rec.cur_price) },
            )
        }
    }
    &&& r is Err ==> new == old
}

/// The owner that `name` resolves to in `v`.
pub open spec fn resolved_owner(v: RegistryView, name: Seq<char>) -> Option<Seq<char>> {
    if v.records.contains_key(name) {
        Some(v.records[name].owner)
    } else {
        None
    }
}

/// The value of an optional string.
pub open spec fn string_view(s: Option<String>) -> Option<Seq<char>> {
    match s {
        Some(x) => Some(x@),
        None => None,
    }
}

fn registration_price_of(config: &Option<Coin>) -> (r: Coin)
    ensures
        r@ == registration_price(price_view(*config)),
{
    match config {
        Some(c) => c.duplicate(),
        None => Coin { denom: String::new(), amount: 0 },
    }
}

/// Sets up a registry with the configured price and no names.
pub fn instantiate(msg: InstantiateMsg) -> (r: Registry)
    ensures
        r.wf(),
        r@.purchase_price == price_view(msg.purchase_price),
        r@.records == Map::<Seq<char>, RecordView>::empty(),
{
    Registry::new(msg.purchase_price)
}

/// Decides a registration of `name` by `sender`: the name is checked, then
/// the funds against the configured price, then whether the name is `taken`.
/// On success the record to store is returned.
pub fn register_record(
    purchase_price: &Option<Coin>,
    taken: bool,
    sender: &String,
    name: &String,
    funds: &[Coin],
) -> (r: Result<NameRecord, ContractError>)
    ensures
        match name_verdict(name@) {
            Err(e) => r == Err::<NameRecord, ContractError>(e),
            Ok(_) => if !funds_cover(funds@, price_view(*purchase_price)) {
                r == Err::<NameRecord, ContractError>(ContractError::InsufficientFundsSend)
            } else if taken {
                r == Err::<NameRecord, ContractError>(ContractError::NameTaken { name: *name })
            } else {
                r matches Ok(rec) && rec@ == (RecordView {
                    owner: sender@,
                    cur_price: registration_price(price_view(*purchase_price)),
                })
            },
        },
{
    match validate_name(name.as_str()) {
        Err(e) => return Err(e),
        Ok(_) => {},
    }
    let required = match purchase_price {
        Some(c) => Some(c.duplicate()),
        None => None,
    };
    match assert_sent_sufficient_coin(funds, required) {
        Err(e) => return Err(e),
        Ok(_) => {},
    }
    if taken {
        return Err(ContractError::NameTaken { name: name.clone() });
    }
    Ok(NameRecord { owner: sender.clone(), cur_price: registration_price_of(purchase_price) })
}

/// Registers `name` to the sender of `info`, paid for by the funds attached.
/// A registered name is never registered again; a failed call changes nothing.
pub fn execute_register(reg: &mut Registry, info: &MessageInfo, name: String) -> (r: Result<
    (),
    ContractError,
>)
    requires
        old(reg).wf(),
    ensures
        final(reg).wf(),
        register_post(old(reg)@, info.sender@, name, info.funds@, r, final(reg)@),
{
    let taken = reg.get(&name).is_some();
    let record = register_record(reg.load_config(), taken, &info.sender, &name, info.funds.as_slice());
    match record {
        Ok(rec) => {
            reg.put(name, rec);
            Ok(())
        },
        Err(e) => Err(e),
    }
}

/// Decides the terms of a transfer of `name`, whose stored record is `record`:
/// the name must exist, the funds must pay the record's own price, and the
/// host must accept the new owner's address. On success the price the name
/// will carry is returned: the coin that paid, or the old price where it asked
/// for nothing.
pub fn transfer_terms(
    record: Option<&NameRecord>,
    name: &String,
    funds: &[Coin],
    to_is_valid: bool,
) -> (r: Result<Coin, ContractError>)
    ensures
        match record {
            None => r == Err::<Coin, ContractError>(ContractError::NameNotExists { name: *name }),
            Some(rec) => if !funds_cover(funds@, Some(rec.cur_price@)) {
                r == Err::<Coin, ContractError>(ContractError::InsufficientFundsSend)
            } else if !to_is_valid {
                r == Err::<Coin, ContractError>(ContractError::InvalidAddress)
            } else {
                r matches Ok(c) && c@ == price_after_payment(funds@, rec.cur_price@)
            },
        },
{
    match record {
        None => Err(ContractError::NameNotExists { name: name.clone() }),
        Some(rec) => {
            match assert_sent_sufficient_coin(funds, Some(rec.cur_price.duplicate())) {
                Err(e) => Err(e),
                Ok(paid) => {
                    if !to_is_valid {
                        Err(ContractError::InvalidAddress)
                    } else {
                        match paid {
                            Some(c) => Ok(c.duplicate()),
                            None => Ok(rec.cur_price.duplicate()),
                        }
                    }
                },
            }
        },
    }
}

/// The update a transfer applies to the record found under `name`: only its
/// owner may hand it to `new_owner`, who then holds it at `new_price`.
pub fn transfer_record(
    current: Option<NameRecord>,
    name: &String,
    sender: &String,
    new_owner: String,
    new_price: Coin,
) -> (r: Result<NameRecord, ContractError>)
    ensures
        r == transfer_result(current, *name, sender@, new_owner, new_price),
{
    match current {
        None => Err(ContractError::NameNotExists { name: name.clone() }),
        Some(rec) => {
            if *sender != rec.owner {
                Err(ContractError::Unauthorized)
            } else {
                Ok(NameRecord { owner: new_owner, cur_price: new_price })
            }
        },
    }
}

/// Transfers `name` from the sender of `info` to `to`, paid for by the funds
/// attached; `to_is_valid` is whether the host accepts `to` as an address.
/// The ownership check and the write happen in one atomic update of the store.
/// A failed call changes nothing.
pub fn execute_transfer(
    reg: &mut Registry,
    info: &MessageInfo,
    name: String,
    to: String,
    to_is_valid: bool,
) -> (r: Result<(), ContractError>)
    requires
        old(reg).wf(),
    ensures
        final(reg).wf(),
        transfer_post(old(reg)@, info.sender@, name, to@, to_is_valid, info.funds@, r, final(reg)@),
{
    let price = match transfer_terms(reg.get(&name), &name, info.funds.as_slice(), to_is_valid) {
        Ok(c) => c,
        Err(e) => return Err(e),
    };
    let sender = info.sender.clone();
    let key = name.clone();
    let update = move |current: Option<NameRecord>| -> (res: Result<NameRecord, ContractError>)
        ensures
            res == transfer_result(current, name, sender@, to, price),
        {
            transfer_record(current, &name, &sender, to, price)
        };
    reg.update_if_present(&key, update)
}

/// Carries out one operation on the registry. `to_is_valid` is whether the
/// host accepts the recipient address of a transfer; a registration ignores it.
pub fn execute(reg: &mut Registry, info: &MessageInfo, msg: ExecuteMsg, to_is_valid: bool) -> (r:
    Result<(), ContractError>)
    requires
        old(reg).wf(),
    ensures
        final(reg).wf(),
        match msg {
            ExecuteMsg::Register { name } => register_post(
                old(reg)@,
                info.sender@,
                name,
                info.funds@,
                r,
                final(reg)@,
            ),
            ExecuteMsg::Transfer { name, to } => transfer_post(
                old(reg)@,
                info.sender@,
                name,
                to@,
                to_is_valid,
                info.funds@,
                r,
                final(reg)@,
            ),
        },
{
    match msg {
        ExecuteMsg::Register { name } => execute_register(reg, info, name),
        ExecuteMsg::Transfer { name, to } => execute_transfer(reg, info, name, to, to_is_valid),
    }
}

/// The owner of `name`, or `None` where it is not registered.
pub fn query_resolve(reg: &Registry, name: &String) -> (r: Option<String>)
    requires
        reg.wf(),
    ensures
        string_view(r) == resolved_owner(reg@, name@),
{
    match reg.get(name) {
        Some(rec) => Some(rec.owner.clone()),
        None => None,
    }
}

/// Answers a question about the registry.
pub fn query(reg: &Registry, msg: QueryMsg) -> (r: ResolveRecordResponse)
    requires
        reg.wf(),
    ensures
        match msg {
            QueryMsg::ResolveRecord { name } => string_view(r.address) == resolved_owner(
                reg@,
                name@,
            ),
        },
{
    match msg {
        QueryMsg::ResolveRecord { name } => ResolveRecordResponse {
            address: query_resolve(reg, &name),
        },
    }
}

} // verus!
