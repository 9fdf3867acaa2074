use name_service::coin::Coin;
use name_service::contract::{
    execute, execute_register, execute_transfer, instantiate, query, query_resolve,
    register_record, transfer_record, transfer_terms,
};
use name_service::error::ContractError;
use name_service::msg::{ExecuteMsg, InstantiateMsg, MessageInfo, QueryMsg, ResolveRecordResponse};
use name_service::state::{NameRecord, Registry};

fn coin(amount: u128, denom: &str) -> Coin {
    Coin::new(denom.to_string(), amount)
}

fn info(sender: &str, funds: Vec<Coin>) -> MessageInfo {
    MessageInfo { sender: sender.to_string(), funds }
}

fn registry(price: Option<Coin>) -> Registry {
    instantiate(InstantiateMsg { purchase_price: price })
}

fn owner_of(reg: &Registry, name: &str) -> Option<String> {
    query_resolve(reg, &name.to_string())
}

fn price_of(reg: &Registry, name: &str) -> (u128, String) {
    let rec = reg.get(&name.to_string()).unwrap();
    (rec.cur_price.amount, rec.cur_price.denom.clone())
}

#[test]
fn instantiate_sets_the_price() {
    let reg = registry(Some(coin(5, "tok")));
    assert_eq!(reg.load_config(), &Some(coin(5, "tok")));
    assert_eq!(owner_of(&reg, "abc"), None);
    let free = registry(None);
    assert_eq!(free.load_config(), &None);
}

#[test]
fn register_then_resolve() {
    let mut reg = registry(Some(coin(10, "x")));
    let r = execute_register(&mut reg, &info("alice", vec![coin(10, "x")]), "abc".to_string());
    assert_eq!(r, Ok(()));
    assert_eq!(owner_of(&reg, "abc"), Some("alice".to_string()));
    assert_eq!(price_of(&reg, "abc"), (10, "x".to_string()));
}

#[test]
fn register_twice_fails_and_keeps_first_owner() {
    let mut reg = registry(Some(coin(10, "x")));
    assert_eq!(
        execute_register(&mut reg, &info("alice", vec![coin(10, "x")]), "abc".to_string()),
        Ok(())
    );
    assert_eq!(
        execute_register(&mut reg, &info("bob", vec![coin(20, "x")]), "abc".to_string()),
        Err(ContractError::NameTaken { name: "abc".to_string() })
    );
    assert_eq!(
        execute_register(&mut reg, &info("alice", vec![coin(10, "x")]), "abc".to_string()),
        Err(ContractError::NameTaken { name: "abc".to_string() })
    );
    assert_eq!(owner_of(&reg, "abc"), Some("alice".to_string()));
}

#[test]
fn register_with_invalid_name_changes_nothing() {
    let mut reg = registry(None);
    assert_eq!(
        execute_register(&mut reg, &info("alice", vec![]), "ab".to_string()),
        Err(ContractError::NameTooShort { length: 2, min_length: 3 })
    );
    assert_eq!(
        execute_register(&mut reg, &info("alice", vec![]), "x".repeat(65)),
        Err(ContractError::NameTooLong { length: 65, max_length: 64 })
    );
    assert_eq!(
        execute_register(&mut reg, &info("alice", vec![]), "Upper".to_string()),
        Err(ContractError::InvalidCharacter { c: 'U' })
    );
    assert_eq!(owner_of(&reg, "ab"), None);
    assert_eq!(owner_of(&reg, "Upper"), None);
}

#[test]
fn register_without_enough_funds_fails() {
    let mut reg = registry(Some(coin(10, "x")));
    assert_eq!(
        execute_register(&mut reg, &info("alice", vec![coin(9, "x"), coin(10, "y")]), "abc".to_string()),
        Err(ContractError::InsufficientFundsSend)
    );
    assert_eq!(owner_of(&reg, "abc"), None);
}

#[test]
fn register_checks_funds_before_taken() {
    let mut reg = registry(Some(coin(10, "x")));
    execute_register(&mut reg, &info("alice", vec![coin(10, "x")]), "abc".to_string()).unwrap();
    assert_eq!(
        execute_register(&mut reg, &info("bob", vec![]), "abc".to_string()),
        Err(ContractError::InsufficientFundsSend)
    );
}

#[test]
fn free_registry_registers_at_zero_price() {
    let mut reg = registry(None);
    assert_eq!(execute_register(&mut reg, &info("alice", vec![]), "free".to_string()), Ok(()));
    assert_eq!(price_of(&reg, "free"), (0, String::new()));
    assert_eq!(
        execute_transfer(&mut reg, &info("alice", vec![]), "free".to_string(), "bob".to_string(), true),
        Ok(())
    );
    assert_eq!(owner_of(&reg, "free"), Some("bob".to_string()));
    assert_eq!(price_of(&reg, "free"), (0, String::new()));
}

#[test]
fn resolve_is_idempotent() {
    let mut reg = registry(None);
    execute_register(&mut reg, &info("alice", vec![]), "abc".to_string()).unwrap();
    let first = owner_of(&reg, "abc");
    let second = owner_of(&reg, "abc");
    assert_eq!(first, second);
    assert_eq!(owner_of(&reg, "zzz"), owner_of(&reg, "zzz"));
    assert_eq!(owner_of(&reg, "zzz"), None);
}

#[test]
fn transfer_of_missing_name_fails() {
    let mut reg = registry(Some(coin(5, "tok")));
    assert_eq!(
        execute_transfer(&mut reg, &info("alice", vec![coin(5, "tok")]), "nobody".to_string(), "bob".to_string(), true),
        Err(ContractError::NameNotExists { name: "nobody".to_string() })
    );
    assert_eq!(owner_of(&reg, "nobody"), None);
}

#[test]
fn transfer_by_non_owner_is_unauthorized() {
    let mut reg = registry(Some(coin(5, "tok")));
    execute_register(&mut reg, &info("alice", vec![coin(5, "tok")]), "abc".to_string()).unwrap();
    assert_eq!(
        execute_transfer(&mut reg, &info("mallory", vec![coin(50, "tok")]), "abc".to_string(), "mallory".to_string(), true),
        Err(ContractError::Unauthorized)
    );
    assert_eq!(owner_of(&reg, "abc"), Some("alice".to_string()));
    assert_eq!(price_of(&reg, "abc"), (5, "tok".to_string()));
}

#[test]
fn transfer_needs_the_record_price() {
    let mut reg = registry(Some(coin(5, "tok")));
    execute_register(&mut reg, &info("alice", vec![coin(5, "tok")]), "abc".to_string()).unwrap();
    assert_eq!(
        execute_transfer(&mut reg, &info("alice", vec![coin(4, "tok")]), "abc".to_string(), "bob".to_string(), true),
        Err(ContractError::InsufficientFundsSend)
    );
    assert_eq!(owner_of(&reg, "abc"), Some("alice".to_string()));
}

#[test]
fn transfer_to_invalid_address_fails() {
    let mut reg = registry(Some(coin(5, "tok")));
    execute_register(&mut reg, &info("alice", vec![coin(5, "tok")]), "abc".to_string()).unwrap();
    assert_eq!(
        execute_transfer(&mut reg, &info("alice", vec![coin(5, "tok")]), "abc".to_string(), "BAD ADDR".to_string(), false),
        Err(ContractError::InvalidAddress)
    );
    assert_eq!(owner_of(&reg, "abc"), Some("alice".to_string()));
}

#[test]
fn transfer_carries_the_paying_coin_as_price() {
    let mut reg = registry(Some(coin(5, "tok")));
    execute_register(&mut reg, &info("alice", vec![coin(5, "tok")]), "abc".to_string()).unwrap();
    assert_eq!(
        execute_transfer(&mut reg, &info("alice", vec![coin(1, "tok"), coin(8, "tok")]), "abc".to_string(), "bob".to_string(), true),
        Ok(())
    );
    assert_eq!(price_of(&reg, "abc"), (8, "tok".to_string()));
    assert_eq!(
        execute_transfer(&mut reg, &info("bob", vec![coin(7, "tok")]), "abc".to_string(), "carol".to_string(), true),
        Err(ContractError::InsufficientFundsSend)
    );
}

#[test]
fn register_transfer_scenario() {
    let mut reg = registry(Some(coin(5, "tok")));
    assert_eq!(
        execute_register(&mut reg, &info("A", vec![coin(6, "tok")]), "my-name".to_string()),
        Ok(())
    );
    assert_eq!(owner_of(&reg, "my-name"), Some("A".to_string()));
    assert_eq!(
        execute_transfer(&mut reg, &info("A", vec![coin(5, "tok")]), "my-name".to_string(), "B".to_string(), true),
        Ok(())
    );
    assert_eq!(owner_of(&reg, "my-name"), Some("B".to_string()));
    assert_eq!(price_of(&reg, "my-name"), (5, "tok".to_string()));
    assert_eq!(
        execute_transfer(&mut reg, &info("A", vec![coin(5, "tok")]), "my-name".to_string(), "A".to_string(), true),
        Err(ContractError::Unauthorized)
    );
    assert_eq!(owner_of(&reg, "my-name"), Some("B".to_string()));
}

#[test]
fn execute_and_query_dispatch() {
    let mut reg = registry(Some(coin(2, "u")));
    let alice = info("alice", vec![coin(2, "u")]);
    assert_eq!(execute(&mut reg, &alice, ExecuteMsg::Register { name: "dispatch".to_string() }, false), Ok(()));
    assert_eq!(
        query(&reg, QueryMsg::ResolveRecord { name: "dispatch".to_string() }),
        ResolveRecordResponse { address: Some("alice".to_string()) }
    );
    assert_eq!(
        execute(&mut reg, &alice, ExecuteMsg::Transfer { name: "dispatch".to_string(), to: "bob".to_string() }, true),
        Ok(())
    );
    assert_eq!(
        query(&reg, QueryMsg::ResolveRecord { name: "dispatch".to_string() }),
        ResolveRecordResponse { address: Some("bob".to_string()) }
    );
    assert_eq!(
        query(&reg, QueryMsg::ResolveRecord { name: "other".to_string() }),
        ResolveRecordResponse { address: None }
    );
}

#[test]
fn put_and_update_if_present() {
    let mut reg = registry(None);
    let name = "stored".to_string();
    reg.put(name.clone(), NameRecord { owner: "alice".to_string(), cur_price: coin(3, "u") });
    assert_eq!(reg.get(&name).unwrap().owner, "alice");
    reg.put(name.clone(), NameRecord { owner: "bob".to_string(), cur_price: coin(4, "u") });
    assert_eq!(reg.get(&name).unwrap().owner, "bob");
    let r = reg.update_if_present(&name, |cur| match cur {
        Some(rec) => Ok(NameRecord { owner: "carol".to_string(), cur_price: rec.cur_price }),
        None => Err(ContractError::Unauthorized),
    });
    assert_eq!(r, Ok(()));
    assert_eq!(reg.get(&name).unwrap().owner, "carol");
    let missing = "missing".to_string();
    let r = reg.update_if_present(&missing, |cur| match cur {
        Some(rec) => Ok(rec),
        None => Err(ContractError::NameNotExists { name: "missing".to_string() }),
    });
    assert_eq!(r, Err(ContractError::NameNotExists { name: "missing".to_string() }));
    assert!(reg.get(&missing).is_none());
}

#[test]
fn decision_functions_agree_with_the_store() {
    let price = Some(coin(5, "tok"));
    let sender = "alice".to_string();
    let name = "abc".to_string();
    let rec = register_record(&price, false, &sender, &name, &[coin(6, "tok")]).unwrap();
    assert_eq!(rec.owner, "alice");
    assert_eq!(rec.cur_price, coin(5, "tok"));
    assert_eq!(
        register_record(&price, true, &sender, &name, &[coin(6, "tok")]).unwrap_err(),
        ContractError::NameTaken { name: "abc".to_string() }
    );
    let terms = transfer_terms(Some(&rec), &name, &[coin(9, "tok")], true);
    assert_eq!(terms, Ok(coin(9, "tok")));
    assert_eq!(
        transfer_terms(None, &name, &[coin(9, "tok")], true),
        Err(ContractError::NameNotExists { name: "abc".to_string() })
    );
    let moved = transfer_record(Some(rec), &name, &sender, "bob".to_string(), coin(9, "tok")).unwrap();
    assert_eq!(moved.owner, "bob");
    assert_eq!(moved.cur_price, coin(9, "tok"));
    let other = NameRecord { owner: "carol".to_string(), cur_price: coin(1, "tok") };
    assert_eq!(
        transfer_record(Some(other), &name, &sender, "bob".to_string(), coin(9, "tok")).unwrap_err(),
        ContractError::Unauthorized
    );
}
