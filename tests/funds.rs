use name_service::coin::{assert_sent_sufficient_coin, Coin};
use name_service::error::ContractError;

fn coin(amount: u128, denom: &str) -> Coin {
    Coin::new(denom.to_string(), amount)
}

#[test]
fn nothing_sent_for_a_price_fails() {
    let sent: Vec<Coin> = vec![];
    assert_eq!(
        assert_sent_sufficient_coin(&sent, Some(coin(10, "x"))),
        Err(ContractError::InsufficientFundsSend)
    );
}

#[test]
fn exact_coin_pays() {
    let sent = vec![coin(10, "x")];
    assert_eq!(
        assert_sent_sufficient_coin(&sent, Some(coin(10, "x"))),
        Ok(Some(&coin(10, "x")))
    );
}

#[test]
fn no_price_asks_for_nothing() {
    let none: Vec<Coin> = vec![];
    assert_eq!(assert_sent_sufficient_coin(&none, None), Ok(None));
    let some = vec![coin(3, "x"), coin(7, "y")];
    assert_eq!(assert_sent_sufficient_coin(&some, None), Ok(None));
}

#[test]
fn zero_price_asks_for_nothing() {
    let sent: Vec<Coin> = vec![];
    assert_eq!(assert_sent_sufficient_coin(&sent, Some(coin(0, "x"))), Ok(None));
}

#[test]
fn coins_are_not_added_together() {
    let sent = vec![coin(6, "x"), coin(6, "x")];
    assert_eq!(
        assert_sent_sufficient_coin(&sent, Some(coin(10, "x"))),
        Err(ContractError::InsufficientFundsSend)
    );
}

#[test]
fn other_denomination_does_not_pay() {
    let sent = vec![coin(100, "y")];
    assert_eq!(
        assert_sent_sufficient_coin(&sent, Some(coin(10, "x"))),
        Err(ContractError::InsufficientFundsSend)
    );
}

#[test]
fn first_covering_coin_is_returned() {
    let sent = vec![coin(5, "x"), coin(50, "y"), coin(12, "x"), coin(20, "x")];
    assert_eq!(
        assert_sent_sufficient_coin(&sent, Some(coin(10, "x"))),
        Ok(Some(&coin(12, "x")))
    );
}

#[test]
fn largest_amount_is_handled() {
    let sent = vec![coin(u128::MAX, "x")];
    assert_eq!(
        assert_sent_sufficient_coin(&sent, Some(coin(u128::MAX, "x"))),
        Ok(Some(&coin(u128::MAX, "x")))
    );
}
