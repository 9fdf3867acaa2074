use vstd::prelude::*;

use crate::error::ContractError;

verus! {

/// An amount of one denomination of funds.
#[derive(Debug)]
pub struct Coin {
    pub denom: String,
    pub amount: u128,
}

/// What a coin is, as a mathematical value.
pub struct CoinView {
    pub denom: Seq<char>,
    pub amount: u128,
}

impl View for Coin {
    type V = CoinView;

    open spec fn view(&self) -> CoinView {
        CoinView { denom: self.denom@, amount: self.amount }
    }
}

impl Coin {
    pub fn new(denom: String, amount: u128) -> (r: Coin)
        ensures
            r.denom == denom,
            r.amount == amount,
    {
        Coin { denom, amount }
    }

    /// A copy of this coin.
    pub fn duplicate(&self) -> (r: Coin)
        ensures
            r == *self,
    {
        Coin { denom: self.denom.clone(), amount: self.amount }
    }
}

impl PartialEq for Coin {
    fn eq(&self, other: &Coin) -> (r: bool) {
        self.denom == other.denom && self.amount == other.amount
    }
}

impl vstd::std_specs::cmp::PartialEqSpecImpl for Coin {
    open spec fn obeys_eq_spec() -> bool {
        true
    }

    open spec fn eq_spec(&self, other: &Coin) -> bool {
        self@ == other@
    }
}

/// `sent` alone covers `required`: same denomination and at least the amount.
pub open spec fn covers(sent: CoinView, required: CoinView) -> bool {
    sent.denom == required.denom && sent.amount >= required.amount
}

/// The value of an optional price.
pub open spec fn price_view(price: Option<Coin>) -> Option<CoinView> {
    match price {
        Some(c) => Some(c@),
        None => None,
    }
}

/// A payment is asked for: a price that is present and not zero.
pub open spec fn payment_required(required: Option<CoinView>) -> bool {
    required is Some && required->Some_0.amount > 0
}

/// `i` is the first position in `sent` whose coin covers `required`.
pub open spec fn first_cover(sent: Seq<Coin>, required: CoinView, i: int) -> bool {
    &&& 0 <= i < sent.len()
    &&& covers(sent[i]@, required)
    &&& forall|j: int| 0 <= j < i ==> !covers(#[trigger] sent[j]@, required)
}

/// Some coin of `sent` covers `required` by itself.
pub open spec fn some_cover(sent: Seq<Coin>, required: CoinView) -> bool {
    exists|i: int| 0 <= i < sent.len() && covers(#[trigger] sent[i]@, required)
}

/// The position of the first coin of `sent` that covers `required`, where there is one.
pub open spec fn first_cover_at(sent: Seq<Coin>, required: CoinView) -> int {
    choose|i: int| first_cover(sent, required, i)
}

/// The funds sent pay `required`.
pub open spec fn funds_cover(sent: Seq<Coin>, required: Option<CoinView>) -> bool {
    !payment_required(required) || some_cover(sent, required->Some_0)
}

/// The price a name carries after a transfer that paid `required` from `sent`:
/// the coin that covered it, or `required` itself where nothing was asked.
pub open spec fn price_after_payment(sent: Seq<Coin>, required: CoinView) -> CoinView {
    if payment_required(Some(required)) {
        sent[first_cover_at(sent, required)]@
    } else {
        required
    }
}

/// Checks that the funds sent pay `required`. No price, or a price of zero,
/// asks for nothing and gives `Ok(None)`. Otherwise the first coin of `sent`
/// that alone covers the price is returned; coins are never added together.
pub fn assert_sent_sufficient_coin<'a>(sent: &'a [Coin], required: Option<Coin>) -> (r: Result<
    Option<&'a Coin>,
    ContractError,
>)
    ensures
        !payment_required(price_view(required)) ==> r == Ok::<Option<&Coin>, ContractError>(None),
        payment_required(price_view(required)) ==> match r {
            Ok(Some(c)) => some_cover(sent@, required->Some_0@) && *c == sent@[first_cover_at(
                sent@,
                required->Some_0@,
            )],
            Ok(None) => false,
            Err(e) => e == ContractError::InsufficientFundsSend && !some_cover(
                sent@,
                required->Some_0@,
            ),
        },
{
    if let Some(required_coin) = required {
        let required_amount = required_coin.amount;
        if required_amount > 0 {
            let mut i: usize = 0;
            while i < sent.len()
                invariant
                    0 <= i <= sent@.len(),
                    required == Some(required_coin),
                    required_amount == required_coin.amount,
                    required_amount > 0,
                    forall|j: int| 0 <= j < i ==> !covers(#[trigger] sent@[j]@, required_coin@),
                decreases sent@.len() - i,
            {
                let coin = &sent[i];
                if coin.denom == required_coin.denom && coin.amount >= required_amount {
                    proof {
                        let k = first_cover_at(sent@, required_coin@);
                        assert(first_cover(sent@, required_coin@, i as int));
                        assert(first_cover(sent@, required_coin@, k));
                        if k < i {
                            assert(!covers(sent@[k]@, required_coin@));
                        } else if i < k {
                            assert(!covers(sent@[i as int]@, required_coin@));
                        }
                    }
                    return Ok(Some(coin));
                }
                i += 1;
            }
            return Err(ContractError::InsufficientFundsSend);
        }
    }
    Ok(None)
}

} // verus!
