use vstd::prelude::*;
use crate::error::ContractError;

verus! {

/// An amount of one named denomination.
#[derive(Debug, PartialEq, Eq)]
pub struct Coin {
    pub denom: String,
    pub amount: u128,
}

impl Coin {
    pub fn new(amount: u128, denom: &str) -> (r: Coin)
        ensures
            r.amount == amount,
            r.denom@ == denom@,
    {
        Coin { denom: denom.to_owned(), amount }
    }

    /// A copy of this coin.
    pub fn duplicate(&self) -> (r: Coin)
        ensures
            r == *self,
    {
        Coin { denom: self.denom.clone(), amount: self.amount }
    }
}

/// A copy of an optional price.
pub fn duplicate_price(p: &Option<Coin>) -> (r: Option<Coin>)
    ensures
        r == *p,
{
    match p {
        Some(c) => Some(c.duplicate()),
        None => None,
    }
}

/// The attached funds meet the price: no price, a price of zero, or a coin of
/// the price's denomination with at least its amount.
pub open spec fn funds_cover(sent: Seq<Coin>, required: Option<Coin>) -> bool {
    match required {
        None => true,
        Some(c) => c.amount == 0 || exists|i: int|
            0 <= i < sent.len() && #[trigger] sent[i].denom@ == c.denom@ && sent[i].amount
                >= c.amount,
    }
}

/// Succeeds exactly when the attached funds meet the required price.
pub fn assert_sent_sufficient_coin(sent: &Vec<Coin>, required: &Option<Coin>) -> (r: Result<
    (),
    ContractError,
>)
    ensures
        r is Ok <==> funds_cover(sent@, *required),
        r is Err ==> r == Err::<(), ContractError>(ContractError::InsufficientFundsSend {  }),
{
    if let Some(required_coin) = required {
        let required_amount = required_coin.amount;
        if required_amount > 0 {
            let mut i: usize = 0;
            while i < sent.len()
                invariant
                    i <= sent@.len(),
                    required_amount == required_coin.amount,
                    *required == Some(*required_coin),
                    forall|j: int|
                        0 <= j < i ==> !(#[trigger] sent@[j].denom@ == required_coin.denom@
                            && sent@[j].amount >= required_amount),
                decreases sent@.len() - i,
            {
                let coin = &sent[i];
                if coin.denom == required_coin.denom && coin.amount >= required_amount {
                    assert(sent@[i as int].denom@ == required_coin.denom@ && sent@[i as int].amount >= required_coin.amount);
                    return Ok(());
                }
                i = i + 1;
            }
            return Err(ContractError::InsufficientFundsSend {  });
        }
    }
    Ok(())
}

} // verus!
