use vstd::prelude::*;

verus! {

/// A liquidity position to exit: shares of a pool, paid out in one denom.
pub struct LpToken {
    pub pool_id: u64,
    pub shares: String,
    pub denom_out: String,
    pub min_tokens: String,
}

/// One element of a restake queue: join `pool_id` with `amount` of `denom`,
/// then lock the shares for `duration` seconds.
pub struct RestakeParams {
    pub amount: String,
    pub denom: String,
    pub pool_id: u64,
    pub duration: u64,
    pub share_out_min_amount: String,
}

/// Exit a pool position into a single denom.
pub struct RemoveLiquidityParams {
    pub pool_id: u64,
    pub shares: String,
    pub denom_out: String,
    pub min_tokens: String,
}

/// Swap through one pool into `denom_out`.
pub struct SwapParams {
    pub pool_id: u64,
    pub denom_out: String,
    pub amount_out_min: String,
}

/// Join one pool with a single token.
pub struct AddLiquidityParams {
    pub amount: String,
    pub denom: String,
    pub pool_id: u64,
    pub share_out_min_amount: String,
}

/// An amount of one denom.
pub struct Coin {
    pub denom: String,
    pub amount: u128,
}

/// What a list of coins holds: each denom with its amount, in order.
pub open spec fn coins_view(s: Seq<Coin>) -> Seq<(Seq<char>, u128)> {
    s.map_values(|c: Coin| (c.denom@, c.amount))
}

pub fn copy_coin(c: &Coin) -> (r: Coin)
    ensures
        r.denom@ == c.denom@,
        r.amount == c.amount,
{
    Coin { denom: c.denom.clone(), amount: c.amount }
}

pub fn copy_coins(v: &Vec<Coin>) -> (r: Vec<Coin>)
    ensures
        coins_view(r@) == coins_view(v@),
{
    let mut r: Vec<Coin> = Vec::new();
    let mut i: usize = 0;
    while i < v.len()
        invariant
            i <= v@.len(),
            r@.len() == i,
            forall|j: int|
                0 <= j < i ==> (#[trigger] r@[j]).denom@ == v@[j].denom@ && r@[j].amount
                    == v@[j].amount,
        decreases v@.len() - i,
    {
        r.push(copy_coin(&v[i]));
        i = i + 1;
    }
    assert(coins_view(r@) =~= coins_view(v@));
    r
}

} // verus!
