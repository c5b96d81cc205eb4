use crate::types::Principal;
use vstd::prelude::*;

verus! {

/// One price quotation delivered by a market feed: the quoted price and the
/// asset in which it is denominated.
#[derive(Debug)]
pub struct MarketData {
    pub price: i128,
    pub asset: Principal,
}

/// Reconciles a quotation before it is recorded. Quotations are recorded as
/// delivered, so the borrow handed back is the one handed in: it shows the
/// same quotation, and whatever is later written through it is what the
/// caller's quotation ends up holding.
pub fn reconcile_data<'a>(data: &'a mut MarketData) -> (reconciled: &'a mut MarketData)
    ensures
        *reconciled == *old(data),
        *final(data) == *final(reconciled),
{
    data
}

} // verus!
