//! Cost accounting: the payment worklist and the usage ledger.

use vstd::prelude::*;
use crate::error::{ApiError, ErrorKind, ErrorView, error_of};

verus! {

/// A payment owed for one product: to its creator, for its price per call.
#[derive(Debug)]
pub struct Payment {
    pub product: String,
    pub creator: String,
    pub cost: u64,
}

/// Mathematical view of a payment.
pub struct PaymentView {
    pub product: Seq<char>,
    pub creator: Seq<char>,
    pub cost: u64,
}

impl View for Payment {
    type V = PaymentView;

    open spec fn view(&self) -> PaymentView {
        PaymentView { product: self.product@, creator: self.creator@, cost: self.cost }
    }
}

/// The views of a list of payments.
pub open spec fn payment_views(p: Seq<Payment>) -> Seq<PaymentView> {
    p.map_values(|x: Payment| x@)
}

/// The sum of the costs of a list of payments.
pub open spec fn costs_sum(p: Seq<PaymentView>) -> int
    decreases p.len(),
{
    if p.len() == 0 {
        0
    } else {
        costs_sum(p.drop_last()) + p.last().cost
    }
}

/// The first payment at or after `from` that costs something, or the length
/// of the list where there is none.
pub open spec fn first_chargeable(p: Seq<PaymentView>, from: int) -> int
    decreases p.len() - from,
{
    if from < 0 || from >= p.len() {
        p.len() as int
    } else if p[from].cost > 0 {
        from
    } else {
        first_chargeable(p, from + 1)
    }
}

/// Finds the first payment at or after `from` that costs something.
pub fn next_chargeable(payments: &Vec<Payment>, from: usize) -> (j: usize)
    requires
        from <= payments.len(),
    ensures
        j == first_chargeable(payment_views(payments@), from as int),
{
    let ghost p = payment_views(payments@);
    let mut j = from;
    while j < payments.len()
        invariant
            from <= j <= payments.len(),
            p == payment_views(payments@),
            first_chargeable(p, from as int) == first_chargeable(p, j as int),
        decreases payments.len() - j,
    {
        assert(p[j as int].cost == payments@[j as int].cost);
        if payments[j].cost > 0 {
            return j;
        }
        j = j + 1;
    }
    j
}

/// The expenditure counter as read from the store, negative values counting as zero.
pub open spec fn clamped(expenditure: i64) -> u64 {
    if expenditure < 0 {
        0
    } else {
        expenditure as u64
    }
}

/// The outcome of the ledger step.
#[derive(Debug)]
pub struct Settlement {
    /// The expenditure before this call's charge: what the caller is told.
    pub current_expenditure: u64,
    /// The amount to add to the expenditure counter.
    pub increment: i64,
}

/// Mathematical view of the ledger step's outcome.
pub struct SettlementView {
    pub current_expenditure: u64,
    pub increment: i64,
}

impl View for Settlement {
    type V = SettlementView;

    open spec fn view(&self) -> SettlementView {
        SettlementView { current_expenditure: self.current_expenditure, increment: self.increment }
    }
}

/// The ledger step: refused when the balance does not cover the total cost,
/// or when the total does not fit the counter; else the counter grows by the
/// total and the caller is told the expenditure before it.
pub open spec fn settlement_of(balance: u64, expenditure: i64, total_cost: u64) -> Result<
    SettlementView,
    ErrorView,
> {
    if balance < total_cost {
        Err(error_of(ErrorKind::BadRequest, "Insufficient funds"@))
    } else if total_cost > i64::MAX {
        Err(error_of(ErrorKind::Internal, "Total cost exceeds the ledger range"@))
    } else {
        Ok(
            SettlementView {
                current_expenditure: clamped(expenditure),
                increment: total_cost as i64,
            },
        )
    }
}

/// The view of a result whose success carries a settlement.
pub open spec fn settlement_result_view(r: Result<Settlement, ApiError>) -> Result<
    SettlementView,
    ErrorView,
> {
    match r {
        Ok(x) => Ok(x@),
        Err(e) => Err(e@),
    }
}

/// Checks the balance against the total cost and settles the charge.
pub fn settle(balance: u64, expenditure: i64, total_cost: u64) -> (r: Result<Settlement, ApiError>)
    ensures
        settlement_result_view(r) == settlement_of(balance, expenditure, total_cost),
{
    let current_expenditure: u64 = if expenditure < 0 {
        0
    } else {
        expenditure as u64
    };
    if balance < total_cost {
        return Err(ApiError::bad_request("Insufficient funds"));
    }
    if total_cost > i64::MAX as u64 {
        return Err(ApiError::internal("Total cost exceeds the ledger range"));
    }
    Ok(Settlement { current_expenditure, increment: total_cost as i64 })
}

/// A charge never lowers the expenditure counter, and the caller is told the
/// counter as it was before the charge.
pub proof fn lemma_settlement_grows_expenditure(balance: u64, expenditure: i64, total_cost: u64)
    ensures
        settlement_of(balance, expenditure, total_cost) matches Ok(s) ==> {
            &&& s.increment >= 0
            &&& s.increment == total_cost
            &&& s.current_expenditure == clamped(expenditure)
        },
        balance < total_cost ==> settlement_of(balance, expenditure, total_cost) == Err::<
            SettlementView,
            ErrorView,
        >(error_of(ErrorKind::BadRequest, "Insufficient funds"@)),
{
}

} // verus!
