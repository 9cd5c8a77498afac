//! What every run of the pipeline guarantees, stated over its transition
//! function and proved.

use vstd::prelude::*;
use crate::billing::{clamped, costs_sum};
use crate::catalog::{catalog, first_named};
use crate::entitlement::{Entitlements, choices_in_range};
use crate::error::{ErrorKind, error_of};
use crate::pipeline::{
    ActionView, Event, PipelineView, finish_err, lemma_next_preserves_inv, next,
    pipeline_inv,
};

verus! {

/// The total cost is fixed before any payment is issued: whenever the
/// pipeline asks for a payment, or reports success, every matched product has
/// been loaded and the total cost is the model's price plus the sum of the
/// products' prices.
pub proof fn lemma_cost_fixed_before_payment(s: PipelineView, e: Event)
    requires
        pipeline_inv(s),
    ensures
        ({
            let (t, a) = next(s, e);
            (a is CollectProductPayment || a is CollectModelPayment || a matches ActionView::Finish(
                Ok(_),
            )) ==> {
                &&& t.payments.len() == t.products.len()
                &&& t.total_cost == t.model_price + costs_sum(t.payments)
            }
        }),
        ({
            let (t, a) = next(s, e);
            a matches ActionView::Finish(Ok(r)) ==> r.total_cost == t.total_cost
        }),
{
    lemma_next_preserves_inv(s, e);
}

/// Once finished, a pipeline stays finished and asks for no further work.
pub proof fn lemma_finished_is_final(s: PipelineView, e: Event)
    requires
        s.stage is Finished,
    ensures
        next(s, e).0 == s,
        next(s, e).1 is Finish,
{
}

/// A request for a number of completions outside one to five ends at its
/// first event, so that no product is fetched, no payment is issued and the
/// ledger is not touched; where the organization, the project and an
/// enrolled active model are found, it ends as a bad request.
pub proof fn lemma_choice_count_checked_first(s: PipelineView, e: Event)
    requires
        s.stage is Resolving,
        !choices_in_range(s.n),
    ensures
        next(s, e).0.stage is Finished,
        next(s, e).1 is Finish,
        e matches Event::Entitlements(ent) ==> ({
            &&& ent.organization is Some
            &&& ent.project is Some
            &&& first_named(catalog(), s.model) matches Some(m)
            &&& ent.enrolled_models@.contains(m.id)
            &&& m.is_active
        }) ==> next(s, e).1 == ActionView::Finish(
            Err(error_of(ErrorKind::BadRequest, "n must be between 1 and 5"@)),
        ),
{
}

/// An unknown or inactive model ends the call at its first event, before any
/// product is touched: as a bad request when the name is unknown, as
/// forbidden when the model is inactive, once organization and project are found.
pub proof fn lemma_model_checked_first(s: PipelineView, e: Event)
    requires
        s.stage is Resolving,
        first_named(catalog(), s.model) matches Some(m) ==> !m.is_active,
    ensures
        next(s, e).0.stage is Finished,
        next(s, e).1 is Finish,
        e matches Event::Entitlements(ent) ==> ent.organization is Some && ent.project is Some
            ==> next(s, e).1 == ActionView::Finish(
            Err(
                if first_named(catalog(), s.model) is None {
                    error_of(ErrorKind::BadRequest, "Invalid model"@)
                } else {
                    error_of(ErrorKind::Forbidden, "Forbidden"@)
                },
            ),
        ),
{
}

/// A creator whose on-chain id is zero is never charged: the pipeline moves
/// past that payment without collecting it, and the knowledge and preamble
/// gathered from the product stay in place.
pub proof fn lemma_unregistered_creator_not_charged(s: PipelineView)
    requires
        pipeline_inv(s),
        s.stage is Paying,
    ensures
        !(next(s, Event::CreatorResolved(0)).1 is CollectProductPayment),
        next(s, Event::CreatorResolved(0)).0.knowledge == s.knowledge,
        next(s, Event::CreatorResolved(0)).0.preamble == s.preamble,
        next(s, Event::CreatorResolved(0)).0.payments == s.payments,
{
}

/// When the balance does not cover the total cost, the call ends as
/// "Insufficient funds" and no expenditure update is asked for.
pub proof fn lemma_insufficient_funds(s: PipelineView, balance: u64, expenditure: i64)
    requires
        s.stage is Auditing,
        balance < s.total_cost,
    ensures
        next(s, Event::LedgerRead { balance, expenditure }) == finish_err(
            s,
            error_of(ErrorKind::BadRequest, "Insufficient funds"@),
        ),
{
}

/// The expenditure reported to the caller is the one read before this call's
/// charge, while the counter is asked to grow by exactly the total cost.
pub proof fn lemma_reported_expenditure_is_prior(
    s: PipelineView,
    balance: u64,
    expenditure: i64,
    responses: Vec<String>,
)
    requires
        s.stage is Auditing,
        balance >= s.total_cost,
        s.total_cost <= i64::MAX,
        responses.len() == s.n,
    ensures
        ({
            let (t, a1) = next(s, Event::LedgerRead { balance, expenditure });
            let (u, a2) = next(t, Event::Confirmed);
            let (v, a3) = next(u, Event::Completions(responses));
            &&& a1 == ActionView::RecordExpenditure { org_id: s.org_id, increment: s.total_cost as i64 }
            &&& a2 is Complete
            &&& a3 matches ActionView::Finish(Ok(r))
            &&& r.current_expenditure == clamped(expenditure)
            &&& r.total_cost == s.total_cost
        }),
{
}

/// The expenditure counter only grows, and only at the ledger step: an
/// update is asked for while the balance is being checked, for exactly the
/// call's total cost, which is never negative.
pub proof fn lemma_expenditure_only_grows(s: PipelineView, e: Event)
    requires
        pipeline_inv(s),
    ensures
        next(s, e).1 matches ActionView::RecordExpenditure { org_id, increment } ==> {
            &&& s.stage is Auditing
            &&& org_id == s.org_id
            &&& increment >= 0
            &&& increment == s.total_cost
        },
{
}

} // verus!
