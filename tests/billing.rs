use haithe::billing::{next_chargeable, settle, Payment};
use haithe::error::{ApiError, ErrorKind};

#[test]
fn settle_reports_prior_expenditure() {
    let s = settle(1000, 250, 100).unwrap();
    assert_eq!(s.current_expenditure, 250);
    assert_eq!(s.increment, 100);
}

#[test]
fn negative_expenditure_counts_as_zero() {
    let s = settle(1000, -5, 10).unwrap();
    assert_eq!(s.current_expenditure, 0);
    assert_eq!(s.increment, 10);
}

#[test]
fn insufficient_funds_is_a_bad_request() {
    let e = settle(99, 0, 100).unwrap_err();
    assert_eq!(e.kind(), ErrorKind::BadRequest);
    assert_eq!(e.message(), "Insufficient funds");
    assert_eq!(e.status_code(), 400);
}

#[test]
fn exact_balance_is_enough() {
    assert_eq!(settle(100, 0, 100).unwrap().increment, 100);
}

#[test]
fn total_beyond_counter_range_is_refused() {
    let e = settle(u64::MAX, 0, u64::MAX).unwrap_err();
    assert_eq!(e.kind(), ErrorKind::Internal);
}

#[test]
fn free_payments_are_skipped() {
    let p = |c: u64| Payment { product: "p".to_string(), creator: "c".to_string(), cost: c };
    let v = vec![p(0), p(5), p(0), p(7)];
    assert_eq!(next_chargeable(&v, 0), 1);
    assert_eq!(next_chargeable(&v, 2), 3);
    assert_eq!(next_chargeable(&v, 4), 4);
    assert_eq!(next_chargeable(&vec![p(0)], 0), 1);
}

#[test]
fn error_statuses() {
    assert_eq!(ApiError::not_found("x").status_code(), 404);
    assert_eq!(ApiError::Unauthorized.status_code(), 401);
    assert_eq!(ApiError::Forbidden.status_code(), 403);
    assert_eq!(ApiError::bad_request("x").status_code(), 400);
    assert_eq!(ApiError::internal("x").status_code(), 500);
    assert_eq!(ApiError::Forbidden.message(), "Forbidden");
    assert_eq!(ApiError::Unauthorized.message(), "Unauthorized");
}
