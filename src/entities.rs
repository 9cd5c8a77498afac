//! Durable records of the service that the pipeline reads.

use vstd::prelude::*;

verus! {

/// A signed-in account.
#[derive(Debug)]
pub struct AuthUser {
    pub wallet_address: String,
    pub created_at: String,
}

/// The identity behind an API key: the caller's wallet, organization and project.
#[derive(Debug)]
pub struct ApiCaller {
    pub wallet_address: String,
    pub org_uid: String,
    pub project_uid: String,
}

/// A tenant: the entity that is billed, with its on-chain address and the
/// running total it has been charged.
#[derive(Debug)]
pub struct Organization {
    pub id: i64,
    pub organization_uid: String,
    pub address: String,
    pub orchestrator_idx: i64,
    pub name: String,
    pub owner: String,
    pub created_at: String,
    pub expenditure: i64,
}

/// A purchasable unit of context, priced per call and owned by a creator.
#[derive(Debug)]
pub struct Product {
    pub id: i64,
    pub address: String,
    pub orchestrator_idx: i64,
    pub creator: String,
    pub name: String,
    pub uri: String,
    pub encrypted_key: String,
    pub price_per_call: i64,
    pub category: String,
    pub created_at: String,
}

/// The settings of a project that a call depends on.
#[derive(Debug)]
pub struct ProjectSettings {
    pub id: i64,
    pub search_enabled: bool,
    pub memory_enabled: bool,
}

/// What the pipeline reads of a product before fetching its payload.
#[derive(Debug)]
pub struct ProductTerms {
    pub uri: String,
    pub price_per_call: i64,
    pub category: String,
    pub creator: String,
}

} // verus!
