//! Resolving a caller's organization, project and model, and checking that
//! the call is allowed.

use vstd::prelude::*;
use crate::catalog::{ModelView, catalog, find_model, first_named};
use crate::entities::{Organization, ProjectSettings};
use crate::error::{ApiError, ErrorKind, ErrorView, error_of};

verus! {

/// What the store holds of a caller's organization, project and enrolments.
#[derive(Debug)]
pub struct Entitlements {
    pub organization: Option<Organization>,
    pub project: Option<ProjectSettings>,
    pub enrolled_models: Vec<u64>,
}

/// The identities and settings that a call runs under.
#[derive(Debug)]
pub struct Resolution {
    pub org_id: i64,
    pub org_address: String,
    pub project_id: i64,
    pub search_enabled: bool,
    pub memory_enabled: bool,
    pub model_id: u64,
    pub model_price: u64,
}

/// Mathematical view of a resolution.
pub struct ResolutionView {
    pub org_id: i64,
    pub org_address: Seq<char>,
    pub project_id: i64,
    pub search_enabled: bool,
    pub memory_enabled: bool,
    pub model_id: u64,
    pub model_price: u64,
}

impl View for Resolution {
    type V = ResolutionView;

    open spec fn view(&self) -> ResolutionView {
        ResolutionView {
            org_id: self.org_id,
            org_address: self.org_address@,
            project_id: self.project_id,
            search_enabled: self.search_enabled,
            memory_enabled: self.memory_enabled,
            model_id: self.model_id,
            model_price: self.model_price,
        }
    }
}

/// The largest number of completions a request may ask for.
pub const MAX_CHOICES: u32 = 5;

/// Whether a requested number of completions is allowed.
pub open spec fn choices_in_range(n: u32) -> bool {
    1 <= n <= MAX_CHOICES
}

/// The resolution of a call, or the error it is refused with, in this order:
/// unknown organization or project, unknown model, a model that is not
/// enrolled or not active, a number of completions out of range.
pub open spec fn resolution_of(model: Seq<char>, n: u32, e: Entitlements) -> Result<
    ResolutionView,
    ErrorView,
> {
    match e.organization {
        None => Err(error_of(ErrorKind::NotFound, "Organization not found"@)),
        Some(org) => match e.project {
            None => Err(error_of(ErrorKind::NotFound, "Project not found"@)),
            Some(project) => match first_named(catalog(), model) {
                None => Err(error_of(ErrorKind::BadRequest, "Invalid model"@)),
                Some(m) => {
                    if !e.enrolled_models@.contains(m.id) || !m.is_active {
                        Err(error_of(ErrorKind::Forbidden, "Forbidden"@))
                    } else if !choices_in_range(n) {
                        Err(error_of(ErrorKind::BadRequest, "n must be between 1 and 5"@))
                    } else {
                        Ok(
                            ResolutionView {
                                org_id: org.id,
                                org_address: org.address@,
                                project_id: project.id,
                                search_enabled: project.search_enabled,
                                memory_enabled: project.memory_enabled,
                                model_id: m.id,
                                model_price: m.price_per_call,
                            },
                        )
                    }
                },
            },
        },
    }
}

/// The view of a result whose success carries a resolution.
pub open spec fn resolution_result_view(r: Result<Resolution, ApiError>) -> Result<
    ResolutionView,
    ErrorView,
> {
    match r {
        Ok(x) => Ok(x@),
        Err(e) => Err(e@),
    }
}

fn contains_id(ids: &Vec<u64>, id: u64) -> (r: bool)
    ensures
        r == ids@.contains(id),
{
    let mut i: usize = 0;
    while i < ids.len()
        invariant
            i <= ids.len(),
            forall|j: int| 0 <= j < i ==> ids@[j] != id,
        decreases ids.len() - i,
    {
        if ids[i] == id {
            return true;
        }
        i = i + 1;
    }
    false
}

/// Resolves the identities of a call and checks that it is allowed.
pub fn resolve(model: &str, n: u32, entitlements: &Entitlements) -> (r: Result<
    Resolution,
    ApiError,
>)
    ensures
        resolution_result_view(r) == resolution_of(model@, n, *entitlements),
{
    let org = match &entitlements.organization {
        Some(o) => o,
        None => {
            return Err(ApiError::not_found("Organization not found"));
        },
    };
    let project = match &entitlements.project {
        Some(p) => p,
        None => {
            return Err(ApiError::not_found("Project not found"));
        },
    };
    let m = match find_model(model) {
        Some(m) => m,
        None => {
            return Err(ApiError::bad_request("Invalid model"));
        },
    };
    if !contains_id(&entitlements.enrolled_models, m.id) || !m.is_active {
        return Err(ApiError::Forbidden);
    }
    if n < 1 || n > MAX_CHOICES {
        return Err(ApiError::bad_request("n must be between 1 and 5"));
    }
    Ok(
        Resolution {
            org_id: org.id,
            org_address: org.address.clone(),
            project_id: project.id,
            search_enabled: project.search_enabled,
            memory_enabled: project.memory_enabled,
            model_id: m.id,
            model_price: m.price_per_call,
        },
    )
}

} // verus!
