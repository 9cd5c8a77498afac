//! The agent's RPC tool: which HTTP request a tool call makes.

use vstd::prelude::*;

verus! {

/// The HTTP methods that the tool supports.
#[derive(PartialEq, Eq, Structural, Clone, Copy, Debug)]
pub enum HttpMethod {
    Get,
    Post,
}

/// Where the call's parameters go.
#[derive(PartialEq, Eq, Structural, Clone, Copy, Debug)]
pub enum ParamPlacement {
    /// In the query string.
    Query,
    /// As a JSON body.
    Body,
    /// Nowhere: they are dropped.
    Omitted,
}

/// The request that a tool call makes.
#[derive(PartialEq, Eq, Structural, Clone, Copy, Debug)]
pub struct RpcPlan {
    pub method: HttpMethod,
    pub placement: ParamPlacement,
}

/// What `str::to_uppercase` makes of a text.
pub uninterp spec fn upper_of(s: Seq<char>) -> Seq<char>;

/// Relies on `str::to_uppercase`: the result depends on the characters alone.
#[verifier::external_body]
fn uppercase(s: &str) -> (r: String)
    ensures
        r@ == upper_of(s@),
{
    s.to_uppercase()
}

/// The request for an uppercase method name and a parameter position
/// (`body` when absent): a GET sends its parameters only when they go in the
/// query, a POST sends them in the query or as a body; other methods are refused.
pub open spec fn plan_of(upper_method: Seq<char>, position: Seq<char>) -> Option<RpcPlan> {
    if upper_method == "GET"@ {
        Some(
            RpcPlan {
                method: HttpMethod::Get,
                placement: if position == "query"@ {
                    ParamPlacement::Query
                } else {
                    ParamPlacement::Omitted
                },
            },
        )
    } else if upper_method == "POST"@ {
        Some(
            RpcPlan {
                method: HttpMethod::Post,
                placement: if position == "query"@ {
                    ParamPlacement::Query
                } else {
                    ParamPlacement::Body
                },
            },
        )
    } else {
        None
    }
}

/// A tool that sends an HTTP request to a remote URL and returns the JSON
/// response.
#[derive(Debug)]
pub struct RpcTool;

impl RpcTool {
    /// The tool's name.
    pub fn name(&self) -> (r: &'static str)
        ensures
            r@ == "rpc"@,
    {
        "rpc"
    }

    /// The tool's description.
    pub fn description(&self) -> (r: &'static str)
        ensures
            r@ == "Send an HTTP request to a remote URL using GET/POST and return the response JSON"@,
    {
        "Send an HTTP request to a remote URL using GET/POST and return the response JSON"
    }

    /// The request for a method name already in uppercase.
    pub fn plan_for_upper(upper_method: &str, param_position: Option<&str>) -> (r: Result<
        RpcPlan,
        String,
    >)
        ensures
            match r {
                Ok(p) => plan_of(
                    upper_method@,
                    match param_position {
                        Some(q) => q@,
                        None => "body"@,
                    },
                ) == Some(p),
                Err(m) => plan_of(
                    upper_method@,
                    match param_position {
                        Some(q) => q@,
                        None => "body"@,
                    },
                ) is None && m@ == "Unsupported HTTP method"@,
            },
    {
        let position = match param_position {
            Some(q) => q,
            None => "body",
        };
        let query = position.eq("query");
        if upper_method.eq("GET") {
            Ok(
                RpcPlan {
                    method: HttpMethod::Get,
                    placement: if query {
                        ParamPlacement::Query
                    } else {
                        ParamPlacement::Omitted
                    },
                },
            )
        } else if upper_method.eq("POST") {
            Ok(
                RpcPlan {
                    method: HttpMethod::Post,
                    placement: if query {
                        ParamPlacement::Query
                    } else {
                        ParamPlacement::Body
                    },
                },
            )
        } else {
            Err("Unsupported HTTP method".to_owned())
        }
    }

    /// The request that a call with this method and parameter position makes;
    /// the method name is compared in uppercase.
    pub fn plan(&self, method: &str, param_position: Option<&str>) -> (r: Result<RpcPlan, String>)
        ensures
            match r {
                Ok(p) => plan_of(
                    upper_of(method@),
                    match param_position {
                        Some(q) => q@,
                        None => "body"@,
                    },
                ) == Some(p),
                Err(m) => plan_of(
                    upper_of(method@),
                    match param_position {
                        Some(q) => q@,
                        None => "body"@,
                    },
                ) is None && m@ == "Unsupported HTTP method"@,
            },
    {
        let upper = uppercase(method);
        RpcTool::plan_for_upper(upper.as_str(), param_position)
    }
}

} // verus!
