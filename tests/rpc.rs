use haithe::rpc::{HttpMethod, ParamPlacement, RpcPlan, RpcTool};

#[test]
fn rpc_tool_identity() {
    assert_eq!(RpcTool.name(), "rpc");
    assert!(RpcTool.description().starts_with("Send an HTTP request"));
}

#[test]
fn rpc_methods_are_compared_in_uppercase() {
    let p = RpcTool.plan("get", Some("query")).unwrap();
    assert_eq!(p, RpcPlan { method: HttpMethod::Get, placement: ParamPlacement::Query });
    let p = RpcTool.plan("Get", None).unwrap();
    assert_eq!(p, RpcPlan { method: HttpMethod::Get, placement: ParamPlacement::Omitted });
    let p = RpcTool.plan("post", None).unwrap();
    assert_eq!(p, RpcPlan { method: HttpMethod::Post, placement: ParamPlacement::Body });
    let p = RpcTool.plan("POST", Some("query")).unwrap();
    assert_eq!(p, RpcPlan { method: HttpMethod::Post, placement: ParamPlacement::Query });
}

#[test]
fn rpc_other_methods_are_refused() {
    assert_eq!(RpcTool.plan("delete", None).unwrap_err(), "Unsupported HTTP method");
    assert!(RpcTool::plan_for_upper("get", None).is_err());
}
