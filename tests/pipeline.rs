use haithe::entities::{ApiCaller, Organization, ProductTerms, ProjectSettings};
use haithe::entitlement::Entitlements;
use haithe::error::{ApiError, ErrorKind};
use haithe::knowledge::KnowledgeItem;
use haithe::pipeline::{Action, CompletionResult, Event, Pipeline};
use haithe::request::{build_prompt, ChatMessage, CompletionRequest};

const ORG: &str = "0x1111111111111111111111111111111111111111";
const CREATOR: &str = "0x2222222222222222222222222222222222222222";

fn request(model: &str, n: u32) -> CompletionRequest {
    CompletionRequest {
        model: model.to_string(),
        messages: vec![
            ChatMessage { role: "system".to_string(), content: Some("hi".to_string()) },
            ChatMessage { role: "user".to_string(), content: None },
            ChatMessage { role: "user".to_string(), content: Some("what?".to_string()) },
        ],
        n,
        caller: ApiCaller {
            wallet_address: "0xabc".to_string(),
            org_uid: "org-1".to_string(),
            project_uid: "proj-1".to_string(),
        },
    }
}

fn organization() -> Organization {
    Organization {
        id: 7,
        organization_uid: "org-1".to_string(),
        address: ORG.to_string(),
        orchestrator_idx: 1,
        name: "Org".to_string(),
        owner: "0xabc".to_string(),
        created_at: "now".to_string(),
        expenditure: 0,
    }
}

fn entitlements(enrolled: Vec<u64>) -> Entitlements {
    Entitlements {
        organization: Some(organization()),
        project: Some(ProjectSettings { id: 3, search_enabled: false, memory_enabled: true }),
        enrolled_models: enrolled,
    }
}

fn product_bytes() -> [u8; 20] {
    [0x33; 20]
}

fn product_address() -> String {
    "0x3333333333333333333333333333333333333333".to_string()
}

fn terms(category: &str, price: i64) -> ProductTerms {
    ProductTerms {
        uri: "ipfs.io/ipfs/abc".to_string(),
        price_per_call: price,
        category: category.to_string(),
        creator: CREATOR.to_string(),
    }
}

fn expect_error(a: Action) -> ApiError {
    match a {
        Action::Finish(Err(e)) => e,
        _ => panic!("expected the call to end with an error"),
    }
}

fn expect_result(a: Action) -> CompletionResult {
    match a {
        Action::Finish(Ok(r)) => r,
        _ => panic!("expected the call to succeed"),
    }
}

/// Starts a call and answers the entitlement and product-list reads.
fn start_with_products(model: &str, n: u32, enrolled: Vec<u64>, products: bool) -> (Pipeline, Action) {
    let (mut p, a) = Pipeline::new(request(model, n));
    match a {
        Action::LoadEntitlements { org_uid, project_uid } => {
            assert_eq!(org_uid, "org-1");
            assert_eq!(project_uid, "proj-1");
        }
        _ => panic!("expected an entitlement read"),
    }
    match p.advance(Event::Entitlements(entitlements(enrolled))) {
        Action::LoadEnabledProducts { org_address, project_id } => {
            assert_eq!(org_address, ORG);
            assert_eq!(project_id, 3);
        }
        _ => panic!("expected a product-list read"),
    }
    let (on_chain, project) = if products {
        (vec![product_bytes()], vec![product_address()])
    } else {
        (Vec::new(), Vec::new())
    };
    let a = p.advance(Event::EnabledProducts { on_chain, project });
    (p, a)
}

#[test]
fn prompt_joins_message_texts() {
    let r = request("gemini-2.0-flash", 1);
    assert_eq!(build_prompt(&r.messages), "hi\nwhat?");
    assert_eq!(build_prompt(&Vec::new()), "");
}

#[test]
fn free_model_without_products_returns_n_choices() {
    let (mut p, a) = start_with_products("gemini-2.0-flash", 2, vec![1], false);
    match a {
        Action::ReadLedger { organization, org_id } => {
            assert_eq!(organization, [0x11; 20]);
            assert_eq!(org_id, 7);
        }
        _ => panic!("expected the ledger read"),
    }
    match p.advance(Event::LedgerRead { balance: 0, expenditure: 40 }) {
        Action::RecordExpenditure { org_id, increment } => {
            assert_eq!(org_id, 7);
            assert_eq!(increment, 0);
        }
        _ => panic!("expected the expenditure update"),
    }
    match p.advance(Event::Confirmed) {
        Action::Complete(job) => {
            assert_eq!(job.n, 2);
            assert_eq!(job.prompt, "hi\nwhat?");
            assert_eq!(job.preamble, "");
            assert!(job.knowledge.is_empty());
            assert!(job.memory_enabled);
            assert_eq!(job.project_uid, "proj-1");
            assert_eq!(job.model, "gemini-2.0-flash");
        }
        _ => panic!("expected the completions"),
    }
    let r = expect_result(p.advance(Event::Completions(vec!["a".to_string(), "b".to_string()])));
    assert_eq!(r.choices.len(), 2);
    assert_eq!(r.choices[0].index, 0);
    assert_eq!(r.choices[0].content, "a");
    assert_eq!(r.choices[1].index, 1);
    assert_eq!(r.choices[1].content, "b");
    assert_eq!(r.total_cost, 0);
    assert_eq!(r.current_expenditure, 40);
    assert_eq!(r.prompt_tokens, 8);
}

#[test]
fn priced_text_product_pays_its_creator() {
    let (mut p, a) = start_with_products("gemini-2.0-flash", 1, vec![1], true);
    match a {
        Action::LoadProduct { address } => assert_eq!(address, product_address()),
        _ => panic!("expected a product read"),
    }
    match p.advance(Event::ProductLoaded(terms("knowledge:text", 100))) {
        Action::FetchPayload { location } => assert_eq!(location, "https://ipfs.io/ipfs/abc"),
        _ => panic!("expected a payload fetch"),
    }
    match p.advance(Event::PayloadFetched(b"facts".to_vec())) {
        Action::ResolveCreator { creator } => assert_eq!(creator, [0x22; 20]),
        _ => panic!("expected a creator lookup"),
    }
    match p.advance(Event::CreatorResolved(9)) {
        Action::CollectProductPayment { organization, creator_id, amount } => {
            assert_eq!(organization, [0x11; 20]);
            assert_eq!(creator_id, 9);
            assert_eq!(amount, 100);
        }
        _ => panic!("expected one product payment"),
    }
    match p.advance(Event::Confirmed) {
        Action::ReadLedger { .. } => {}
        _ => panic!("expected the ledger read, with no model payment"),
    }
    match p.advance(Event::LedgerRead { balance: 1000, expenditure: 5 }) {
        Action::RecordExpenditure { increment, .. } => assert_eq!(increment, 100),
        _ => panic!("expected the expenditure update"),
    }
    match p.advance(Event::Confirmed) {
        Action::Complete(job) => {
            assert_eq!(job.knowledge.len(), 1);
            match &job.knowledge[0] {
                KnowledgeItem::Text(t) => assert_eq!(t, "facts"),
                _ => panic!("expected text knowledge"),
            }
        }
        _ => panic!("expected the completions"),
    }
    let r = expect_result(p.advance(Event::Completions(vec!["ok".to_string()])));
    assert_eq!(r.total_cost, 100);
    assert_eq!(r.current_expenditure, 5);
}

#[test]
fn malformed_promptset_aborts_before_payment() {
    let (mut p, _) = start_with_products("gemini-2.0-flash", 1, vec![1], true);
    p.advance(Event::ProductLoaded(terms("promptset", 100)));
    let e = expect_error(p.advance(Event::PayloadFetched(b"{not a list".to_vec())));
    assert_eq!(e.kind(), ErrorKind::BadRequest);
    assert_eq!(e.message(), "Failed to parse prompts");
    let e = expect_error(p.advance(Event::CreatorResolved(9)));
    assert_eq!(e.kind(), ErrorKind::Internal);
}

#[test]
fn promptset_extends_the_preamble() {
    let (mut p, _) = start_with_products("gemini-2.0-flash", 1, vec![1], true);
    p.advance(Event::ProductLoaded(terms("promptset", 0)));
    match p.advance(Event::PayloadFetched(br#"["be brief","cite"]"#.to_vec())) {
        Action::ReadLedger { .. } => {}
        _ => panic!("a free product needs no payment"),
    }
    p.advance(Event::LedgerRead { balance: 0, expenditure: 0 });
    match p.advance(Event::Confirmed) {
        Action::Complete(job) => {
            assert_eq!(job.preamble, "be brief\ncite\n");
            assert!(job.knowledge.is_empty());
        }
        _ => panic!("expected the completions"),
    }
}

#[test]
fn url_product_fetches_its_page() {
    let (mut p, _) = start_with_products("gemini-2.0-flash", 1, vec![1], true);
    p.advance(Event::ProductLoaded(terms("knowledge:url", 0)));
    match p.advance(Event::PayloadFetched(b"example.com/doc".to_vec())) {
        Action::FetchPage { url } => assert_eq!(url, "https://example.com/doc"),
        _ => panic!("expected a page fetch"),
    }
    p.advance(Event::PageFetched("<h1>doc</h1>".to_string()));
    p.advance(Event::LedgerRead { balance: 0, expenditure: 0 });
    match p.advance(Event::Confirmed) {
        Action::Complete(job) => match &job.knowledge[0] {
            KnowledgeItem::Html { document, base_url } => {
                assert_eq!(document, "<h1>doc</h1>");
                assert_eq!(base_url, "https://example.com/doc");
            }
            _ => panic!("expected html knowledge"),
        },
        _ => panic!("expected the completions"),
    }
}

#[test]
fn choice_count_out_of_range_is_refused() {
    for n in [0u32, 6, 100] {
        let (mut p, _) = Pipeline::new(request("gemini-2.0-flash", n));
        let e = expect_error(p.advance(Event::Entitlements(entitlements(vec![1]))));
        assert_eq!(e.kind(), ErrorKind::BadRequest);
        assert_eq!(e.message(), "n must be between 1 and 5");
        let e = expect_error(p.advance(Event::EnabledProducts { on_chain: Vec::new(), project: Vec::new() }));
        assert_eq!(e.kind(), ErrorKind::Internal);
    }
}

#[test]
fn five_choices_are_allowed() {
    let (_, a) = start_with_products("gemini-2.0-flash", 5, vec![1], false);
    assert!(matches!(a, Action::ReadLedger { .. }));
}

#[test]
fn unknown_model_is_a_bad_request() {
    let (mut p, _) = Pipeline::new(request("gpt-9", 1));
    let e = expect_error(p.advance(Event::Entitlements(entitlements(vec![1, 2, 3]))));
    assert_eq!(e.kind(), ErrorKind::BadRequest);
    assert_eq!(e.message(), "Invalid model");
}

#[test]
fn inactive_or_unenrolled_model_is_forbidden() {
    let (mut p, _) = Pipeline::new(request("gemini-2.5-pro", 1));
    let e = expect_error(p.advance(Event::Entitlements(entitlements(vec![3]))));
    assert_eq!(e.kind(), ErrorKind::Forbidden);
    let (mut p, _) = Pipeline::new(request("gemini-2.0-flash", 1));
    let e = expect_error(p.advance(Event::Entitlements(entitlements(vec![2]))));
    assert_eq!(e.kind(), ErrorKind::Forbidden);
    assert_eq!(e.status_code(), 403);
}

#[test]
fn missing_organization_or_project_is_not_found() {
    let (mut p, _) = Pipeline::new(request("gemini-2.0-flash", 1));
    let mut ent = entitlements(vec![1]);
    ent.organization = None;
    let e = expect_error(p.advance(Event::Entitlements(ent)));
    assert_eq!(e.kind(), ErrorKind::NotFound);
    assert_eq!(e.message(), "Organization not found");
    let (mut p, _) = Pipeline::new(request("gemini-2.0-flash", 1));
    let mut ent = entitlements(vec![1]);
    ent.project = None;
    let e = expect_error(p.advance(Event::Entitlements(ent)));
    assert_eq!(e.message(), "Project not found");
}

#[test]
fn unregistered_creator_is_not_charged() {
    let (mut p, _) = start_with_products("gemini-2.0-flash", 1, vec![1], true);
    p.advance(Event::ProductLoaded(terms("knowledge:text", 100)));
    p.advance(Event::PayloadFetched(b"facts".to_vec()));
    match p.advance(Event::CreatorResolved(0)) {
        Action::ReadLedger { .. } => {}
        _ => panic!("expected no payment for an unregistered creator"),
    }
    match p.advance(Event::LedgerRead { balance: 100, expenditure: 0 }) {
        Action::RecordExpenditure { increment, .. } => assert_eq!(increment, 100),
        _ => panic!("expected the expenditure update"),
    }
    match p.advance(Event::Confirmed) {
        Action::Complete(job) => assert_eq!(job.knowledge.len(), 1),
        _ => panic!("expected the completions"),
    }
}

#[test]
fn priced_model_is_paid_after_products() {
    let (mut p, a) = start_with_products("gemini-2.0-flash-lite", 1, vec![2], false);
    match a {
        Action::CollectModelPayment { organization, amount } => {
            assert_eq!(organization, [0x11; 20]);
            assert_eq!(amount, 100_000_000_000_000);
        }
        _ => panic!("expected the model payment"),
    }
    match p.advance(Event::Confirmed) {
        Action::ReadLedger { .. } => {}
        _ => panic!("expected the ledger read"),
    }
    let e = expect_error(p.advance(Event::LedgerRead { balance: 5, expenditure: 0 }));
    assert_eq!(e.kind(), ErrorKind::BadRequest);
    assert_eq!(e.message(), "Insufficient funds");
}

#[test]
fn insufficient_funds_leaves_the_ledger_alone() {
    let (mut p, _) = start_with_products("gemini-2.0-flash", 1, vec![1], true);
    p.advance(Event::ProductLoaded(terms("knowledge:text", 100)));
    p.advance(Event::PayloadFetched(b"facts".to_vec()));
    p.advance(Event::CreatorResolved(9));
    p.advance(Event::Confirmed);
    let e = expect_error(p.advance(Event::LedgerRead { balance: 99, expenditure: 3 }));
    assert_eq!(e.message(), "Insufficient funds");
    assert!(matches!(p.advance(Event::Confirmed), Action::Finish(Err(_))));
}

#[test]
fn empty_product_uri_is_a_bad_request() {
    let (mut p, _) = start_with_products("gemini-2.0-flash", 1, vec![1], true);
    let mut t = terms("knowledge:text", 1);
    t.uri = String::new();
    let e = expect_error(p.advance(Event::ProductLoaded(t)));
    assert_eq!(e.kind(), ErrorKind::BadRequest);
    assert_eq!(e.message(), "Product URI is empty");
}

#[test]
fn malformed_creator_address_is_a_bad_request() {
    let (mut p, _) = start_with_products("gemini-2.0-flash", 1, vec![1], true);
    let mut t = terms("other", 1);
    t.creator = "nobody".to_string();
    p.advance(Event::ProductLoaded(t));
    let e = expect_error(p.advance(Event::PayloadFetched(Vec::new())));
    assert_eq!(e.message(), "Invalid creator address format");
}

#[test]
fn creator_address_parsing_follows_hex_rules() {
    let (mut p, _) = start_with_products("gemini-2.0-flash", 1, vec![1], true);
    let mut t = terms("other", 1);
    t.creator = "AB 00000000000000000000000000000000000001".to_string();
    p.advance(Event::ProductLoaded(t));
    match p.advance(Event::PayloadFetched(Vec::new())) {
        Action::ResolveCreator { creator } => {
            let mut expected = [0u8; 20];
            expected[0] = 0xab;
            expected[19] = 0x01;
            assert_eq!(creator, expected);
        }
        _ => panic!("expected a creator lookup"),
    }
    let (mut p, _) = start_with_products("gemini-2.0-flash", 1, vec![1], true);
    let mut t = terms("other", 1);
    t.creator = "0x22".to_string();
    p.advance(Event::ProductLoaded(t));
    let e = expect_error(p.advance(Event::PayloadFetched(Vec::new())));
    assert_eq!(e.message(), "Invalid creator address format");
}

#[test]
fn negative_product_price_is_refused() {
    let (mut p, _) = start_with_products("gemini-2.0-flash", 1, vec![1], true);
    let e = expect_error(p.advance(Event::ProductLoaded(terms("knowledge:text", -1))));
    assert_eq!(e.kind(), ErrorKind::Internal);
}

#[test]
fn outside_failure_ends_the_call() {
    let (mut p, _) = start_with_products("gemini-2.0-flash", 1, vec![1], true);
    p.advance(Event::ProductLoaded(terms("knowledge:text", 100)));
    let e = expect_error(p.advance(Event::Failed(ApiError::bad_request("Failed to fetch product data"))));
    assert_eq!(e.message(), "Failed to fetch product data");
    let e = expect_error(p.advance(Event::PayloadFetched(b"late".to_vec())));
    assert_eq!(e.message(), "The pipeline has finished");
}

#[test]
fn wrong_number_of_completions_is_an_internal_error() {
    let (mut p, _) = start_with_products("gemini-2.0-flash", 2, vec![1], false);
    p.advance(Event::LedgerRead { balance: 0, expenditure: 0 });
    p.advance(Event::Confirmed);
    let e = expect_error(p.advance(Event::Completions(vec!["only one".to_string()])));
    assert_eq!(e.kind(), ErrorKind::Internal);
}

#[test]
fn total_cost_sums_model_and_every_product() {
    let (mut p, _) = Pipeline::new(request("gemini-2.0-flash-lite", 1));
    p.advance(Event::Entitlements(entitlements(vec![2])));
    let second = "0x4444444444444444444444444444444444444444".to_string();
    let a = p.advance(Event::EnabledProducts {
        on_chain: vec![product_bytes(), [0x44; 20]],
        project: vec![second.clone(), product_address()],
    });
    assert!(matches!(a, Action::LoadProduct { ref address } if *address == product_address()));
    p.advance(Event::ProductLoaded(terms("knowledge:text", 100)));
    match p.advance(Event::PayloadFetched(b"facts".to_vec())) {
        Action::LoadProduct { address } => assert_eq!(address, second),
        _ => panic!("expected the second product"),
    }
    p.advance(Event::ProductLoaded(terms("dataset", 50)));
    assert!(matches!(p.advance(Event::PayloadFetched(vec![1, 2, 3])), Action::ResolveCreator { .. }));
    match p.advance(Event::CreatorResolved(1)) {
        Action::CollectProductPayment { creator_id, amount, .. } => {
            assert_eq!(creator_id, 1);
            assert_eq!(amount, 100);
        }
        _ => panic!("expected the first product payment"),
    }
    assert!(matches!(p.advance(Event::Confirmed), Action::ResolveCreator { .. }));
    match p.advance(Event::CreatorResolved(2)) {
        Action::CollectProductPayment { amount, .. } => assert_eq!(amount, 50),
        _ => panic!("expected the second product payment"),
    }
    match p.advance(Event::Confirmed) {
        Action::CollectModelPayment { amount, .. } => assert_eq!(amount, 100_000_000_000_000),
        _ => panic!("expected the model payment"),
    }
    assert!(matches!(p.advance(Event::Confirmed), Action::ReadLedger { .. }));
    match p.advance(Event::LedgerRead { balance: u64::MAX, expenditure: 1 }) {
        Action::RecordExpenditure { increment, .. } => assert_eq!(increment, 100_000_000_000_150),
        _ => panic!("expected the expenditure update"),
    }
    p.advance(Event::Confirmed);
    let r = expect_result(p.advance(Event::Completions(vec!["x".to_string()])));
    assert_eq!(r.total_cost, 100_000_000_000_150);
    assert_eq!(r.current_expenditure, 1);
}

#[test]
fn total_cost_overflow_is_refused() {
    let (mut p, _) = Pipeline::new(request("gemini-2.0-flash", 1));
    p.advance(Event::Entitlements(entitlements(vec![1])));
    let addresses = [[0x33u8; 20], [0x44; 20], [0x55; 20]];
    let project = addresses
        .iter()
        .map(|a| format!("0x{}", a.iter().map(|b| format!("{:02x}", b)).collect::<String>()))
        .collect();
    p.advance(Event::EnabledProducts { on_chain: addresses.to_vec(), project });
    p.advance(Event::ProductLoaded(terms("other", i64::MAX)));
    assert!(matches!(p.advance(Event::PayloadFetched(Vec::new())), Action::LoadProduct { .. }));
    p.advance(Event::ProductLoaded(terms("other", i64::MAX)));
    assert!(matches!(p.advance(Event::PayloadFetched(Vec::new())), Action::LoadProduct { .. }));
    let e = expect_error(p.advance(Event::ProductLoaded(terms("other", i64::MAX))));
    assert_eq!(e.kind(), ErrorKind::Internal);
    assert_eq!(e.message(), "Total cost overflow");
}
