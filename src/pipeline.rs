//! The metered completion pipeline as a state machine.
//!
//! A [`Pipeline`] makes the decisions of one completion call; whoever drives
//! it performs each [`Action`] (a store read, a fetch, an on-chain call, the
//! model invocations) and hands the answer back as an [`Event`]. The stages
//! follow one another strictly: entitlements, product matching, knowledge
//! assembly, payments, the ledger, and the completions. Any failure ends the
//! call at once.

use vstd::prelude::*;
use vstd::utf8::encode_utf8;
use crate::address::{ChainAddress, address_bytes_of, is_address_text, parse_address};
use crate::billing::{
    Payment, PaymentView, costs_sum, first_chargeable, next_chargeable, payment_views,
    settle, settlement_of,
};
use crate::entities::ProductTerms;
use crate::entitlement::{Entitlements, resolution_of, resolve};
use crate::error::{ApiError, ErrorKind, ErrorView, error_of};
use crate::knowledge::{
    KnowledgeItem, KnowledgeView, OutcomeView, PayloadOutcome, ProductCategory,
    append_prompts, category_of, classify_payload, locate_payload, payload_location,
    payload_outcome, prompt_lines,
};
use crate::matching::{enabled_products, match_enabled_products, texts};
use crate::request::{CompletionRequest, build_prompt, prompt_of};

verus! {

/// Where a pipeline stands: each stage but the last waits for one kind of event.
pub enum Stage {
    /// Waiting for the caller's entitlements.
    Resolving,
    /// Waiting for the enabled-product lists.
    Matching,
    /// Waiting for the record of the current product.
    Loading,
    /// Waiting for the decrypted payload of the current product.
    Fetching(ProductCategory),
    /// Waiting for the page that the current product points to.
    FetchingPage(String),
    /// Waiting for the on-chain id of the current payment's creator.
    Paying,
    /// Waiting for the current product payment to be mined.
    Collecting,
    /// Waiting for the model payment to be mined.
    CollectingModel,
    /// Waiting for the organization's balance and expenditure.
    Auditing,
    /// Waiting for the expenditure update.
    Recording,
    /// Waiting for the completions.
    Completing,
    /// Done; no further event is expected.
    Finished,
}

pub enum StageView {
    Resolving,
    Matching,
    Loading,
    Fetching(ProductCategory),
    FetchingPage(Seq<char>),
    Paying,
    Collecting,
    CollectingModel,
    Auditing,
    Recording,
    Completing,
    Finished,
}

impl View for Stage {
    type V = StageView;

    open spec fn view(&self) -> StageView {
        match self {
            Stage::Resolving => StageView::Resolving,
            Stage::Matching => StageView::Matching,
            Stage::Loading => StageView::Loading,
            Stage::Fetching(c) => StageView::Fetching(*c),
            Stage::FetchingPage(u) => StageView::FetchingPage(u@),
            Stage::Paying => StageView::Paying,
            Stage::Collecting => StageView::Collecting,
            Stage::CollectingModel => StageView::CollectingModel,
            Stage::Auditing => StageView::Auditing,
            Stage::Recording => StageView::Recording,
            Stage::Completing => StageView::Completing,
            Stage::Finished => StageView::Finished,
        }
    }
}

/// The answer to the last action.
#[derive(Debug)]
pub enum Event {
    /// The caller's organization, project and model enrolments.
    Entitlements(Entitlements),
    /// The products enabled on chain for the organization, and the product
    /// addresses enabled for the project.
    EnabledProducts { on_chain: Vec<ChainAddress>, project: Vec<String> },
    /// The record of the requested product.
    ProductLoaded(ProductTerms),
    /// The product's payload, fetched and decrypted.
    PayloadFetched(Vec<u8>),
    /// The text of the requested page.
    PageFetched(String),
    /// The creator's on-chain id; zero for an unregistered creator.
    CreatorResolved(u64),
    /// The requested transaction or update went through.
    Confirmed,
    /// The organization's token balance and its expenditure counter.
    LedgerRead { balance: u64, expenditure: i64 },
    /// One response per requested completion, in order.
    Completions(Vec<String>),
    /// The requested work failed with this error.
    Failed(ApiError),
}

/// Everything the model invocations need.
#[derive(Debug)]
pub struct CompletionJob {
    pub model: String,
    pub prompt: String,
    pub preamble: String,
    pub knowledge: Vec<KnowledgeItem>,
    pub n: u32,
    pub search_enabled: bool,
    pub memory_enabled: bool,
    pub project_uid: String,
}

pub struct JobView {
    pub model: Seq<char>,
    pub prompt: Seq<char>,
    pub preamble: Seq<char>,
    pub knowledge: Seq<KnowledgeView>,
    pub n: u32,
    pub search_enabled: bool,
    pub memory_enabled: bool,
    pub project_uid: Seq<char>,
}

/// The views of a list of knowledge items.
pub open spec fn knowledge_views(k: Seq<KnowledgeItem>) -> Seq<KnowledgeView> {
    k.map_values(|x: KnowledgeItem| x@)
}

impl View for CompletionJob {
    type V = JobView;

    open spec fn view(&self) -> JobView {
        JobView {
            model: self.model@,
            prompt: self.prompt@,
            preamble: self.preamble@,
            knowledge: knowledge_views(self.knowledge@),
            n: self.n,
            search_enabled: self.search_enabled,
            memory_enabled: self.memory_enabled,
            project_uid: self.project_uid@,
        }
    }
}

/// One completion, by its zero-based position.
#[derive(Debug)]
pub struct Choice {
    pub index: u32,
    pub content: String,
}

/// The outcome of a successful call.
#[derive(Debug)]
pub struct CompletionResult {
    pub choices: Vec<Choice>,
    /// The model's price plus the prices of all matched products.
    pub total_cost: u64,
    /// The organization's expenditure before this call's charge.
    pub current_expenditure: u64,
    /// The length of the prompt in bytes.
    pub prompt_tokens: u64,
}

pub struct ResultView {
    /// Each choice's index and content.
    pub choices: Seq<(u32, Seq<char>)>,
    pub total_cost: u64,
    pub current_expenditure: u64,
    pub prompt_tokens: u64,
}

impl View for CompletionResult {
    type V = ResultView;

    open spec fn view(&self) -> ResultView {
        ResultView {
            choices: self.choices@.map_values(|c: Choice| (c.index, c.content@)),
            total_cost: self.total_cost,
            current_expenditure: self.current_expenditure,
            prompt_tokens: self.prompt_tokens,
        }
    }
}

/// The work that the driver of a pipeline performs next.
#[derive(Debug)]
pub enum Action {
    /// Read the caller's entitlements.
    LoadEntitlements { org_uid: String, project_uid: String },
    /// Read the on-chain and project lists of enabled products.
    LoadEnabledProducts { org_address: String, project_id: i64 },
    /// Read the record of the product at this address.
    LoadProduct { address: String },
    /// Fetch the payload at this location and decrypt it.
    FetchPayload { location: String },
    /// Fetch the page at this URL.
    FetchPage { url: String },
    /// Look up the creator's on-chain id.
    ResolveCreator { creator: ChainAddress },
    /// Collect a product payment from the organization for the creator, and
    /// wait for it to be mined.
    CollectProductPayment { organization: ChainAddress, creator_id: u64, amount: u64 },
    /// Collect the model's price from the organization, and wait for it to be mined.
    CollectModelPayment { organization: ChainAddress, amount: u64 },
    /// Read the organization's balance and expenditure counter.
    ReadLedger { organization: ChainAddress, org_id: i64 },
    /// Add this amount to the organization's expenditure counter.
    RecordExpenditure { org_id: i64, increment: i64 },
    /// Invoke the model `n` times, independently.
    Complete(CompletionJob),
    /// The call is over, with this outcome.
    Finish(Result<CompletionResult, ApiError>),
}

pub enum ActionView {
    LoadEntitlements { org_uid: Seq<char>, project_uid: Seq<char> },
    LoadEnabledProducts { org_address: Seq<char>, project_id: i64 },
    LoadProduct { address: Seq<char> },
    FetchPayload { location: Seq<char> },
    FetchPage { url: Seq<char> },
    ResolveCreator { creator: Seq<u8> },
    CollectProductPayment { organization: Seq<u8>, creator_id: u64, amount: u64 },
    CollectModelPayment { organization: Seq<u8>, amount: u64 },
    ReadLedger { organization: Seq<u8>, org_id: i64 },
    RecordExpenditure { org_id: i64, increment: i64 },
    Complete(JobView),
    Finish(Result<ResultView, ErrorView>),
}

impl View for Action {
    type V = ActionView;

    open spec fn view(&self) -> ActionView {
        match self {
            Action::LoadEntitlements { org_uid, project_uid } => ActionView::LoadEntitlements {
                org_uid: org_uid@,
                project_uid: project_uid@,
            },
            Action::LoadEnabledProducts { org_address, project_id } => ActionView::LoadEnabledProducts {
                org_address: org_address@,
                project_id: *project_id,
            },
            Action::LoadProduct { address } => ActionView::LoadProduct { address: address@ },
            Action::FetchPayload { location } => ActionView::FetchPayload { location: location@ },
            Action::FetchPage { url } => ActionView::FetchPage { url: url@ },
            Action::ResolveCreator { creator } => ActionView::ResolveCreator { creator: creator@ },
            Action::CollectProductPayment { organization, creator_id, amount } => ActionView::CollectProductPayment {
                organization: organization@,
                creator_id: *creator_id,
                amount: *amount,
            },
            Action::CollectModelPayment { organization, amount } => ActionView::CollectModelPayment {
                organization: organization@,
                amount: *amount,
            },
            Action::ReadLedger { organization, org_id } => ActionView::ReadLedger {
                organization: organization@,
                org_id: *org_id,
            },
            Action::RecordExpenditure { org_id, increment } => ActionView::RecordExpenditure {
                org_id: *org_id,
                increment: *increment,
            },
            Action::Complete(job) => ActionView::Complete(job@),
            Action::Finish(r) => ActionView::Finish(
                match r {
                    Ok(x) => Ok(x@),
                    Err(e) => Err(e@),
                },
            ),
        }
    }
}

/// The decisions of one completion call, and what they have gathered so far.
pub struct Pipeline {
    stage: Stage,
    model: String,
    n: u32,
    project_uid: String,
    prompt: String,
    prompt_tokens: u64,
    org_id: i64,
    org_address: String,
    project_id: i64,
    search_enabled: bool,
    memory_enabled: bool,
    model_price: u64,
    products: Vec<String>,
    cursor: usize,
    knowledge: Vec<KnowledgeItem>,
    preamble: String,
    total_cost: u64,
    payments: Vec<Payment>,
    current_expenditure: u64,
}

pub struct PipelineView {
    pub stage: StageView,
    pub model: Seq<char>,
    pub n: u32,
    pub project_uid: Seq<char>,
    pub prompt: Seq<char>,
    pub prompt_tokens: u64,
    pub org_id: i64,
    pub org_address: Seq<char>,
    pub project_id: i64,
    pub search_enabled: bool,
    pub memory_enabled: bool,
    pub model_price: u64,
    /// The matched products, in processing order.
    pub products: Seq<Seq<char>>,
    /// The current product while assembling, the current payment while paying.
    pub cursor: nat,
    pub knowledge: Seq<KnowledgeView>,
    pub preamble: Seq<char>,
    pub total_cost: u64,
    /// One payment per product loaded so far, in product order.
    pub payments: Seq<PaymentView>,
    pub current_expenditure: u64,
}

impl View for Pipeline {
    type V = PipelineView;

    closed spec fn view(&self) -> PipelineView {
        PipelineView {
            stage: self.stage@,
            model: self.model@,
            n: self.n,
            project_uid: self.project_uid@,
            prompt: self.prompt@,
            prompt_tokens: self.prompt_tokens,
            org_id: self.org_id,
            org_address: self.org_address@,
            project_id: self.project_id,
            search_enabled: self.search_enabled,
            memory_enabled: self.memory_enabled,
            model_price: self.model_price,
            products: texts(self.products@),
            cursor: self.cursor as nat,
            knowledge: knowledge_views(self.knowledge@),
            preamble: self.preamble@,
            total_cost: self.total_cost,
            payments: payment_views(self.payments@),
            current_expenditure: self.current_expenditure,
        }
    }
}

/// What holds of a pipeline at every stage: the total cost is the model's
/// price plus the price of every product loaded so far, each payment belongs
/// to the product in the same position, and the cursor stays in range.
pub open spec fn pipeline_inv(s: PipelineView) -> bool {
    &&& costs_inv(s)
    &&& match s.stage {
        StageView::Resolving | StageView::Matching => s.payments.len() == 0 && s.cursor == 0,
        StageView::Loading => s.cursor < s.products.len() && s.payments.len() == s.cursor,
        StageView::Fetching(_) | StageView::FetchingPage(_) => s.cursor < s.products.len()
            && s.payments.len() == s.cursor + 1,
        StageView::Paying | StageView::Collecting => s.payments.len() == s.products.len()
            && s.cursor < s.payments.len() && s.payments[s.cursor as int].cost > 0,
        StageView::CollectingModel | StageView::Auditing | StageView::Recording
        | StageView::Completing => s.payments.len() == s.products.len(),
        StageView::Finished => true,
    }
}

/// The part of the invariant that holds at every stage.
pub open spec fn costs_inv(s: PipelineView) -> bool {
    &&& s.total_cost == s.model_price + costs_sum(s.payments)
    &&& s.payments.len() <= s.products.len()
    &&& forall|j: int| 0 <= j < s.payments.len() ==> #[trigger] s.payments[j].product == s.products[j]
}

/// The pipeline that a request starts, before any event.
pub open spec fn initial(r: CompletionRequest) -> PipelineView {
    PipelineView {
        stage: StageView::Resolving,
        model: r.model@,
        n: r.n,
        project_uid: r.caller.project_uid@,
        prompt: prompt_of(r.messages@),
        prompt_tokens: encode_utf8(prompt_of(r.messages@)).len() as usize as u64,
        org_id: 0,
        org_address: Seq::empty(),
        project_id: 0,
        search_enabled: false,
        memory_enabled: false,
        model_price: 0,
        products: Seq::empty(),
        cursor: 0,
        knowledge: Seq::empty(),
        preamble: Seq::empty(),
        total_cost: 0,
        payments: Seq::empty(),
        current_expenditure: 0,
    }
}

/// Ends the call with an error.
pub open spec fn finish_err(s: PipelineView, e: ErrorView) -> (PipelineView, ActionView) {
    (PipelineView { stage: StageView::Finished, ..s }, ActionView::Finish(Err(e)))
}

/// Ends the call because the event does not answer the last action.
pub open spec fn unexpected(s: PipelineView) -> (PipelineView, ActionView) {
    finish_err(s, error_of(ErrorKind::Internal, "Unexpected event"@))
}

/// Reads the balance and expenditure of the organization.
pub open spec fn audit(s: PipelineView) -> (PipelineView, ActionView) {
    if !is_address_text(s.org_address) {
        finish_err(s, error_of(ErrorKind::BadRequest, "Invalid wallet address format"@))
    } else {
        (
            PipelineView { stage: StageView::Auditing, ..s },
            ActionView::ReadLedger { organization: address_bytes_of(s.org_address), org_id: s.org_id },
        )
    }
}

/// Goes to the first payment at or after the cursor that costs something;
/// after the last, to the model payment where the model has a price, and
/// else to the ledger.
pub open spec fn start_payments(s: PipelineView) -> (PipelineView, ActionView) {
    let j = first_chargeable(s.payments, s.cursor as int);
    if j < s.payments.len() {
        if !is_address_text(s.org_address) {
            finish_err(s, error_of(ErrorKind::BadRequest, "Invalid organization address format"@))
        } else if !is_address_text(s.payments[j].creator) {
            finish_err(s, error_of(ErrorKind::BadRequest, "Invalid creator address format"@))
        } else {
            (
                PipelineView { stage: StageView::Paying, cursor: j as nat, ..s },
                ActionView::ResolveCreator { creator: address_bytes_of(s.payments[j].creator) },
            )
        }
    } else if s.model_price > 0 {
        if !is_address_text(s.org_address) {
            finish_err(s, error_of(ErrorKind::BadRequest, "Invalid organization address format"@))
        } else {
            (
                PipelineView { stage: StageView::CollectingModel, ..s },
                ActionView::CollectModelPayment {
                    organization: address_bytes_of(s.org_address),
                    amount: s.model_price,
                },
            )
        }
    } else {
        audit(s)
    }
}

/// Loads the product at the cursor; after the last one, starts the payments.
pub open spec fn begin_product(s: PipelineView) -> (PipelineView, ActionView) {
    if s.cursor < s.products.len() {
        (
            PipelineView { stage: StageView::Loading, ..s },
            ActionView::LoadProduct { address: s.products[s.cursor as int] },
        )
    } else {
        start_payments(PipelineView { cursor: 0, ..s })
    }
}

pub open spec fn on_entitlements(s: PipelineView, e: Entitlements) -> (PipelineView, ActionView) {
    match resolution_of(s.model, s.n, e) {
        Err(err) => finish_err(s, err),
        Ok(r) => (
            PipelineView {
                stage: StageView::Matching,
                org_id: r.org_id,
                org_address: r.org_address,
                project_id: r.project_id,
                search_enabled: r.search_enabled,
                memory_enabled: r.memory_enabled,
                model_price: r.model_price,
                total_cost: r.model_price,
                ..s
            },
            ActionView::LoadEnabledProducts { org_address: r.org_address, project_id: r.project_id },
        ),
    }
}

pub open spec fn on_product(s: PipelineView, t: ProductTerms) -> (PipelineView, ActionView) {
    if t.price_per_call < 0 {
        finish_err(s, error_of(ErrorKind::Internal, "Invalid product price"@))
    } else if s.total_cost + t.price_per_call > u64::MAX {
        finish_err(s, error_of(ErrorKind::Internal, "Total cost overflow"@))
    } else {
        let s1 = PipelineView {
            total_cost: (s.total_cost + t.price_per_call) as u64,
            payments: s.payments.push(
                PaymentView {
                    product: s.products[s.cursor as int],
                    creator: t.creator@,
                    cost: t.price_per_call as u64,
                },
            ),
            ..s
        };
        match payload_location(t.uri@) {
            Err(err) => finish_err(s1, err),
            Ok(location) => (
                PipelineView { stage: StageView::Fetching(category_of(t.category@)), ..s1 },
                ActionView::FetchPayload { location },
            ),
        }
    }
}

pub open spec fn on_payload(s: PipelineView, c: ProductCategory, b: Seq<u8>) -> (
    PipelineView,
    ActionView,
) {
    match payload_outcome(c, b) {
        Err(err) => finish_err(s, err),
        Ok(OutcomeView::Knowledge(k)) => begin_product(
            PipelineView { knowledge: s.knowledge.push(k), cursor: s.cursor + 1, ..s },
        ),
        Ok(OutcomeView::Prompts(p)) => begin_product(
            PipelineView { preamble: s.preamble + prompt_lines(p), cursor: s.cursor + 1, ..s },
        ),
        Ok(OutcomeView::FetchPage(url)) => (
            PipelineView { stage: StageView::FetchingPage(url), ..s },
            ActionView::FetchPage { url },
        ),
        Ok(OutcomeView::Ignored) => begin_product(PipelineView { cursor: s.cursor + 1, ..s }),
    }
}

pub open spec fn on_page(s: PipelineView, url: Seq<char>, html: Seq<char>) -> (
    PipelineView,
    ActionView,
) {
    begin_product(
        PipelineView {
            knowledge: s.knowledge.push(KnowledgeView::Html(html, url)),
            cursor: s.cursor + 1,
            ..s
        },
    )
}

pub open spec fn on_creator(s: PipelineView, id: u64) -> (PipelineView, ActionView) {
    if id == 0 {
        start_payments(PipelineView { cursor: s.cursor + 1, ..s })
    } else if !is_address_text(s.org_address) {
        finish_err(s, error_of(ErrorKind::BadRequest, "Invalid organization address format"@))
    } else {
        (
            PipelineView { stage: StageView::Collecting, ..s },
            ActionView::CollectProductPayment {
                organization: address_bytes_of(s.org_address),
                creator_id: id,
                amount: s.payments[s.cursor as int].cost,
            },
        )
    }
}

pub open spec fn on_ledger(s: PipelineView, balance: u64, expenditure: i64) -> (
    PipelineView,
    ActionView,
) {
    match settlement_of(balance, expenditure, s.total_cost) {
        Err(err) => finish_err(s, err),
        Ok(st) => (
            PipelineView {
                stage: StageView::Recording,
                current_expenditure: st.current_expenditure,
                ..s
            },
            ActionView::RecordExpenditure { org_id: s.org_id, increment: st.increment },
        ),
    }
}

/// Hands the gathered knowledge and preamble to the model invocations.
pub open spec fn complete(s: PipelineView) -> (PipelineView, ActionView) {
    (
        PipelineView { stage: StageView::Completing, knowledge: Seq::empty(), ..s },
        ActionView::Complete(
            JobView {
                model: s.model,
                prompt: s.prompt,
                preamble: s.preamble,
                knowledge: s.knowledge,
                n: s.n,
                search_enabled: s.search_enabled,
                memory_enabled: s.memory_enabled,
                project_uid: s.project_uid,
            },
        ),
    )
}

pub open spec fn on_confirmed(s: PipelineView) -> (PipelineView, ActionView) {
    match s.stage {
        StageView::Collecting => start_payments(PipelineView { cursor: s.cursor + 1, ..s }),
        StageView::CollectingModel => audit(s),
        StageView::Recording => complete(s),
        _ => unexpected(s),
    }
}

/// Each response with its zero-based position.
pub open spec fn indexed(responses: Seq<Seq<char>>) -> Seq<(u32, Seq<char>)> {
    Seq::new(responses.len(), |i: int| (i as u32, responses[i]))
}

pub open spec fn on_completions(s: PipelineView, responses: Seq<Seq<char>>) -> (
    PipelineView,
    ActionView,
) {
    if responses.len() != s.n {
        finish_err(s, error_of(ErrorKind::Internal, "Unexpected number of completions"@))
    } else {
        (
            PipelineView { stage: StageView::Finished, ..s },
            ActionView::Finish(
                Ok(
                    ResultView {
                        choices: indexed(responses),
                        total_cost: s.total_cost,
                        current_expenditure: s.current_expenditure,
                        prompt_tokens: s.prompt_tokens,
                    },
                ),
            ),
        )
    }
}

/// The pipeline's transition: its next state and action, given an event.
pub open spec fn next(s: PipelineView, e: Event) -> (PipelineView, ActionView) {
    if s.stage is Finished {
        finish_err(s, error_of(ErrorKind::Internal, "The pipeline has finished"@))
    } else {
        match e {
            Event::Failed(err) => finish_err(s, err@),
            Event::Entitlements(ent) => if s.stage is Resolving {
                on_entitlements(s, ent)
            } else {
                unexpected(s)
            },
            Event::EnabledProducts { on_chain, project } => if s.stage is Matching {
                begin_product(
                    PipelineView {
                        products: enabled_products(on_chain@, texts(project@)),
                        cursor: 0,
                        ..s
                    },
                )
            } else {
                unexpected(s)
            },
            Event::ProductLoaded(t) => if s.stage is Loading {
                on_product(s, t)
            } else {
                unexpected(s)
            },
            Event::PayloadFetched(b) => match s.stage {
                StageView::Fetching(c) => on_payload(s, c, b@),
                _ => unexpected(s),
            },
            Event::PageFetched(html) => match s.stage {
                StageView::FetchingPage(url) => on_page(s, url, html@),
                _ => unexpected(s),
            },
            Event::CreatorResolved(id) => if s.stage is Paying {
                on_creator(s, id)
            } else {
                unexpected(s)
            },
            Event::Confirmed => on_confirmed(s),
            Event::LedgerRead { balance, expenditure } => if s.stage is Auditing {
                on_ledger(s, balance, expenditure)
            } else {
                unexpected(s)
            },
            Event::Completions(r) => if s.stage is Completing {
                on_completions(s, texts(r@))
            } else {
                unexpected(s)
            },
        }
    }
}


proof fn lemma_costs_sum_push(p: Seq<PaymentView>, x: PaymentView)
    ensures
        costs_sum(p.push(x)) == costs_sum(p) + x.cost,
{
    assert(p.push(x).drop_last() =~= p);
}

proof fn lemma_first_chargeable(p: Seq<PaymentView>, from: int)
    requires
        0 <= from <= p.len(),
    ensures
        from <= first_chargeable(p, from) <= p.len(),
        first_chargeable(p, from) < p.len() ==> p[first_chargeable(p, from)].cost > 0,
    decreases p.len() - from,
{
    if from < p.len() && p[from].cost == 0 {
        lemma_first_chargeable(p, from + 1);
    }
}

proof fn lemma_audit_inv(s: PipelineView)
    requires
        costs_inv(s),
        s.payments.len() == s.products.len(),
    ensures
        pipeline_inv(audit(s).0),
{
}

proof fn lemma_start_payments_inv(s: PipelineView)
    requires
        costs_inv(s),
        s.payments.len() == s.products.len(),
        s.cursor <= s.payments.len(),
    ensures
        pipeline_inv(start_payments(s).0),
{
    lemma_first_chargeable(s.payments, s.cursor as int);
    lemma_audit_inv(s);
}

proof fn lemma_begin_product_inv(s: PipelineView)
    requires
        costs_inv(s),
        s.payments.len() == s.cursor,
        s.cursor <= s.products.len(),
    ensures
        pipeline_inv(begin_product(s).0),
{
    if s.cursor >= s.products.len() {
        lemma_start_payments_inv(PipelineView { cursor: 0, ..s });
    }
}

/// Every transition keeps the invariant: in particular the total cost stays
/// the model's price plus the prices of the products loaded so far.
pub proof fn lemma_next_preserves_inv(s: PipelineView, e: Event)
    requires
        pipeline_inv(s),
    ensures
        pipeline_inv(next(s, e).0),
{
    if !(s.stage is Finished) {
        match e {
            Event::Entitlements(ent) => {},
            Event::EnabledProducts { on_chain, project } => {
                if s.stage is Matching {
                    lemma_begin_product_inv(
                        PipelineView {
                            products: enabled_products(on_chain@, texts(project@)),
                            cursor: 0,
                            ..s
                        },
                    );
                }
            },
            Event::ProductLoaded(t) => {
                if s.stage is Loading && t.price_per_call >= 0 {
                    lemma_costs_sum_push(
                        s.payments,
                        PaymentView {
                            product: s.products[s.cursor as int],
                            creator: t.creator@,
                            cost: t.price_per_call as u64,
                        },
                    );
                }
            },
            Event::PayloadFetched(b) => {
                if let StageView::Fetching(c) = s.stage {
                    match payload_outcome(c, b@) {
                        Ok(OutcomeView::Knowledge(k)) => lemma_begin_product_inv(
                            PipelineView { knowledge: s.knowledge.push(k), cursor: s.cursor + 1, ..s },
                        ),
                        Ok(OutcomeView::Prompts(p)) => lemma_begin_product_inv(
                            PipelineView {
                                preamble: s.preamble + prompt_lines(p),
                                cursor: s.cursor + 1,
                                ..s
                            },
                        ),
                        Ok(OutcomeView::Ignored) => lemma_begin_product_inv(
                            PipelineView { cursor: s.cursor + 1, ..s },
                        ),
                        _ => {},
                    }
                }
            },
            Event::PageFetched(html) => {
                if let StageView::FetchingPage(url) = s.stage {
                    lemma_begin_product_inv(
                        PipelineView {
                            knowledge: s.knowledge.push(KnowledgeView::Html(html@, url)),
                            cursor: s.cursor + 1,
                            ..s
                        },
                    );
                }
            },
            Event::CreatorResolved(id) => {
                if s.stage is Paying && id == 0 {
                    lemma_start_payments_inv(PipelineView { cursor: s.cursor + 1, ..s });
                }
            },
            Event::Confirmed => {
                if s.stage is Collecting {
                    lemma_start_payments_inv(PipelineView { cursor: s.cursor + 1, ..s });
                } else if s.stage is CollectingModel {
                    lemma_audit_inv(s);
                }
            },
            _ => {},
        }
    }
}

impl Pipeline {
    /// The pipeline's invariant.
    pub open spec fn wf(&self) -> bool {
        pipeline_inv(self@)
    }

    /// Starts a call: the first action reads the caller's entitlements.
    pub fn new(request: CompletionRequest) -> (r: (Pipeline, Action))
        ensures
            r.0.wf(),
            r.0@ == initial(request),
            r.1@ == (ActionView::LoadEntitlements {
                org_uid: request.caller.org_uid@,
                project_uid: request.caller.project_uid@,
            }),
    {
        let prompt = build_prompt(&request.messages);
        let prompt_tokens = prompt.as_str().len() as u64;
        let action = Action::LoadEntitlements {
            org_uid: request.caller.org_uid.clone(),
            project_uid: request.caller.project_uid.clone(),
        };
        let p = Pipeline {
            stage: Stage::Resolving,
            model: request.model.clone(),
            n: request.n,
            project_uid: request.caller.project_uid.clone(),
            prompt,
            prompt_tokens,
            org_id: 0,
            org_address: String::new(),
            project_id: 0,
            search_enabled: false,
            memory_enabled: false,
            model_price: 0,
            products: Vec::new(),
            cursor: 0,
            knowledge: Vec::new(),
            preamble: String::new(),
            total_cost: 0,
            payments: Vec::new(),
            current_expenditure: 0,
        };
        proof {
            assert(texts(p.products@) =~= Seq::empty());
            assert(knowledge_views(p.knowledge@) =~= Seq::empty());
            assert(payment_views(p.payments@) =~= Seq::empty());
        }
        (p, action)
    }

    fn finish_with(&mut self, e: ApiError) -> (a: Action)
        ensures
            (final(self)@, a@) == finish_err(old(self)@, e@),
    {
        self.stage = Stage::Finished;
        Action::Finish(Err(e))
    }

    fn request_ledger(&mut self) -> (a: Action)
        ensures
            (final(self)@, a@) == audit(old(self)@),
    {
        match parse_address(self.org_address.as_str()) {
            None => self.finish_with(ApiError::bad_request("Invalid wallet address format")),
            Some(org) => {
                self.stage = Stage::Auditing;
                Action::ReadLedger { organization: org, org_id: self.org_id }
            },
        }
    }

    fn next_payment(&mut self) -> (a: Action)
        requires
            old(self).cursor <= old(self).payments.len(),
        ensures
            (final(self)@, a@) == start_payments(old(self)@),
    {
        let ghost p = payment_views(self.payments@);
        let j = next_chargeable(&self.payments, self.cursor);
        if j < self.payments.len() {
            if parse_address(self.org_address.as_str()).is_none() {
                return self.finish_with(
                    ApiError::bad_request("Invalid organization address format"),
                );
            }
            assert(p[j as int].creator == self.payments@[j as int].creator@);
            match parse_address(self.payments[j].creator.as_str()) {
                None => self.finish_with(ApiError::bad_request("Invalid creator address format")),
                Some(creator) => {
                    self.stage = Stage::Paying;
                    self.cursor = j;
                    Action::ResolveCreator { creator }
                },
            }
        } else if self.model_price > 0 {
            match parse_address(self.org_address.as_str()) {
                None => self.finish_with(
                    ApiError::bad_request("Invalid organization address format"),
                ),
                Some(org) => {
                    self.stage = Stage::CollectingModel;
                    Action::CollectModelPayment { organization: org, amount: self.model_price }
                },
            }
        } else {
            self.request_ledger()
        }
    }

    fn next_product(&mut self) -> (a: Action)
        requires
            old(self).cursor <= old(self).products.len(),
        ensures
            (final(self)@, a@) == begin_product(old(self)@),
    {
        if self.cursor < self.products.len() {
            self.stage = Stage::Loading;
            Action::LoadProduct { address: self.products[self.cursor].clone() }
        } else {
            self.cursor = 0;
            self.next_payment()
        }
    }

    fn handle_entitlements(&mut self, e: &Entitlements) -> (a: Action)
        ensures
            (final(self)@, a@) == on_entitlements(old(self)@, *e),
    {
        match resolve(self.model.as_str(), self.n, e) {
            Err(err) => self.finish_with(err),
            Ok(r) => {
                self.stage = Stage::Matching;
                self.org_id = r.org_id;
                self.org_address = r.org_address.clone();
                self.project_id = r.project_id;
                self.search_enabled = r.search_enabled;
                self.memory_enabled = r.memory_enabled;
                self.model_price = r.model_price;
                self.total_cost = r.model_price;
                Action::LoadEnabledProducts { org_address: r.org_address, project_id: r.project_id }
            },
        }
    }

    fn handle_product(&mut self, t: ProductTerms) -> (a: Action)
        requires
            pipeline_inv(old(self)@),
            old(self)@.stage is Loading,
        ensures
            (final(self)@, a@) == on_product(old(self)@, t),
    {
        if t.price_per_call < 0 {
            return self.finish_with(ApiError::internal("Invalid product price"));
        }
        let price = t.price_per_call as u64;
        let total = match self.total_cost.checked_add(price) {
            Some(x) => x,
            None => {
                return self.finish_with(ApiError::internal("Total cost overflow"));
            },
        };
        let ghost before = payment_views(self.payments@);
        self.total_cost = total;
        let product = self.products[self.cursor].clone();
        self.payments.push(Payment { product, creator: t.creator, cost: price });
        assert(payment_views(self.payments@) =~= before.push(self.payments@.last()@));
        match locate_payload(t.uri.as_str()) {
            Err(err) => self.finish_with(err),
            Ok(location) => {
                self.stage = Stage::Fetching(ProductCategory::from_tag(t.category.as_str()));
                Action::FetchPayload { location }
            },
        }
    }

    fn handle_payload(&mut self, c: ProductCategory, b: Vec<u8>) -> (a: Action)
        requires
            pipeline_inv(old(self)@),
            old(self)@.stage == StageView::Fetching(c),
        ensures
            (final(self)@, a@) == on_payload(old(self)@, c, b@),
    {
        proof {
            assert(texts(self.products@).len() == self.products@.len());
            assert(payment_views(self.payments@).len() == self.payments@.len());
            assert(self.payments.len() <= self.products.len());
            assert(self@.stage is Fetching || self@.stage is FetchingPage ==> self.cursor
                < self.products.len());
            assert(self@.stage is Paying || self@.stage is Collecting ==> self.cursor
                < self.payments.len());
        }
        match classify_payload(c, b) {
            Err(err) => self.finish_with(err),
            Ok(PayloadOutcome::Knowledge(k)) => {
                let ghost before = knowledge_views(self.knowledge@);
                self.knowledge.push(k);
                assert(knowledge_views(self.knowledge@) =~= before.push(self.knowledge@.last()@));
                self.cursor = self.cursor + 1;
                self.next_product()
            },
            Ok(PayloadOutcome::Prompts(p)) => {
                append_prompts(&mut self.preamble, &p);
                self.cursor = self.cursor + 1;
                self.next_product()
            },
            Ok(PayloadOutcome::FetchPage(url)) => {
                self.stage = Stage::FetchingPage(url.clone());
                Action::FetchPage { url }
            },
            Ok(PayloadOutcome::Ignored) => {
                self.cursor = self.cursor + 1;
                self.next_product()
            },
        }
    }

    fn handle_page(&mut self, url: String, html: String) -> (a: Action)
        requires
            pipeline_inv(old(self)@),
            old(self)@.stage == StageView::FetchingPage(url@),
        ensures
            (final(self)@, a@) == on_page(old(self)@, url@, html@),
    {
        proof {
            assert(texts(self.products@).len() == self.products@.len());
            assert(payment_views(self.payments@).len() == self.payments@.len());
            assert(self.payments.len() <= self.products.len());
            assert(self@.stage is Fetching || self@.stage is FetchingPage ==> self.cursor
                < self.products.len());
            assert(self@.stage is Paying || self@.stage is Collecting ==> self.cursor
                < self.payments.len());
        }
        let ghost before = knowledge_views(self.knowledge@);
        self.knowledge.push(KnowledgeItem::Html { document: html, base_url: url });
        assert(knowledge_views(self.knowledge@) =~= before.push(self.knowledge@.last()@));
        self.cursor = self.cursor + 1;
        self.next_product()
    }

    fn handle_creator(&mut self, id: u64) -> (a: Action)
        requires
            pipeline_inv(old(self)@),
            old(self)@.stage is Paying,
        ensures
            (final(self)@, a@) == on_creator(old(self)@, id),
    {
        proof {
            assert(texts(self.products@).len() == self.products@.len());
            assert(payment_views(self.payments@).len() == self.payments@.len());
            assert(self.payments.len() <= self.products.len());
            assert(self@.stage is Fetching || self@.stage is FetchingPage ==> self.cursor
                < self.products.len());
            assert(self@.stage is Paying || self@.stage is Collecting ==> self.cursor
                < self.payments.len());
        }
        if id == 0 {
            self.cursor = self.cursor + 1;
            return self.next_payment();
        }
        match parse_address(self.org_address.as_str()) {
            None => self.finish_with(ApiError::bad_request("Invalid organization address format")),
            Some(org) => {
                self.stage = Stage::Collecting;
                Action::CollectProductPayment {
                    organization: org,
                    creator_id: id,
                    amount: self.payments[self.cursor].cost,
                }
            },
        }
    }

    fn hand_over(&mut self) -> (a: Action)
        ensures
            (final(self)@, a@) == complete(old(self)@),
    {
        let mut knowledge: Vec<KnowledgeItem> = Vec::new();
        core::mem::swap(&mut knowledge, &mut self.knowledge);
        self.stage = Stage::Completing;
        assert(knowledge_views(self.knowledge@) =~= Seq::empty());
        Action::Complete(
            CompletionJob {
                model: self.model.clone(),
                prompt: self.prompt.clone(),
                preamble: self.preamble.clone(),
                knowledge,
                n: self.n,
                search_enabled: self.search_enabled,
                memory_enabled: self.memory_enabled,
                project_uid: self.project_uid.clone(),
            },
        )
    }

    fn handle_confirmed(&mut self) -> (a: Action)
        requires
            pipeline_inv(old(self)@),
        ensures
            (final(self)@, a@) == on_confirmed(old(self)@),
    {
        proof {
            assert(texts(self.products@).len() == self.products@.len());
            assert(payment_views(self.payments@).len() == self.payments@.len());
            assert(self.payments.len() <= self.products.len());
            assert(self@.stage is Fetching || self@.stage is FetchingPage ==> self.cursor
                < self.products.len());
            assert(self@.stage is Paying || self@.stage is Collecting ==> self.cursor
                < self.payments.len());
        }
        match self.stage {
            Stage::Collecting => {
                self.cursor = self.cursor + 1;
                self.next_payment()
            },
            Stage::CollectingModel => self.request_ledger(),
            Stage::Recording => self.hand_over(),
            _ => self.finish_with(ApiError::internal("Unexpected event")),
        }
    }

    fn handle_ledger(&mut self, balance: u64, expenditure: i64) -> (a: Action)
        ensures
            (final(self)@, a@) == on_ledger(old(self)@, balance, expenditure),
    {
        match settle(balance, expenditure, self.total_cost) {
            Err(err) => self.finish_with(err),
            Ok(st) => {
                self.stage = Stage::Recording;
                self.current_expenditure = st.current_expenditure;
                Action::RecordExpenditure { org_id: self.org_id, increment: st.increment }
            },
        }
    }

    fn handle_completions(&mut self, responses: Vec<String>) -> (a: Action)
        ensures
            (final(self)@, a@) == on_completions(old(self)@, texts(responses@)),
    {
        if responses.len() != self.n as usize {
            return self.finish_with(ApiError::internal("Unexpected number of completions"));
        }
        let mut choices: Vec<Choice> = Vec::new();
        let mut i: usize = 0;
        while i < responses.len()
            invariant
                i <= responses.len(),
                responses.len() == self.n,
                choices@.len() == i,
                forall|k: int|
                    0 <= k < i ==> (#[trigger] choices@[k]).index == k && choices@[k].content@
                        == responses@[k]@,
            decreases responses.len() - i,
        {
            choices.push(Choice { index: i as u32, content: responses[i].clone() });
            i = i + 1;
        }
        assert(choices@.map_values(|c: Choice| (c.index, c.content@)) =~= indexed(
            texts(responses@),
        ));
        self.stage = Stage::Finished;
        Action::Finish(
            Ok(
                CompletionResult {
                    choices,
                    total_cost: self.total_cost,
                    current_expenditure: self.current_expenditure,
                    prompt_tokens: self.prompt_tokens,
                },
            ),
        )
    }

    /// Takes the answer to the last action and decides the next one.
    pub fn advance(&mut self, event: Event) -> (a: Action)
        requires
            old(self).wf(),
        ensures
            final(self).wf(),
            (final(self)@, a@) == next(old(self)@, event),
    {
        proof {
            lemma_next_preserves_inv(self@, event);
        }
        if let Stage::Finished = self.stage {
            return self.finish_with(ApiError::internal("The pipeline has finished"));
        }
        match event {
            Event::Failed(err) => self.finish_with(err),
            Event::Entitlements(ent) => {
                if let Stage::Resolving = self.stage {
                    self.handle_entitlements(&ent)
                } else {
                    self.finish_with(ApiError::internal("Unexpected event"))
                }
            },
            Event::EnabledProducts { on_chain, project } => {
                if let Stage::Matching = self.stage {
                    self.products = match_enabled_products(&on_chain, &project);
                    self.cursor = 0;
                    self.next_product()
                } else {
                    self.finish_with(ApiError::internal("Unexpected event"))
                }
            },
            Event::ProductLoaded(t) => {
                if let Stage::Loading = self.stage {
                    self.handle_product(t)
                } else {
                    self.finish_with(ApiError::internal("Unexpected event"))
                }
            },
            Event::PayloadFetched(b) => {
                if let Stage::Fetching(c) = self.stage {
                    self.handle_payload(c, b)
                } else {
                    self.finish_with(ApiError::internal("Unexpected event"))
                }
            },
            Event::PageFetched(html) => {
                let url = match &self.stage {
                    Stage::FetchingPage(u) => u.clone(),
                    _ => {
                        return self.finish_with(ApiError::internal("Unexpected event"));
                    },
                };
                self.handle_page(url, html)
            },
            Event::CreatorResolved(id) => {
                if let Stage::Paying = self.stage {
                    self.handle_creator(id)
                } else {
                    self.finish_with(ApiError::internal("Unexpected event"))
                }
            },
            Event::Confirmed => self.handle_confirmed(),
            Event::LedgerRead { balance, expenditure } => {
                if let Stage::Auditing = self.stage {
                    self.handle_ledger(balance, expenditure)
                } else {
                    self.finish_with(ApiError::internal("Unexpected event"))
                }
            },
            Event::Completions(r) => {
                if let Stage::Completing = self.stage {
                    self.handle_completions(r)
                } else {
                    self.finish_with(ApiError::internal("Unexpected event"))
                }
            },
        }
    }
}

} // verus!
