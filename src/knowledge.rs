//! Turning a product's decrypted payload into knowledge for the agent.

use vstd::prelude::*;
use vstd::string::*;
use vstd::utf8::{valid_utf8, decode_utf8};
use crate::error::{ApiError, ErrorKind, ErrorView, error_of};
use crate::matching::texts;

verus! {

/// The kind of payload that a product carries, decoded from its category tag.
#[derive(PartialEq, Eq, Structural, Clone, Copy, Debug)]
pub enum ProductCategory {
    KnowledgeText,
    KnowledgeHtml,
    KnowledgePdf,
    KnowledgeUrl,
    PromptSet,
    Unknown,
}

/// The category that a tag names; any other tag is `Unknown`.
pub open spec fn category_of(tag: Seq<char>) -> ProductCategory {
    if tag == "knowledge:text"@ {
        ProductCategory::KnowledgeText
    } else if tag == "knowledge:html"@ {
        ProductCategory::KnowledgeHtml
    } else if tag == "knowledge:pdf"@ {
        ProductCategory::KnowledgePdf
    } else if tag == "knowledge:url"@ {
        ProductCategory::KnowledgeUrl
    } else if tag == "promptset"@ {
        ProductCategory::PromptSet
    } else {
        ProductCategory::Unknown
    }
}

impl ProductCategory {
    /// Decodes a category tag.
    pub fn from_tag(tag: &str) -> (c: ProductCategory)
        ensures
            c == category_of(tag@),
    {
        if tag.eq("knowledge:text") {
            ProductCategory::KnowledgeText
        } else if tag.eq("knowledge:html") {
            ProductCategory::KnowledgeHtml
        } else if tag.eq("knowledge:pdf") {
            ProductCategory::KnowledgePdf
        } else if tag.eq("knowledge:url") {
            ProductCategory::KnowledgeUrl
        } else if tag.eq("promptset") {
            ProductCategory::PromptSet
        } else {
            ProductCategory::Unknown
        }
    }
}

/// Relies on `str::starts_with`: whether `prefix` is a prefix of `s`.
#[verifier::external_body]
fn starts_with(s: &str, prefix: &str) -> (r: bool)
    ensures
        r == prefix@.is_prefix_of(s@),
{
    s.starts_with(prefix)
}

/// A location with a protocol scheme: kept when it starts with `http://` or
/// `https://`, else prefixed with `https://`.
pub open spec fn with_protocol(s: Seq<char>) -> Seq<char> {
    if "http://"@.is_prefix_of(s) || "https://"@.is_prefix_of(s) {
        s
    } else {
        "https://"@ + s
    }
}

/// Gives a location a protocol scheme, `https://` by default.
pub fn ensure_protocol(url_str: &str) -> (r: String)
    ensures
        r@ == with_protocol(url_str@),
{
    if starts_with(url_str, "http://") || starts_with(url_str, "https://") {
        url_str.to_owned()
    } else {
        let mut r = "https://".to_owned();
        r.append(url_str);
        r
    }
}

/// Whether `url::Url::parse` accepts a text.
pub uninterp spec fn url_accepts(s: Seq<char>) -> bool;

/// Relies on `url::Url::parse`: whether the text parses as an absolute URL.
#[verifier::external_body]
fn parses_as_url(s: &str) -> (r: bool)
    ensures
        r == url_accepts(s@),
{
    url::Url::parse(s).is_ok()
}

/// The list of prompts that `serde_json` reads from bytes as a JSON array of
/// strings, or `None` where it reports an error.
pub uninterp spec fn prompt_list_of(b: Seq<u8>) -> Option<Seq<Seq<char>>>;

/// Relies on `serde_json::from_slice::<Vec<String>>`: reads a JSON array of strings.
#[verifier::external_body]
fn parse_prompt_list(b: &Vec<u8>) -> (r: Option<Vec<String>>)
    ensures
        r is Some <==> prompt_list_of(b@) is Some,
        r matches Some(v) ==> prompt_list_of(b@) == Some(texts(v@)),
{
    serde_json::from_slice::<Vec<String>>(b).ok()
}

/// Relies on `String::from_utf8`: succeeds exactly on valid UTF-8, with the
/// characters that the bytes encode.
#[verifier::external_body]
fn utf8_text(b: Vec<u8>) -> (r: Option<String>)
    ensures
        r is Some <==> valid_utf8(b@),
        r matches Some(s) ==> s@ == decode_utf8(b@),
{
    String::from_utf8(b).ok()
}

/// One piece of knowledge handed to the agent.
#[derive(Debug)]
pub enum KnowledgeItem {
    /// Plain text.
    Text(String),
    /// An HTML document, read relative to a base URL.
    Html { document: String, base_url: String },
    /// A PDF source.
    Pdf(String),
}

/// Mathematical view of a piece of knowledge.
pub enum KnowledgeView {
    Text(Seq<char>),
    Html(Seq<char>, Seq<char>),
    Pdf(Seq<char>),
}

impl View for KnowledgeItem {
    type V = KnowledgeView;

    open spec fn view(&self) -> KnowledgeView {
        match self {
            KnowledgeItem::Text(t) => KnowledgeView::Text(t@),
            KnowledgeItem::Html { document, base_url } => KnowledgeView::Html(document@, base_url@),
            KnowledgeItem::Pdf(t) => KnowledgeView::Pdf(t@),
        }
    }
}

/// The base URL of HTML knowledge that comes without one.
pub open spec fn default_base_url() -> Seq<char> {
    "https://haithe.ai"@
}

/// What a product's payload contributes.
#[derive(Debug)]
pub enum PayloadOutcome {
    /// A piece of knowledge.
    Knowledge(KnowledgeItem),
    /// Prompts for the preamble.
    Prompts(Vec<String>),
    /// A page to fetch, whose HTML becomes knowledge.
    FetchPage(String),
    /// Nothing: the category carries no knowledge.
    Ignored,
}

/// Mathematical view of what a payload contributes.
pub enum OutcomeView {
    Knowledge(KnowledgeView),
    Prompts(Seq<Seq<char>>),
    FetchPage(Seq<char>),
    Ignored,
}

impl View for PayloadOutcome {
    type V = OutcomeView;

    open spec fn view(&self) -> OutcomeView {
        match self {
            PayloadOutcome::Knowledge(k) => OutcomeView::Knowledge(k@),
            PayloadOutcome::Prompts(p) => OutcomeView::Prompts(texts(p@)),
            PayloadOutcome::FetchPage(u) => OutcomeView::FetchPage(u@),
            PayloadOutcome::Ignored => OutcomeView::Ignored,
        }
    }
}

/// What a decrypted payload of the given category contributes, or why it is refused.
pub open spec fn payload_outcome(category: ProductCategory, b: Seq<u8>) -> Result<
    OutcomeView,
    ErrorView,
> {
    match category {
        ProductCategory::PromptSet => match prompt_list_of(b) {
            Some(list) => Ok(OutcomeView::Prompts(list)),
            None => Err(error_of(ErrorKind::BadRequest, "Failed to parse prompts"@)),
        },
        ProductCategory::Unknown => Ok(OutcomeView::Ignored),
        _ => {
            if !valid_utf8(b) {
                Err(error_of(ErrorKind::BadRequest, "Invalid UTF-8 data"@))
            } else {
                let t = decode_utf8(b);
                match category {
                    ProductCategory::KnowledgeText => Ok(
                        OutcomeView::Knowledge(KnowledgeView::Text(t)),
                    ),
                    ProductCategory::KnowledgeHtml => Ok(
                        OutcomeView::Knowledge(KnowledgeView::Html(t, default_base_url())),
                    ),
                    ProductCategory::KnowledgePdf => Ok(
                        OutcomeView::Knowledge(KnowledgeView::Pdf(t)),
                    ),
                    _ => {
                        if t.len() == 0 {
                            Err(error_of(ErrorKind::BadRequest, "URL string is empty"@))
                        } else if !url_accepts(with_protocol(t)) {
                            Err(error_of(ErrorKind::BadRequest, "Invalid URL"@))
                        } else {
                            Ok(OutcomeView::FetchPage(with_protocol(t)))
                        }
                    },
                }
            }
        },
    }
}

/// The view of a result whose success carries a payload outcome.
pub open spec fn outcome_result_view(r: Result<PayloadOutcome, ApiError>) -> Result<
    OutcomeView,
    ErrorView,
> {
    match r {
        Ok(o) => Ok(o@),
        Err(e) => Err(e@),
    }
}

/// Classifies a decrypted payload by its product's category.
pub fn classify_payload(category: ProductCategory, payload: Vec<u8>) -> (r: Result<
    PayloadOutcome,
    ApiError,
>)
    ensures
        outcome_result_view(r) == payload_outcome(category, payload@),
{
    match category {
        ProductCategory::PromptSet => {
            match parse_prompt_list(&payload) {
                Some(list) => Ok(PayloadOutcome::Prompts(list)),
                None => Err(ApiError::bad_request("Failed to parse prompts")),
            }
        },
        ProductCategory::Unknown => Ok(PayloadOutcome::Ignored),
        _ => {
            let text = match utf8_text(payload) {
                Some(t) => t,
                None => {
                    return Err(ApiError::bad_request("Invalid UTF-8 data"));
                },
            };
            match category {
                ProductCategory::KnowledgeText => Ok(
                    PayloadOutcome::Knowledge(KnowledgeItem::Text(text)),
                ),
                ProductCategory::KnowledgeHtml => Ok(
                    PayloadOutcome::Knowledge(
                        KnowledgeItem::Html { document: text, base_url: "https://haithe.ai".to_owned() },
                    ),
                ),
                ProductCategory::KnowledgePdf => Ok(
                    PayloadOutcome::Knowledge(KnowledgeItem::Pdf(text)),
                ),
                _ => {
                    if text.as_str().is_empty() {
                        return Err(ApiError::bad_request("URL string is empty"));
                    }
                    let url = ensure_protocol(text.as_str());
                    if !parses_as_url(url.as_str()) {
                        return Err(ApiError::bad_request("Invalid URL"));
                    }
                    Ok(PayloadOutcome::FetchPage(url))
                },
            }
        },
    }
}

/// Where a product's payload is fetched from, or why it cannot be.
pub open spec fn payload_location(uri: Seq<char>) -> Result<Seq<char>, ErrorView> {
    if uri.len() == 0 {
        Err(error_of(ErrorKind::BadRequest, "Product URI is empty"@))
    } else if !url_accepts(with_protocol(uri)) {
        Err(error_of(ErrorKind::BadRequest, "Invalid URI format"@))
    } else {
        Ok(with_protocol(uri))
    }
}

/// The view of a result whose success carries a text.
pub open spec fn text_result_view(r: Result<String, ApiError>) -> Result<Seq<char>, ErrorView> {
    match r {
        Ok(s) => Ok(s@),
        Err(e) => Err(e@),
    }
}

/// The location to fetch a product's payload from: its URI with a protocol
/// scheme, refused when empty or not a URL.
pub fn locate_payload(uri: &str) -> (r: Result<String, ApiError>)
    ensures
        text_result_view(r) == payload_location(uri@),
{
    if uri.is_empty() {
        return Err(ApiError::bad_request("Product URI is empty"));
    }
    let location = ensure_protocol(uri);
    if !parses_as_url(location.as_str()) {
        return Err(ApiError::bad_request("Invalid URI format"));
    }
    Ok(location)
}

/// Each prompt followed by a newline, all in order.
pub open spec fn prompt_lines(prompts: Seq<Seq<char>>) -> Seq<char>
    decreases prompts.len(),
{
    if prompts.len() == 0 {
        Seq::empty()
    } else {
        prompt_lines(prompts.drop_last()) + prompts.last() + "\n"@
    }
}

/// Appends each prompt, followed by a newline, to the preamble.
pub fn append_prompts(preamble: &mut String, prompts: &Vec<String>)
    ensures
        final(preamble)@ == old(preamble)@ + prompt_lines(texts(prompts@)),
{
    let mut i: usize = 0;
    while i < prompts.len()
        invariant
            i <= prompts.len(),
            preamble@ == old(preamble)@ + prompt_lines(texts(prompts@).subrange(0, i as int)),
        decreases prompts.len() - i,
    {
        let ghost before = preamble@;
        preamble.append(prompts[i].as_str());
        preamble.append("\n");
        proof {
            let s = texts(prompts@).subrange(0, i as int + 1);
            assert(s.drop_last() =~= texts(prompts@).subrange(0, i as int));
            assert(s.last() == prompts@[i as int]@);
            assert(preamble@ =~= old(preamble)@ + prompt_lines(s));
        }
        i = i + 1;
    }
    assert(texts(prompts@).subrange(0, prompts.len() as int) =~= texts(prompts@));
}

} // verus!
