//! The static catalogue of language models that the service can broker.

use vstd::prelude::*;

verus! {

/// One entry of the model catalogue.
#[derive(Debug)]
pub struct Model {
    pub id: u64,
    pub name: String,
    pub display_name: String,
    pub provider: String,
    pub is_active: bool,
    pub price_per_call: u64,
}

/// Mathematical view of a catalogue entry.
pub struct ModelView {
    pub id: u64,
    pub name: Seq<char>,
    pub display_name: Seq<char>,
    pub provider: Seq<char>,
    pub is_active: bool,
    pub price_per_call: u64,
}

impl View for Model {
    type V = ModelView;

    open spec fn view(&self) -> ModelView {
        ModelView {
            id: self.id,
            name: self.name@,
            display_name: self.display_name@,
            provider: self.provider@,
            is_active: self.is_active,
            price_per_call: self.price_per_call,
        }
    }
}

pub open spec fn entry(
    id: u64,
    name: &str,
    display_name: &str,
    provider: &str,
    is_active: bool,
    price_per_call: u64,
) -> ModelView {
    ModelView { id, name: name@, display_name: display_name@, provider: provider@, is_active, price_per_call }
}

/// The catalogue, in its fixed order.
pub open spec fn catalog() -> Seq<ModelView> {
    seq![
        entry(1, "gemini-2.0-flash", "Gemini 2.0 Flash", "Google", true, 0),
        entry(2, "gemini-2.0-flash-lite", "Gemini 2.0 Flash Lite", "Google", true, 100000000000000),
        entry(3, "gemini-2.5-pro", "Gemini 2.5 Pro", "Google", false, 1500000000000000),
        entry(4, "gemini-2.5-flash", "Gemini 2.5 Flash", "Google", true, 1000000000000000),
        entry(5, "gemini-2.5-flash-lite", "Gemini 2.5 Flash Lite", "Google", true, 800000000000000),
        entry(6, "openai/gpt-oss-20b", "GPT-OSS 20B", "Haithe", true, 100000000000000),
        entry(7, "openai/gpt-oss-120b", "GPT-OSS 120B", "Haithe", false, 350000000000000),
        entry(8, "gpt-o3", "GPT-o3", "OpenAI", false, 0),
        entry(9, "gpt-o3-mini", "GPT-o3 Mini", "OpenAI", false, 0),
        entry(10, "gpt-o4-mini", "GPT-o4 Mini", "OpenAI", false, 0),
        entry(11, "gpt-4.1-nano", "GPT-4.1 Nano", "OpenAI", false, 0),
        entry(12, "gpt-4.1-mini", "GPT-4.1 Mini", "OpenAI", false, 0),
        entry(13, "deepseek-chat", "DeepSeek Chat", "DeepSeek", false, 0),
        entry(14, "deepseek-reasoner", "DeepSeek Reasoner", "DeepSeek", false, 0),
        entry(15, "moonshotai/kimi-k2-instruct", "Kimi K2", "Haithe", true, 5000000000000000),
    ]
}

fn make_model(
    id: u64,
    name: &str,
    display_name: &str,
    provider: &str,
    is_active: bool,
    price_per_call: u64,
) -> (m: Model)
    ensures
        m@ == entry(id, name, display_name, provider, is_active, price_per_call),
{
    Model {
        id,
        name: name.to_owned(),
        display_name: display_name.to_owned(),
        provider: provider.to_owned(),
        is_active,
        price_per_call,
    }
}

/// All models of the catalogue, in catalogue order.
pub fn get_models() -> (models: Vec<Model>)
    ensures
        models@.map_values(|m: Model| m@) == catalog(),
{
    let mut models: Vec<Model> = Vec::new();
    models.push(make_model(1, "gemini-2.0-flash", "Gemini 2.0 Flash", "Google", true, 0));
    models.push(make_model(2, "gemini-2.0-flash-lite", "Gemini 2.0 Flash Lite", "Google", true, 100000000000000));
    models.push(make_model(3, "gemini-2.5-pro", "Gemini 2.5 Pro", "Google", false, 1500000000000000));
    models.push(make_model(4, "gemini-2.5-flash", "Gemini 2.5 Flash", "Google", true, 1000000000000000));
    models.push(make_model(5, "gemini-2.5-flash-lite", "Gemini 2.5 Flash Lite", "Google", true, 800000000000000));
    models.push(make_model(6, "openai/gpt-oss-20b", "GPT-OSS 20B", "Haithe", true, 100000000000000));
    models.push(make_model(7, "openai/gpt-oss-120b", "GPT-OSS 120B", "Haithe", false, 350000000000000));
    models.push(make_model(8, "gpt-o3", "GPT-o3", "OpenAI", false, 0));
    models.push(make_model(9, "gpt-o3-mini", "GPT-o3 Mini", "OpenAI", false, 0));
    models.push(make_model(10, "gpt-o4-mini", "GPT-o4 Mini", "OpenAI", false, 0));
    models.push(make_model(11, "gpt-4.1-nano", "GPT-4.1 Nano", "OpenAI", false, 0));
    models.push(make_model(12, "gpt-4.1-mini", "GPT-4.1 Mini", "OpenAI", false, 0));
    models.push(make_model(13, "deepseek-chat", "DeepSeek Chat", "DeepSeek", false, 0));
    models.push(make_model(14, "deepseek-reasoner", "DeepSeek Reasoner", "DeepSeek", false, 0));
    models.push(make_model(15, "moonshotai/kimi-k2-instruct", "Kimi K2", "Haithe", true, 5000000000000000));
    assert(models@.map_values(|m: Model| m@) =~= catalog());
    models
}


/// The view of an optional catalogue entry.
pub open spec fn option_view(found: Option<Model>) -> Option<ModelView> {
    match found {
        Some(m) => Some(m@),
        None => None,
    }
}

/// The first entry of `s` whose id is `id`.
pub open spec fn first_with_id(s: Seq<ModelView>, id: u64) -> Option<ModelView>
    decreases s.len(),
{
    if s.len() == 0 {
        None
    } else if s[0].id == id {
        Some(s[0])
    } else {
        first_with_id(s.drop_first(), id)
    }
}

/// The first entry of `s` whose name is `name`.
pub open spec fn first_named(s: Seq<ModelView>, name: Seq<char>) -> Option<ModelView>
    decreases s.len(),
{
    if s.len() == 0 {
        None
    } else if s[0].name == name {
        Some(s[0])
    } else {
        first_named(s.drop_first(), name)
    }
}

/// The first entry of `s` whose name is `name` and that is active.
pub open spec fn first_active_named(s: Seq<ModelView>, name: Seq<char>) -> Option<ModelView>
    decreases s.len(),
{
    if s.len() == 0 {
        None
    } else if s[0].name == name && s[0].is_active {
        Some(s[0])
    } else {
        first_active_named(s.drop_first(), name)
    }
}

proof fn lemma_first_with_id_step(s: Seq<ModelView>, i: int, id: u64)
    requires
        0 <= i < s.len(),
        s[i].id != id,
    ensures
        first_with_id(s.subrange(i, s.len() as int), id) == first_with_id(
            s.subrange(i + 1, s.len() as int),
            id,
        ),
{
    assert(s.subrange(i, s.len() as int).drop_first() =~= s.subrange(i + 1, s.len() as int));
}

proof fn lemma_first_named_step(s: Seq<ModelView>, i: int, name: Seq<char>, active_only: bool)
    requires
        0 <= i < s.len(),
        !active_only ==> s[i].name != name,
        active_only ==> !(s[i].name == name && s[i].is_active),
    ensures
        !active_only ==> first_named(s.subrange(i, s.len() as int), name) == first_named(
            s.subrange(i + 1, s.len() as int),
            name,
        ),
        active_only ==> first_active_named(s.subrange(i, s.len() as int), name)
            == first_active_named(s.subrange(i + 1, s.len() as int), name),
{
    assert(s.subrange(i, s.len() as int).drop_first() =~= s.subrange(i + 1, s.len() as int));
}

/// The catalogue entry with the given id, if there is one.
pub fn get_model_by_id(id: u64) -> (found: Option<Model>)
    ensures
        option_view(found) == first_with_id(catalog(), id),
{
    let mut models = get_models();
    let ghost all = models@.map_values(|m: Model| m@);
    assert(all.subrange(0, all.len() as int) =~= all);
    let mut i: usize = 0;
    while i < models.len()
        invariant
            models@.map_values(|m: Model| m@) == all,
            all == catalog(),
            i <= models.len(),
            first_with_id(all, id) == first_with_id(all.subrange(i as int, all.len() as int), id),
        decreases models.len() - i,
    {
        if models[i].id == id {
            assert(all.subrange(i as int, all.len() as int)[0] == all[i as int]);
            return Some(models.remove(i));
        }
        proof {
            lemma_first_with_id_step(all, i as int, id);
        }
        i = i + 1;
    }
    None
}

fn find_in_catalog(name: &str, active_only: bool) -> (found: Option<Model>)
    ensures
        !active_only ==> option_view(found) == first_named(catalog(), name@),
        active_only ==> option_view(found) == first_active_named(catalog(), name@),
{
    let mut models = get_models();
    let ghost all = models@.map_values(|m: Model| m@);
    assert(all.subrange(0, all.len() as int) =~= all);
    let mut i: usize = 0;
    while i < models.len()
        invariant
            models@.map_values(|m: Model| m@) == all,
            all == catalog(),
            i <= models.len(),
            !active_only ==> first_named(all, name@) == first_named(
                all.subrange(i as int, all.len() as int),
                name@,
            ),
            active_only ==> first_active_named(all, name@) == first_active_named(
                all.subrange(i as int, all.len() as int),
                name@,
            ),
        decreases models.len() - i,
    {
        let same_name = models[i].name.as_str().eq(name);
        if same_name && (!active_only || models[i].is_active) {
            assert(all.subrange(i as int, all.len() as int)[0] == all[i as int]);
            return Some(models.remove(i));
        }
        proof {
            lemma_first_named_step(all, i as int, name@, active_only);
        }
        i = i + 1;
    }
    None
}

/// The first catalogue entry with the given name, active or not.
pub fn find_model(name: &str) -> (found: Option<Model>)
    ensures
        option_view(found) == first_named(catalog(), name@),
{
    find_in_catalog(name, false)
}

/// The first active catalogue entry with the given name: the only kind of
/// entry that can be bound to a live provider client.
pub fn find_active_model(name: &str) -> (found: Option<Model>)
    ensures
        option_view(found) == first_active_named(catalog(), name@),
{
    find_in_catalog(name, true)
}


/// Where a provider's OpenAI-compatible API lives, and which environment
/// variable holds its key.
#[derive(Debug)]
pub struct ProviderEndpoint {
    pub base_url: String,
    pub key_variable: String,
}

/// The base URL and key variable of each supported provider.
pub open spec fn endpoint_of(provider: Seq<char>) -> Option<(Seq<char>, Seq<char>)> {
    if provider == "OpenAI"@ {
        Some(("https://api.openai.com/v1"@, "OPENAI_API_KEY"@))
    } else if provider == "Google"@ {
        Some(("https://generativelanguage.googleapis.com/v1beta/openai"@, "GEMINI_API_KEY"@))
    } else if provider == "DeepSeek"@ {
        Some(("https://api.deepseek.com/v1"@, "DEEPSEEK_API_KEY"@))
    } else if provider == "Moonshot"@ {
        Some(("https://api.moonshot.com/v1"@, "MOONSHOT_API_KEY"@))
    } else if provider == "Haithe"@ {
        Some(("https://api.groq.com/openai/v1"@, "GROQ_API_KEY"@))
    } else {
        None
    }
}

fn endpoint(base_url: &str, key_variable: &str) -> (e: ProviderEndpoint)
    ensures
        e.base_url@ == base_url@,
        e.key_variable@ == key_variable@,
{
    ProviderEndpoint { base_url: base_url.to_owned(), key_variable: key_variable.to_owned() }
}

/// The endpoint of a provider; `None` for an unsupported one.
pub fn provider_endpoint(provider: &str) -> (r: Option<ProviderEndpoint>)
    ensures
        match r {
            Some(e) => endpoint_of(provider@) == Some((e.base_url@, e.key_variable@)),
            None => endpoint_of(provider@) is None,
        },
{
    if provider.eq("OpenAI") {
        Some(endpoint("https://api.openai.com/v1", "OPENAI_API_KEY"))
    } else if provider.eq("Google") {
        Some(endpoint("https://generativelanguage.googleapis.com/v1beta/openai", "GEMINI_API_KEY"))
    } else if provider.eq("DeepSeek") {
        Some(endpoint("https://api.deepseek.com/v1", "DEEPSEEK_API_KEY"))
    } else if provider.eq("Moonshot") {
        Some(endpoint("https://api.moonshot.com/v1", "MOONSHOT_API_KEY"))
    } else if provider.eq("Haithe") {
        Some(endpoint("https://api.groq.com/openai/v1", "GROQ_API_KEY"))
    } else {
        None
    }
}

} // verus!
