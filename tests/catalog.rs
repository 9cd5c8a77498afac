use haithe::catalog::{find_active_model, find_model, get_model_by_id, get_models, provider_endpoint};

#[test]
fn catalogue_has_fifteen_models_in_id_order() {
    let models = get_models();
    assert_eq!(models.len(), 15);
    for (i, m) in models.iter().enumerate() {
        assert_eq!(m.id, i as u64 + 1);
    }
    assert_eq!(models[0].name, "gemini-2.0-flash");
    assert_eq!(models[0].price_per_call, 0);
    assert!(models[0].is_active);
    assert_eq!(models[14].name, "moonshotai/kimi-k2-instruct");
    assert_eq!(models[14].price_per_call, 5_000_000_000_000_000);
}

#[test]
fn model_prices_are_in_the_smallest_token_unit() {
    let models = get_models();
    assert_eq!(models[1].price_per_call, 100_000_000_000_000);
    assert_eq!(models[2].price_per_call, 1_500_000_000_000_000);
    assert_eq!(models[3].price_per_call, 1_000_000_000_000_000);
    assert_eq!(models[4].price_per_call, 800_000_000_000_000);
    assert_eq!(models[6].price_per_call, 350_000_000_000_000);
}

#[test]
fn model_by_id_finds_the_entry() {
    let m = get_model_by_id(6).unwrap();
    assert_eq!(m.name, "openai/gpt-oss-20b");
    assert_eq!(m.display_name, "GPT-OSS 20B");
    assert_eq!(m.provider, "Haithe");
    assert!(get_model_by_id(0).is_none());
    assert!(get_model_by_id(16).is_none());
}

#[test]
fn inactive_models_are_found_but_not_as_active() {
    let m = find_model("gemini-2.5-pro").unwrap();
    assert_eq!(m.id, 3);
    assert!(!m.is_active);
    assert!(find_active_model("gemini-2.5-pro").is_none());
    assert_eq!(find_active_model("gemini-2.5-flash").unwrap().id, 4);
    assert!(find_model("no-such-model").is_none());
}

#[test]
fn provider_endpoints() {
    let g = provider_endpoint("Google").unwrap();
    assert_eq!(g.base_url, "https://generativelanguage.googleapis.com/v1beta/openai");
    assert_eq!(g.key_variable, "GEMINI_API_KEY");
    let h = provider_endpoint("Haithe").unwrap();
    assert_eq!(h.base_url, "https://api.groq.com/openai/v1");
    assert_eq!(h.key_variable, "GROQ_API_KEY");
    assert_eq!(provider_endpoint("OpenAI").unwrap().key_variable, "OPENAI_API_KEY");
    assert_eq!(provider_endpoint("DeepSeek").unwrap().base_url, "https://api.deepseek.com/v1");
    assert_eq!(provider_endpoint("Moonshot").unwrap().key_variable, "MOONSHOT_API_KEY");
    assert!(provider_endpoint("Acme").is_none());
}
