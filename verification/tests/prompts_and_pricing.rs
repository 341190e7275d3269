use tomatic::manager::SessionManager;
use tomatic::prompts::{extract_mentioned_prompt, find_prompt, validated_selection, SystemPrompt};
use tomatic::types::{
    compute_cost, pricing_for_model, DisplayModelInfo, MessageCost, ModelPricing, Role, Usage,
};

fn catalog() -> Vec<SystemPrompt> {
    vec![
        SystemPrompt { name: String::from("alice"), prompt: String::from("Be concise.") },
        SystemPrompt { name: String::from("bob"), prompt: String::from("Be thorough.") },
    ]
}

#[test]
fn find_prompt_resolves_by_name() {
    let prompts = catalog();
    let found = find_prompt(&prompts, &String::from("bob")).unwrap();
    assert_eq!(found.prompt, "Be thorough.");
}

#[test]
fn dangling_prompt_name_degrades_to_none() {
    let prompts = catalog();
    assert!(find_prompt(&prompts, &String::from("renamed")).is_none());
}

#[test]
fn stale_selection_is_cleared_and_live_selection_kept() {
    let prompts = catalog();
    assert_eq!(
        validated_selection(&prompts, &Some(String::from("alice"))),
        Some(String::from("alice"))
    );
    assert_eq!(validated_selection(&prompts, &Some(String::from("gone"))), None);
    assert_eq!(validated_selection(&prompts, &None), None);
}

#[test]
fn mention_selects_prompt_by_at_word() {
    let prompts = catalog();
    let found = extract_mentioned_prompt("please help @alice with this", &prompts).unwrap();
    assert_eq!(found.name, "alice");
}

#[test]
fn mention_is_trimmed_to_its_alphanumeric_core() {
    let prompts = catalog();
    let found = extract_mentioned_prompt("ask @bob, thanks", &prompts).unwrap();
    assert_eq!(found.name, "bob");
}

#[test]
fn first_resolving_mention_wins() {
    let prompts = catalog();
    let found = extract_mentioned_prompt("@unknown then @bob then @alice", &prompts).unwrap();
    assert_eq!(found.name, "bob");
}

#[test]
fn no_mention_or_unknown_mention_selects_nothing() {
    let prompts = catalog();
    assert!(extract_mentioned_prompt("no mentions here", &prompts).is_none());
    assert!(extract_mentioned_prompt("@stranger only", &prompts).is_none());
    assert!(extract_mentioned_prompt("", &prompts).is_none());
}

#[test]
fn request_history_prepends_system_turn_with_prompt() {
    let mut mgr = SessionManager::new();
    mgr.submit(String::from("hello"), &String::from("k"), 1_000);
    let prompt = Some(SystemPrompt {
        name: String::from("alice"),
        prompt: String::from("Be concise."),
    });
    let history = mgr.request_history(&prompt, &String::from("m1"));
    assert_eq!(history.len(), 2);
    assert!(matches!(history[0].role, Role::System));
    assert_eq!(history[0].content, "Be concise.");
    assert_eq!(history[0].prompt_name, Some(String::from("alice")));
    assert_eq!(history[1].content, "hello");
}

#[test]
fn request_history_without_prompt_is_just_the_messages() {
    let mut mgr = SessionManager::new();
    mgr.submit(String::from("hello"), &String::from("k"), 1_000);
    let history = mgr.request_history(&None, &String::from("m1"));
    assert_eq!(history.len(), 1);
    assert_eq!(history[0].content, "hello");

    // A prompt whose text is empty contributes no system turn either.
    let empty = Some(SystemPrompt { name: String::from("blank"), prompt: String::new() });
    let history = mgr.request_history(&empty, &String::from("m1"));
    assert_eq!(history.len(), 1);
}

#[test]
fn cost_is_tokens_times_per_token_price() {
    let pricing = ModelPricing {
        prompt_nano_usd_per_token: Some(2500),
        completion_nano_usd_per_token: Some(10000),
    };
    let usage = Usage { prompt_tokens: 1234, completion_tokens: 567 };
    let cost = compute_cost(&usage, &pricing);
    assert_eq!(cost, MessageCost {
        prompt_nano_usd: 1234 * 2500,
        completion_nano_usd: 567 * 10000,
    });
}

#[test]
fn absent_per_token_price_costs_zero_not_an_error() {
    let pricing = ModelPricing {
        prompt_nano_usd_per_token: None,
        completion_nano_usd_per_token: Some(7),
    };
    let usage = Usage { prompt_tokens: 1000, completion_tokens: 3 };
    let cost = compute_cost(&usage, &pricing);
    assert_eq!(cost, MessageCost { prompt_nano_usd: 0, completion_nano_usd: 21 });
}

#[test]
fn huge_token_counts_do_not_overflow() {
    let pricing = ModelPricing {
        prompt_nano_usd_per_token: Some(u64::MAX),
        completion_nano_usd_per_token: Some(u64::MAX),
    };
    let usage = Usage { prompt_tokens: u64::MAX, completion_tokens: u64::MAX };
    let cost = compute_cost(&usage, &pricing);
    assert_eq!(cost.prompt_nano_usd, u64::MAX as u128 * u64::MAX as u128);
    assert_eq!(cost.completion_nano_usd, u64::MAX as u128 * u64::MAX as u128);
}

#[test]
fn pricing_lookup_finds_model_by_id() {
    let models = vec![
        DisplayModelInfo {
            id: String::from("m1"),
            name: String::from("Model One"),
            pricing: ModelPricing {
                prompt_nano_usd_per_token: Some(1),
                completion_nano_usd_per_token: Some(2),
            },
        },
        DisplayModelInfo {
            id: String::from("m2"),
            name: String::from("Model Two"),
            pricing: ModelPricing {
                prompt_nano_usd_per_token: Some(3),
                completion_nano_usd_per_token: Some(4),
            },
        },
    ];
    let p = pricing_for_model(&models, &String::from("m2"));
    assert_eq!(p.prompt_nano_usd_per_token, Some(3));
    assert_eq!(p.completion_nano_usd_per_token, Some(4));
}

#[test]
fn pricing_lookup_of_unknown_model_has_no_prices() {
    let models: Vec<DisplayModelInfo> = Vec::new();
    let p = pricing_for_model(&models, &String::from("mystery"));
    assert_eq!(p.prompt_nano_usd_per_token, None);
    assert_eq!(p.completion_nano_usd_per_token, None);
}
