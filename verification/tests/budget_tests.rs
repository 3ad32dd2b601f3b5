use ralph_core::budget::config::{TokenBudgetConfig, TokenCost};
use ralph_core::budget::estimator::{EstimationMethod, TokenCount, TokenEstimator};
use ralph_core::budget::parser::{extract_or_estimate, parse_usage_value, ParsedTokenUsage,
    TokenUsageParser};
use ralph_core::json::JsonValue;
use ralph_core::budget::strategy::{BudgetAwarePromptBuilder, BudgetStrategy, IterationError,
    PromptStrategy};
use ralph_core::budget::tracker::{BudgetStatus, StoryBudget, TokenBudget};

#[test]
fn test_token_count_operations() {
    let mut count1 = TokenCount::new(100, 200);
    let count2 = TokenCount::new(50, 100);

    count1.add(count2);
    assert_eq!(count1.input_tokens, 150);
    assert_eq!(count1.output_tokens, 300);
    assert_eq!(count1.total(), 450);
}

#[test]
fn test_char_estimation() {
    let estimator = TokenEstimator::new(EstimationMethod::CharacterBased);
    let tokens = estimator.estimate("Hello, World!");
    assert!(tokens >= 3 && tokens <= 6);
}

#[test]
fn test_word_estimation() {
    let estimator = TokenEstimator::new(EstimationMethod::WordBased);
    let tokens = estimator.estimate("Hello World");
    assert!(tokens >= 2 && tokens <= 4);
}

#[test]
fn test_conservative_estimation() {
    let estimator = TokenEstimator::default();
    let text = "This is a test sentence for token estimation.";

    let char_est = TokenEstimator::new(EstimationMethod::CharacterBased).estimate(text);
    let conservative_est = estimator.estimate(text);

    assert!(conservative_est >= char_est);
}

#[test]
fn test_empty_string() {
    let estimator = TokenEstimator::default();
    let tokens = estimator.estimate("");
    assert_eq!(tokens, 0);
}

#[test]
fn test_prompt_estimation() {
    let estimator = TokenEstimator::default();
    let prompt = "Implement a function that adds two numbers.";
    let tokens = estimator.estimate_prompt(prompt, 5);
    assert!(tokens > estimator.estimate(prompt));
}

#[test]
fn test_parse_claude_usage() {
    let output = r#"{"usage": {"input_tokens": 1500, "output_tokens": 500}}"#;
    let parser = TokenUsageParser::new();
    let usage = parser.parse(output).unwrap();

    assert!(usage.is_actual);
    assert_eq!(usage.input_tokens, Some(1500));
    assert_eq!(usage.output_tokens, Some(500));
    assert_eq!(usage.total(), 2000);
    assert_eq!(usage.source, "anthropic");
}

#[test]
fn test_parse_openai_usage() {
    let output =
        r#"{"usage": {"prompt_tokens": 1000, "completion_tokens": 800, "total_tokens": 1800}}"#;
    let parser = TokenUsageParser::new();
    let usage = parser.parse(output).unwrap();

    assert!(usage.is_actual);
    assert_eq!(usage.input_tokens, Some(1000));
    assert_eq!(usage.output_tokens, Some(800));
    assert_eq!(usage.source, "openai");
}

#[test]
fn test_parse_multiline_output() {
    let output = r#"
Some text before
{"id": "msg_123", "content": "Hello", "usage": {"input_tokens": 100, "output_tokens": 50}}
Some text after
"#;
    let parser = TokenUsageParser::new();
    let usage = parser.parse(output).unwrap();

    assert!(usage.is_actual);
    assert_eq!(usage.input_tokens, Some(100));
    assert_eq!(usage.output_tokens, Some(50));
}

#[test]
fn test_parse_no_usage() {
    let output = "Just some plain text output without any JSON";
    let parser = TokenUsageParser::new();
    let usage = parser.parse(output);

    assert!(usage.is_none());
}

#[test]
fn test_parsed_token_usage_empty() {
    let usage = ParsedTokenUsage::empty();
    assert!(!usage.is_actual);
    assert_eq!(usage.total(), 0);
}

#[test]
fn test_parsed_token_usage_estimated() {
    let usage = ParsedTokenUsage::estimated(1000, 500);
    assert!(!usage.is_actual);
    assert_eq!(usage.source, "estimated");
    assert_eq!(usage.total(), 1500);
}

#[test]
fn test_extract_or_estimate_with_actual() {
    let output = r#"{"usage": {"input_tokens": 200, "output_tokens": 100}}"#;
    let prompt = "Test prompt";
    let estimator = TokenEstimator::default();

    let usage = extract_or_estimate(output, prompt, &estimator);
    assert!(usage.is_actual);
    assert_eq!(usage.input_tokens, Some(200));
}

#[test]
fn test_extract_or_estimate_falls_back() {
    let output = "Plain text output";
    let prompt = "Test prompt";
    let estimator = TokenEstimator::default();

    let usage = extract_or_estimate(output, prompt, &estimator);
    assert!(!usage.is_actual);
    assert_eq!(usage.source, "estimated");
}

#[test]
fn test_to_token_count() {
    let usage = ParsedTokenUsage::actual(1000, 500, String::from("test"));
    let count = usage.to_token_count();

    assert_eq!(count.input_tokens, 1000);
    assert_eq!(count.output_tokens, 500);
    assert_eq!(count.total(), 1500);
}

#[test]
fn test_parse_embedded_usage() {
    let output = r#"{"id":"msg_123","type":"message","role":"assistant","content":[{"type":"text","text":"Hello!"}],"model":"m-3","stop_reason":"end_turn","usage":{"input_tokens":42,"output_tokens":15}}"#;
    let parser = TokenUsageParser::new();
    let usage = parser.parse(output).unwrap();

    assert!(usage.is_actual);
    assert_eq!(usage.input_tokens, Some(42));
    assert_eq!(usage.output_tokens, Some(15));
}

#[test]
fn test_prompt_strategy_limits() {
    assert_eq!(PromptStrategy::Full.max_error_history(), 10);
    assert_eq!(PromptStrategy::Minimal.max_error_history(), 2);
    assert_eq!(PromptStrategy::Critical.max_error_history(), 1);
}

#[test]
fn test_prompt_strategy_features() {
    assert!(PromptStrategy::Full.include_hints());
    assert!(PromptStrategy::Standard.include_hints());
    assert!(!PromptStrategy::Minimal.include_hints());
    assert!(!PromptStrategy::Critical.include_hints());
}

#[test]
fn test_budget_strategy_from_status() {
    let normal = BudgetStrategy::from_status(BudgetStatus::Normal);
    assert_eq!(normal.prompt_strategy, PromptStrategy::Standard);
    assert!(!normal.skip_optional_gates);

    let warning = BudgetStrategy::from_status(BudgetStatus::Warning);
    assert!(warning.skip_optional_gates);

    let critical = BudgetStrategy::from_status(BudgetStatus::Critical);
    assert_eq!(critical.prompt_strategy, PromptStrategy::Minimal);
    assert!(critical.reduce_retries);

    let exceeded = BudgetStrategy::from_status(BudgetStatus::Exceeded);
    assert!(!exceeded.should_continue());
}

#[test]
fn test_effective_max_iterations() {
    let normal = BudgetStrategy::normal();
    assert_eq!(normal.effective_max_iterations(10), 10);

    let minimal = BudgetStrategy::minimal();
    assert_eq!(minimal.effective_max_iterations(10), 2);

    let conservative = BudgetStrategy::conservative();
    assert_eq!(conservative.effective_max_iterations(10), 10);
}

#[test]
fn test_prompt_builder() {
    let builder = BudgetAwarePromptBuilder::new(PromptStrategy::Minimal);

    let errors = vec![
        IterationError::new(1, String::from("lint"), String::from("Error 1")),
        IterationError::new(2, String::from("lint"), String::from("Error 2")),
        IterationError::new(3, String::from("lint"), String::from("Error 3")),
    ];

    let section = builder.build_error_history(&errors);

    assert!(section.contains("Iteration 2"));
    assert!(section.contains("Iteration 3"));
    assert!(!section.contains("Iteration 1"));
}

#[test]
fn test_story_budget_new() {
    let budget = StoryBudget::new(String::from("US-001"), 50_000);
    assert_eq!(budget.story_id, "US-001");
    assert_eq!(budget.budget_limit, 50_000);
    assert_eq!(budget.total_tokens(), 0);
}

#[test]
fn test_story_budget_recording() {
    let mut budget = StoryBudget::new(String::from("US-001"), 50_000);
    budget.record_iteration(TokenCount::new(1000, 2000));

    assert_eq!(budget.input_tokens, 1000);
    assert_eq!(budget.output_tokens, 2000);
    assert_eq!(budget.total_tokens(), 3000);
    assert_eq!(budget.iterations, 1);
}

#[test]
fn test_story_budget_exceeded() {
    let mut budget = StoryBudget::new(String::from("US-001"), 10_000);
    budget.record_iteration(TokenCount::new(5000, 6000));

    assert!(budget.is_exceeded());
}

#[test]
fn test_story_budget_remaining() {
    let mut budget = StoryBudget::new(String::from("US-001"), 50_000);
    budget.record_iteration(TokenCount::new(10_000, 10_000));

    assert_eq!(budget.remaining(), 30_000);
}

#[test]
fn test_token_budget_story_tracking() {
    let config = TokenBudgetConfig::new().with_story_budget(10_000);
    let mut budget = TokenBudget::new(config);

    budget.start_story(String::from("US-001"));
    budget.record_iteration(2000, 3000);

    assert_eq!(budget.total_tokens(), 5000);
    assert_eq!(budget.story_remaining(), 5000);
}

#[test]
fn test_budget_exceed_stops() {
    // Story cap 10 000 tokens, critical at 80%, warning at 50%, aborting
    // on a story budget overrun: the statuses pass through every level
    // before enforcement stops the run.
    let config = TokenBudgetConfig::new()
        .with_story_budget(10_000)
        .with_warning_threshold(500)
        .with_critical_threshold(800)
        .with_abort_on_story_exceeded(true);
    let mut budget = TokenBudget::new(config);
    budget.start_story(String::from("US-001"));

    budget.record_iteration(2000, 1000);
    assert_eq!(budget.story_status(), BudgetStatus::Normal);

    budget.record_iteration(2000, 1000);
    assert_eq!(budget.story_status(), BudgetStatus::Warning);

    budget.record_iteration(2000, 1000);
    assert_eq!(budget.story_status(), BudgetStatus::Critical);

    budget.record_iteration(3000, 1000);
    assert_eq!(budget.story_status(), BudgetStatus::Exceeded);
    assert!(!budget.can_continue_story());
}

#[test]
fn test_budget_counters_monotonic() {
    let mut budget = TokenBudget::new(TokenBudgetConfig::new());
    budget.start_story(String::from("US-001"));
    let mut last_total = 0u64;
    for _ in 0..5 {
        budget.record_iteration(700, 300);
        let total = budget.total_tokens();
        assert!(total >= last_total);
        last_total = total;
    }
    assert_eq!(last_total, 5000);
}

#[test]
fn test_budget_enforcement_stop_reason() {
    let config = TokenBudgetConfig::new()
        .with_story_budget(1000)
        .with_abort_on_story_exceeded(true);
    let mut budget = TokenBudget::new(config);
    budget.start_story(String::from("US-001"));
    budget.record_iteration(900, 200);

    let enforcement = budget.enforce();
    assert!(!enforcement.can_continue);
    let reason = enforcement.stop_reason.unwrap();
    assert!(reason.contains("Story budget exceeded"));
    assert!(reason.contains("1100/1000 tokens"));
}

#[test]
fn test_token_cost_calculation() {
    let cost = TokenCost::default();
    let total = cost.calculate_cost(1000, 1000);
    // 1K input at 300 millicents plus 1K output at 1500 millicents.
    assert_eq!(total, 1800);
}

#[test]
fn test_effective_story_budget() {
    let config = TokenBudgetConfig::new()
        .with_story_budget(50_000)
        .with_reserve_buffer(5_000);

    assert_eq!(config.effective_story_budget(), 45_000);
}

#[test]
fn test_unlimited_config() {
    let config = TokenBudgetConfig::unlimited();
    assert_eq!(config.story_budget, 0);
    assert_eq!(config.total_budget, 0);
    assert!(!config.is_enabled());
}

#[test]
fn test_parse_usage_value_shapes() {

    let anthropic_shape = JsonValue::Object(vec![
        (String::from("input_tokens"), JsonValue::Num(String::from("12"))),
        (String::from("output_tokens"), JsonValue::Num(String::from("34"))),
    ]);
    let usage = parse_usage_value(&anthropic_shape).unwrap();
    assert_eq!(usage.input_tokens, Some(12));
    assert_eq!(usage.output_tokens, Some(34));
    assert_eq!(usage.source, "anthropic");

    let openai_shape = JsonValue::Object(vec![
        (String::from("prompt_tokens"), JsonValue::Num(String::from("7"))),
        (String::from("completion_tokens"), JsonValue::Num(String::from("8"))),
    ]);
    let usage = parse_usage_value(&openai_shape).unwrap();
    assert_eq!(usage.source, "openai");

    let mixed_shape = JsonValue::Object(vec![
        (String::from("input_tokens"), JsonValue::Num(String::from("5"))),
        (String::from("completion_tokens"), JsonValue::Num(String::from("6"))),
    ]);
    let usage = parse_usage_value(&mixed_shape).unwrap();
    assert_eq!(usage.input_tokens, Some(5));
    assert_eq!(usage.output_tokens, Some(6));
    assert_eq!(usage.source, "parsed");

    let no_usage = JsonValue::Object(vec![
        (String::from("input_tokens"), JsonValue::Num(String::from("5"))),
    ]);
    assert!(parse_usage_value(&no_usage).is_none());
}

#[test]
fn error_history_truncates_long_messages_without_full_detail() {
    let long: String = std::iter::repeat('x').take(150).collect();
    let errors = vec![IterationError::new(1, String::from("lint"), long.clone())];

    let minimal = BudgetAwarePromptBuilder::new(PromptStrategy::Minimal);
    let section = minimal.build_error_history(&errors);
    assert!(section.contains(&long[..100]));
    assert!(!section.contains(&long[..101]));

    let full = BudgetAwarePromptBuilder::new(PromptStrategy::Full);
    let section = full.build_error_history(&errors);
    assert!(section.contains(long.as_str()));
}

#[test]
fn error_history_truncation_keeps_character_boundaries() {
    // One ASCII byte then two-byte characters put the 100-byte mark
    // inside a character, so the cut backs off to 99 bytes.
    let msg: String = std::iter::once('a')
        .chain(std::iter::repeat('é').take(60))
        .collect();
    let errors = vec![IterationError::new(1, String::from("lint"), msg.clone())];
    let minimal = BudgetAwarePromptBuilder::new(PromptStrategy::Minimal);
    let section = minimal.build_error_history(&errors);
    let kept: String = msg.chars().take(50).collect();
    assert_eq!(kept.len(), 99);
    assert!(section.contains(kept.as_str()));
    let over: String = msg.chars().take(51).collect();
    assert!(!section.contains(over.as_str()));
}
