use statusline::error::StatuslineError;
use statusline::models::{
    ModelFamily, ModelType, ModelVersion, TokenBreakdown, Usage, FULL_PERCENT, PERCENT_UNIT,
};

fn model(family: ModelFamily, major: u32, minor: Option<u32>) -> ModelType {
    ModelType::Model { family, version: Some(ModelVersion { major, minor }) }
}

#[test]
fn token_breakdown_total_is_the_sum() {
    let breakdown = TokenBreakdown {
        input_tokens: 100,
        output_tokens: 500,
        cache_read_tokens: 30_000,
        cache_creation_tokens: 200,
    };
    assert_eq!(breakdown.total(), 30_800);
    assert_eq!(TokenBreakdown::default().total(), 0);
    let all = TokenBreakdown {
        input_tokens: u32::MAX,
        output_tokens: u32::MAX,
        cache_read_tokens: u32::MAX,
        cache_creation_tokens: u32::MAX,
    };
    assert_eq!(all.total(), 17_179_869_180);
}

#[test]
fn missing_counts_are_zero() {
    let usage = Usage {
        input_tokens: Some(7),
        output_tokens: None,
        cache_read_input_tokens: Some(9),
        cache_creation_input_tokens: None,
    };
    assert_eq!(
        usage.breakdown(),
        TokenBreakdown {
            input_tokens: 7,
            output_tokens: 0,
            cache_read_tokens: 9,
            cache_creation_tokens: 0
        }
    );
}

#[test]
fn percent_units() {
    assert_eq!(PERCENT_UNIT, 1000);
    assert_eq!(FULL_PERCENT, 100 * PERCENT_UNIT);
}

#[test]
fn model_names_are_read() {
    assert_eq!(ModelType::from_name("Sonnet 4.5"), model(ModelFamily::Sonnet, 4, Some(5)));
    assert_eq!(ModelType::from_name("3.5 Sonnet"), model(ModelFamily::Sonnet, 3, Some(5)));
    assert_eq!(ModelType::from_name("OPUS 4"), model(ModelFamily::Opus, 4, None));
    assert_eq!(ModelType::from_name("haiku-3"), model(ModelFamily::Haiku, 3, None));
    assert_eq!(
        ModelType::from_name("Sonnet 4.5 (1M context)"),
        model(ModelFamily::Sonnet, 4, Some(5))
    );
    assert_eq!(ModelType::from_name("sonnet-4-5-20250929"), model(ModelFamily::Sonnet, 4, None));
    assert_eq!(ModelType::from_name("Sonnet 4."), model(ModelFamily::Sonnet, 4, None));
    assert_eq!(ModelType::from_name("Sonnet 4.x"), model(ModelFamily::Sonnet, 4, None));
    assert_eq!(ModelType::from_name("Sonnet 04.05"), model(ModelFamily::Sonnet, 4, Some(5)));
    assert_eq!(
        ModelType::from_name("Sonnet"),
        ModelType::Model { family: ModelFamily::Sonnet, version: None }
    );
    assert_eq!(ModelType::from_name("GPT 4"), ModelType::Unknown);
    assert_eq!(ModelType::from_name(""), ModelType::Unknown);
}

#[test]
fn opus_wins_over_sonnet_over_haiku() {
    assert_eq!(
        ModelType::from_name("haiku sonnet opus"),
        ModelType::Model { family: ModelFamily::Opus, version: None }
    );
    assert_eq!(
        ModelType::from_name("haiku sonnet"),
        ModelType::Model { family: ModelFamily::Sonnet, version: None }
    );
}

#[test]
fn huge_version_numbers_are_capped() {
    assert_eq!(
        ModelType::from_name("Sonnet 4294967295.4294967296"),
        model(ModelFamily::Sonnet, u32::MAX, Some(u32::MAX))
    );
    assert_eq!(
        ModelType::from_name("Sonnet 99999999999999999999999999"),
        model(ModelFamily::Sonnet, u32::MAX, None)
    );
}

#[test]
fn abbreviations() {
    assert_eq!(ModelType::from_name("Sonnet 4.5").abbreviation(), "Sonnet 4.5");
    assert_eq!(ModelType::from_name("3.5 Sonnet").abbreviation(), "Sonnet 3.5");
    assert_eq!(ModelType::from_name("Opus 4").abbreviation(), "Opus 4");
    assert_eq!(ModelType::from_name("the haiku").abbreviation(), "Haiku");
    assert_eq!(ModelType::Unknown.abbreviation(), "Model");
    assert_eq!(ModelFamily::Opus.name(), "Opus");
    assert_eq!(ModelFamily::Sonnet.name(), "Sonnet");
    assert_eq!(ModelFamily::Haiku.name(), "Haiku");
}

#[test]
fn errors_describe_themselves() {
    let e = StatuslineError::invalid_path("Path contains null bytes");
    assert_eq!(e.message(), "Path contains null bytes");
    assert_eq!(e.describe(), "Invalid path: Path contains null bytes");
    assert_eq!(
        StatuslineError::Config("bad".to_string()).describe(),
        "Configuration error: bad"
    );
    assert_eq!(
        StatuslineError::Database("locked".to_string()).describe(),
        "Database error: locked"
    );
    assert_eq!(StatuslineError::Io("full".to_string()).describe(), "IO error: full");
    assert_eq!(StatuslineError::Io("full".to_string()).message(), "full");
}
