use k_aiti::config::{
    create_chat_model, get_model_by_mode, settings_setup, CreateModelError, Model, ModeSelection,
};
use k_aiti::gpt_client::{
    coerce_model, coerce_u16, coerce_u8, parse_uint_bounded, ConfigValue, GptClient,
    GptConfigInput,
};

fn input_with_max_tokens(v: ConfigValue) -> GptConfigInput {
    GptConfigInput {
        max_tokens: v,
        n: ConfigValue::Missing,
        temperature: ConfigValue::Missing,
        model: ConfigValue::Missing,
    }
}

#[test]
fn max_tokens_from_numeric_string() {
    let client = GptClient::new(input_with_max_tokens(ConfigValue::Text("250".to_string())));
    assert_eq!(client.config.max_tokens, 250);
}

#[test]
fn max_tokens_from_bad_string_falls_back() {
    let client = GptClient::new(input_with_max_tokens(ConfigValue::Text("bad".to_string())));
    assert_eq!(client.config.max_tokens, 1000);
}

#[test]
fn max_tokens_from_native_number() {
    let client = GptClient::new(input_with_max_tokens(ConfigValue::UInt(250)));
    assert_eq!(client.config.max_tokens, 250);
}

#[test]
fn max_tokens_native_number_truncates_as_cast() {
    let client = GptClient::new(input_with_max_tokens(ConfigValue::UInt(70000)));
    assert_eq!(client.config.max_tokens, 70000u32 as u16);
}

#[test]
fn max_tokens_missing_takes_default() {
    let client = GptClient::new(input_with_max_tokens(ConfigValue::Missing));
    assert_eq!(client.config.max_tokens, 1000);
}

#[test]
fn max_tokens_type_mismatch_takes_default() {
    let client = GptClient::new(input_with_max_tokens(ConfigValue::Other));
    assert_eq!(client.config.max_tokens, 1000);
    let client = GptClient::new(input_with_max_tokens(ConfigValue::Decimal("0.5".to_string())));
    assert_eq!(client.config.max_tokens, 1000);
}

#[test]
fn coercion_reports_substituted_default() {
    let (v, used_default) = coerce_u16(&ConfigValue::Text("bad".to_string()), 1000);
    assert_eq!((v, used_default), (1000, true));
    let (v, used_default) = coerce_u16(&ConfigValue::Text("250".to_string()), 1000);
    assert_eq!((v, used_default), (250, false));
    let (v, used_default) = coerce_u16(&ConfigValue::Other, 1000);
    assert_eq!((v, used_default), (1000, true));
}

#[test]
fn sample_count_coercion() {
    let (v, used_default) = coerce_u8(&ConfigValue::Text("3".to_string()), 1);
    assert_eq!((v, used_default), (3, false));
    let (v, used_default) = coerce_u8(&ConfigValue::Missing, 1);
    assert_eq!((v, used_default), (1, false));
    let (v, used_default) = coerce_u8(&ConfigValue::Text("300".to_string()), 1);
    assert_eq!((v, used_default), (1, true));
}

#[test]
fn model_coercion() {
    let (m, used_default) = coerce_model(&ConfigValue::Text("gpt-4".to_string()), "gpt-3.5-turbo");
    assert_eq!(m, "gpt-4");
    assert!(!used_default);
    let (m, _) = coerce_model(&ConfigValue::UInt(7), "gpt-3.5-turbo");
    assert_eq!(m, "gpt-3.5-turbo");
    let (m, _) = coerce_model(&ConfigValue::Missing, "gpt-3.5-turbo");
    assert_eq!(m, "gpt-3.5-turbo");
}

#[test]
fn parse_accepts_plus_and_leading_zeros() {
    assert_eq!(parse_uint_bounded("+250", 0xFFFF), Some(250));
    assert_eq!(parse_uint_bounded("007", 0xFFFF), Some(7));
}

#[test]
fn parse_rejects_bad_inputs() {
    assert_eq!(parse_uint_bounded("", 0xFFFF), None);
    assert_eq!(parse_uint_bounded("+", 0xFFFF), None);
    assert_eq!(parse_uint_bounded("12a", 0xFFFF), None);
    assert_eq!(parse_uint_bounded("-5", 0xFFFF), None);
    assert_eq!(parse_uint_bounded(" 5", 0xFFFF), None);
    assert_eq!(parse_uint_bounded("70000", 0xFFFF), None);
    assert_eq!(parse_uint_bounded("99999999999999999999999999", 0xFFFF), None);
}

#[test]
fn parse_accepts_bound_itself() {
    assert_eq!(parse_uint_bounded("65535", 0xFFFF), Some(65535));
    assert_eq!(parse_uint_bounded("65536", 0xFFFF), None);
    assert_eq!(parse_uint_bounded("255", 0xFF), Some(255));
    assert_eq!(parse_uint_bounded("256", 0xFF), None);
}

#[test]
fn temperature_is_passed_through_raw() {
    let client = GptClient::new(GptConfigInput {
        max_tokens: ConfigValue::Missing,
        n: ConfigValue::Missing,
        temperature: ConfigValue::Decimal("0.8".to_string()),
        model: ConfigValue::Missing,
    });
    assert!(matches!(&client.config.temperature, ConfigValue::Decimal(t) if t == "0.8"));
}

#[test]
fn create_chat_model_supported_name() {
    let model = Model {
        id: "chatgpt".to_string(),
        name: "ChatGPT".to_string(),
        config: GptConfigInput {
            max_tokens: ConfigValue::Text("250".to_string()),
            n: ConfigValue::UInt(2),
            temperature: ConfigValue::Missing,
            model: ConfigValue::Text("gpt-4".to_string()),
        },
    };
    let client = create_chat_model(&model).expect("ChatGPT must be supported");
    assert_eq!(client.config.max_tokens, 250);
    assert_eq!(client.config.n, 2);
    assert_eq!(client.config.model, "gpt-4");
}

#[test]
fn create_chat_model_unsupported_name() {
    let model = Model {
        id: "other".to_string(),
        name: "SomethingElse".to_string(),
        config: GptConfigInput {
            max_tokens: ConfigValue::Missing,
            n: ConfigValue::Missing,
            temperature: ConfigValue::Missing,
            model: ConfigValue::Missing,
        },
    };
    let err = create_chat_model(&model).expect_err("unknown names are rejected");
    assert_eq!(err, CreateModelError::UnsupportedModelName);
}

#[test]
fn default_settings_shape() {
    let settings = settings_setup();
    assert_eq!(settings.application.name, "k-aiti");
    assert_eq!(settings.application.version, "0.0.1");
    assert_eq!(settings.models.len(), 1);
    assert_eq!(settings.models[0].id, "chatgpt");
    assert_eq!(settings.models[0].name, "ChatGPT");
    assert!(matches!(settings.models[0].config.max_tokens, ConfigValue::UInt(100)));
    assert!(matches!(settings.models[0].config.n, ConfigValue::UInt(1)));
    assert!(
        matches!(&settings.models[0].config.temperature, ConfigValue::Decimal(t) if t == "0.9")
    );
    assert!(
        matches!(&settings.models[0].config.model, ConfigValue::Text(m) if m == "gpt-3.5-turbo")
    );
    assert_eq!(settings.modes.completion.id, "chatgpt");
    assert_eq!(settings.modes.chat.id, "chatgpt");
}

#[test]
fn model_lookup_by_mode() {
    let settings = settings_setup();
    let model = get_model_by_mode(&settings, ModeSelection::Chat).expect("chat model configured");
    assert_eq!(model.id, "chatgpt");
    let model =
        get_model_by_mode(&settings, ModeSelection::Completion).expect("completion configured");
    assert_eq!(model.id, "chatgpt");
}

#[test]
fn model_lookup_misses_on_unknown_id() {
    let mut settings = settings_setup();
    settings.modes.chat.id = "absent".to_string();
    assert!(get_model_by_mode(&settings, ModeSelection::Chat).is_none());
}
