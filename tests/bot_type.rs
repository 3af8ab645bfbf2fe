use bot_identity::{if_false, BotFlags, BotModel, BotType, Error, FieldsBot};

#[test]
fn test_bot_type_from_value() {
    let bot_type = BotType::from_value("custom_bot").unwrap();
    assert_eq!(bot_type, BotType::CustomBot);

    let bot_type = BotType::from_value("prompt_bot").unwrap();
    assert_eq!(bot_type, BotType::PromptBot);

    let bot_type = BotType::from_value("unexpected");
    assert_eq!(bot_type, Err(Error::ValidationFailed));
}

#[test]
fn test_bot_type_as_str() {
    let custom_bot = BotType::CustomBot;
    let custom_bot_str = custom_bot.as_str();
    assert_eq!(custom_bot_str, "custom_bot");

    let prompt_bot = BotType::PromptBot;
    let prompt_bot_str = prompt_bot.as_str();
    assert_eq!(prompt_bot_str, "prompt_bot");
}

#[test]
fn bot_type_round_trips_through_its_name() {
    for t in [BotType::CustomBot, BotType::PromptBot] {
        assert_eq!(BotType::from_value(t.as_str()), Ok(t));
    }
    assert!(BotType::from_value("Custom_bot").is_err());
    assert!(BotType::from_value("").is_err());
}

#[test]
fn if_false_negates() {
    assert!(if_false(&false));
    assert!(!if_false(&true));
}

#[test]
fn bot_flag_bits() {
    assert_eq!(BotFlags::Verified.bit(), 1);
    assert_eq!(BotFlags::Official.bit(), 2);
}

#[test]
fn removable_field_paths() {
    assert_eq!(FieldsBot::Token.as_path(), None);
    assert_eq!(FieldsBot::InteractionsURL.as_path(), Some("interactions_url"));
}

#[test]
fn default_model_settings() {
    let m = BotModel::default();
    assert_eq!(m.model_name, "gpt-3.5-turbo");
    assert_eq!(m.temperature_bits, 0.0f32.to_bits());
    assert!(m.validate().is_ok());
}
