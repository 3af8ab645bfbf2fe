use bot_identity::{
    BotInformation, BotModel, BotType, DataCreateBot, DataEditBot, FieldsBot, PromptTemplate,
    UserProfileData,
};

#[test]
fn bots_test_validate() {
    let mut bot = DataCreateBot {
        name: "mybot".into(),
        welcome: None,
        bot_type: Some(BotType::PromptBot),
        model: Some(BotModel {
            model_name: "gpt4".into(),
            prompts: PromptTemplate {
                system_prompt: "".into(),
                role_requirements: "".into(),
            },
            temperature_bits: 2.0f32.to_bits(),
        }),
    };

    assert!(bot.validate().is_err());

    bot.model.as_mut().unwrap().temperature_bits = 0.5f32.to_bits();
    assert!(bot.validate().is_ok());
}

#[test]
fn users_test_default_bot() {
    let bot_information = BotInformation {
        owner_id: "id1".into(),
        model: Some(BotModel::default_model()),
        welcome: None,
    };

    assert_eq!(
        bot_information.model.clone().unwrap(),
        BotModel {
            model_name: "gpt-3.5-turbo".into(),
            prompts: PromptTemplate {
                system_prompt: "".into(),
                role_requirements: "".into(),
            },
            temperature_bits: 0.0f32.to_bits(),
        }
    );
}

#[test]
fn users_test_validate() {
    let bot_model = BotModel {
        temperature_bits: 1.4f32.to_bits(),
        ..BotModel::default_model()
    };

    assert!(bot_model.validate().is_err());
}

#[test]
fn prompt_test_default_bot() {
    let bot_information = BotInformation {
        owner_id: "id1".into(),
        model: Some(BotModel::default_model()),
        welcome: None,
    };

    assert_eq!(
        bot_information.model.clone().unwrap(),
        BotModel {
            model_name: "gpt-3.5-turbo".into(),
            prompts: PromptTemplate {
                system_prompt: "".into(),
                role_requirements: "".into(),
            },
            temperature_bits: 0.0f32.to_bits(),
        }
    );
}

#[test]
fn prompt_test_validate() {
    let bot_model = BotModel {
        temperature_bits: 1.4f32.to_bits(),
        ..BotModel::default_model()
    };

    assert!(bot_model.validate().is_err());
}

#[test]
fn create_test_validate() {
    let mut bot = DataCreateBot {
        name: "my_bot".into(),
        welcome: None,
        bot_type: Some(BotType::CustomBot),
        model: Some(BotModel {
            model_name: "gpt-4".into(),
            prompts: PromptTemplate {
                system_prompt: "".into(),
                role_requirements: "".into(),
            },
            temperature_bits: 2.0f32.to_bits(),
        }),
    };
    assert!(bot.validate().is_err());

    bot.model.as_mut().unwrap().temperature_bits = 0.5f32.to_bits();
    assert!(bot.validate().is_ok());
}

#[test]
fn edit_user_test_validate() {
    let bot = BotInformation {
        owner_id: "1230".into(),
        model: Some(BotModel {
            model_name: "gpt-4".into(),
            prompts: PromptTemplate {
                system_prompt: "".into(),
                role_requirements: "".into(),
            },
            temperature_bits: 2.0f32.to_bits(),
        }),
        welcome: None,
    };
    assert!(bot.validate().is_err());
}

#[test]
fn temperature_bounds_are_inclusive() {
    for t in [0.0f32, -0.0, 0.25, 1.0] {
        let m = BotModel { temperature_bits: t.to_bits(), ..BotModel::default_model() };
        assert!(m.validate().is_ok(), "{t}");
    }
    for t in [-0.1f32, 1.0001, f32::NAN, f32::INFINITY, -1.0] {
        let m = BotModel { temperature_bits: t.to_bits(), ..BotModel::default_model() };
        assert!(m.validate().is_err(), "{t}");
    }
}

fn create_data(name: &str) -> DataCreateBot {
    DataCreateBot { name: name.into(), welcome: None, bot_type: None, model: None }
}

#[test]
fn username_rules() {
    assert!(create_data("ab").validate().is_ok());
    assert!(create_data("a").validate().is_err());
    assert!(create_data(&"x".repeat(32)).validate().is_ok());
    assert!(create_data(&"x".repeat(33)).validate().is_err());
    assert!(create_data("bot.name-1_2").validate().is_ok());
    assert!(create_data("机器人").validate().is_ok());
    assert!(create_data("has space").validate().is_err());
    assert!(create_data("zero\u{200B}width").validate().is_err());
}

#[test]
fn edit_data_rules() {
    let empty = DataEditBot { name: None, public: None, analytics: None, interactions_url: None, remove: None };
    assert!(empty.validate().is_ok());
    let no_removals = DataEditBot { remove: Some(vec![]), ..empty.clone() };
    assert!(no_removals.validate().is_err());
    let removals = DataEditBot { remove: Some(vec![FieldsBot::Token]), ..empty.clone() };
    assert!(removals.validate().is_ok());
    let empty_url = DataEditBot { interactions_url: Some(String::new()), ..empty.clone() };
    assert!(empty_url.validate().is_err());
    let long_url = DataEditBot { interactions_url: Some("u".repeat(2049)), ..empty.clone() };
    assert!(long_url.validate().is_err());
    let bad_name = DataEditBot { name: Some("a b".into()), ..empty };
    assert!(bad_name.validate().is_err());
}

#[test]
fn profile_data_rules() {
    let ok = UserProfileData { content: Some("hello".into()), background: Some("file".into()) };
    assert!(ok.validate().is_ok());
    let long = UserProfileData { content: Some("c".repeat(2001)), background: None };
    assert!(long.validate().is_err());
    let empty_bg = UserProfileData { content: None, background: Some(String::new()) };
    assert!(empty_bg.validate().is_err());
}
