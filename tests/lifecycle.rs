use bot_identity::{
    create_bot, delete_bot, edit_bot, Bot, BotInformation, BotModel, BotType, DataCreateBot,
    DataEditBot, Database, Error, FieldsBot, Invite, PartialBot, PromptTemplate, User,
    MAX_BOT_COUNT,
};

const PERMISSIONS: i64 = 0x3F_0000;

fn store_with_owner(id: &str, name: &str) -> (Database, User) {
    let mut db = Database::new();
    let owner = User::new(id.into(), name.into(), None);
    db.insert_user(owner.clone()).unwrap();
    (db, owner)
}

fn edit() -> DataEditBot {
    DataEditBot { name: None, public: None, analytics: None, interactions_url: None, remove: None }
}

#[test]
fn crud() {
    let (mut db, owner) = store_with_owner("owner-1", "Owner");

    let bot = Bot::create(
        &mut db,
        "Bot_Name".to_string(),
        &owner,
        Some(PartialBot {
            token: Some("my token".to_string()),
            interactions_url: Some("some url".to_string()),
            bot_type: Some(BotType::PromptBot),
            ..Default::default()
        }),
    )
    .unwrap();

    assert!(!bot.interactions_url.is_empty());

    let mut updated_bot = bot.clone();
    updated_bot
        .update(
            &mut db,
            PartialBot { public: Some(true), ..Default::default() },
            vec![FieldsBot::Token, FieldsBot::InteractionsURL],
        )
        .unwrap();

    let fetched_bot1 = db.fetch_bot(&bot.id).unwrap();
    let fetched_bot2 = db.fetch_bot_by_token(&fetched_bot1.token).unwrap();
    let fetched_bots = db.fetch_bots_by_user(&owner.id);
    let fetched_bots2 = db.fetch_bots(&vec![bot.id.clone()]);

    assert_eq!(1, fetched_bots2.len());
    assert_eq!(fetched_bots, fetched_bots2);

    let fetched_user_bot = db.fetch_user(&bot.id).unwrap();
    assert_eq!(
        fetched_user_bot.bot,
        Some(BotInformation { owner_id: owner.id.clone(), model: None, welcome: None })
    );

    assert!(!bot.public);
    assert!(fetched_bot1.public);
    assert!(!bot.interactions_url.is_empty());
    assert!(fetched_bot1.interactions_url.is_empty());
    assert_ne!(bot.token, fetched_bot1.token);
    assert_eq!(updated_bot, fetched_bot1);
    assert_eq!(fetched_bot1, fetched_bot2);
    assert_eq!(fetched_bot1, fetched_bots[0]);
    assert_eq!(1, db.get_number_of_bots_by_user(&owner.id));

    bot.delete(&mut db).unwrap();
    assert!(db.fetch_bot(&bot.id).is_err());
    assert_eq!(0, db.get_number_of_bots_by_user(&owner.id));
    assert_eq!(db.fetch_user(&bot.id).unwrap().flags, 2);
}

#[test]
fn test_prepare_default_channel_for_bot() {
    let (mut db, owner) = store_with_owner("owner-1", "Owner");

    let mut bot = Bot::create(
        &mut db,
        "Bot_Name".to_string(),
        &owner,
        Some(PartialBot {
            token: Some("my token".to_string()),
            interactions_url: Some("some url".to_string()),
            bot_type: Some(BotType::PromptBot),
            ..Default::default()
        }),
    )
    .unwrap();

    assert!(bot.default_server.is_none());
    assert!(bot.server_invite.is_none());

    let bot_user = db.fetch_user(&bot.id).unwrap();

    Bot::prepare_default_channel_for_bot(&mut db, &mut bot, &bot_user, &owner, PERMISSIONS).unwrap();

    assert!(bot.server_invite.is_some());
    assert!(bot.default_server.is_some());

    let server = db.fetch_server(bot.default_server.as_ref().unwrap()).unwrap();
    assert_eq!(4, server.channels.len());
    let channels = db.fetch_channels(&server.channels).unwrap();
    assert_eq!(4, channels.len());

    let invite: Invite = db.fetch_invite(bot.server_invite.as_ref().unwrap()).unwrap();
    assert_eq!(Some(invite.code.clone()), bot.server_invite);
    assert_eq!(invite.server, server.id);
    assert_eq!(invite.channel, channels[0].id);

    assert_eq!(server.name, "Bot_Name的主页");
    assert_eq!(server.owner, owner.id);
    assert_eq!(server.default_permissions, PERMISSIONS);
    let names: Vec<&str> = channels.iter().map(|c| c.name.as_str()).collect();
    assert_eq!(names, vec!["BOT使用新手指南", "功能发布", "bug反馈", "大家一起玩"]);
    assert!(db.fetch_member(&server.id, &owner.id));
    assert!(db.fetch_member(&server.id, &bot.id));
    assert_eq!(db.fetch_bot(&bot.id).unwrap(), bot);
}

#[test]
fn quota_allows_up_to_the_limit() {
    let (mut db, owner) = store_with_owner("owner-1", "Owner");
    for n in 0..MAX_BOT_COUNT {
        assert_eq!(db.get_number_of_bots_by_user(&owner.id), n);
        let bot = Bot::create(&mut db, format!("bot_{n}"), &owner, None).unwrap();
        assert_eq!(db.get_number_of_bots_by_user(&owner.id), n + 1);
        assert_eq!(db.fetch_user(&bot.id).unwrap().id, bot.id);
    }
    let users_before = db.users.len();
    let r = Bot::create(&mut db, "one_too_many".into(), &owner, None);
    assert_eq!(r, Err(Error::QuotaExceeded));
    assert_eq!(db.get_number_of_bots_by_user(&owner.id), MAX_BOT_COUNT);
    assert_eq!(db.users.len(), users_before);
}

#[test]
fn quota_is_per_owner() {
    let (mut db, owner) = store_with_owner("owner-1", "Owner");
    let other = User::new("owner-2".into(), "Other".into(), None);
    db.insert_user(other.clone()).unwrap();
    for n in 0..MAX_BOT_COUNT {
        Bot::create(&mut db, format!("bot_{n}"), &owner, None).unwrap();
    }
    assert!(Bot::create(&mut db, "others_bot".into(), &other, None).is_ok());
    assert_eq!(db.get_number_of_bots_by_user(&other.id), 1);
}

#[test]
fn a_bot_cannot_own_a_bot() {
    let (mut db, owner) = store_with_owner("owner-1", "Owner");
    let bot = Bot::create(&mut db, "first_bot".into(), &owner, None).unwrap();
    let bot_user = db.fetch_user(&bot.id).unwrap();
    assert_eq!(Bot::create(&mut db, "second_bot".into(), &bot_user, None), Err(Error::IsBot));
    let data = DataCreateBot { name: "second_bot".into(), welcome: None, bot_type: None, model: None };
    assert_eq!(create_bot(&mut db, &bot_user, data, PERMISSIONS), Err(Error::IsBot));
}

#[test]
fn create_rejects_bad_names_and_options() {
    let (mut db, owner) = store_with_owner("owner-1", "Owner");
    assert_eq!(Bot::create(&mut db, "x".into(), &owner, None), Err(Error::ValidationFailed));
    let sets_id = PartialBot { id: Some("chosen".into()), ..Default::default() };
    assert_eq!(
        Bot::create(&mut db, "valid_name".into(), &owner, Some(sets_id)),
        Err(Error::ValidationFailed)
    );
    assert_eq!(db.bots.len(), 0);
    assert_eq!(db.users.len(), 1);
}

#[test]
fn new_bot_has_fresh_token_and_pairs_with_user() {
    let (mut db, owner) = store_with_owner("owner-1", "Owner");
    let bot = Bot::create(&mut db, "paired".into(), &owner, None).unwrap();
    assert_eq!(bot.token.chars().count(), 64);
    assert!(bot.token.chars().all(|c| c.is_ascii_alphanumeric() || c == '_' || c == '-'));
    assert_eq!(bot.id.len(), 26);
    assert_eq!(bot.owner, owner.id);
    let user = db.fetch_user(&bot.id).unwrap();
    assert_eq!(user.id, bot.id);
    assert_eq!(user.username, "paired");
    assert_eq!(db.fetch_bot_by_token(&bot.token).unwrap(), bot);
}

#[test]
fn removing_token_rotates_it() {
    let (mut db, owner) = store_with_owner("owner-1", "Owner");
    let mut bot = Bot::create(&mut db, "rotating".into(), &owner, None).unwrap();
    let mut seen = vec![bot.token.clone()];
    for _ in 0..3 {
        bot.update(&mut db, PartialBot::default(), vec![FieldsBot::Token]).unwrap();
        assert_eq!(bot.token.len(), 64);
        assert!(!seen.contains(&bot.token));
        assert_eq!(db.fetch_bot(&bot.id).unwrap().token, bot.token);
        seen.push(bot.token.clone());
    }
}

#[test]
fn removing_interactions_url_clears_it() {
    let (mut db, owner) = store_with_owner("owner-1", "Owner");
    let data = PartialBot { interactions_url: Some("https://example.com/hook".into()), ..Default::default() };
    let mut bot = Bot::create(&mut db, "hooked".into(), &owner, Some(data)).unwrap();
    bot.update(&mut db, PartialBot::default(), vec![FieldsBot::InteractionsURL]).unwrap();
    assert_eq!(bot.interactions_url, "");
    assert_eq!(db.fetch_bot(&bot.id).unwrap().interactions_url, "");
}

#[test]
fn update_rejects_a_new_id() {
    let (mut db, owner) = store_with_owner("owner-1", "Owner");
    let mut bot = Bot::create(&mut db, "fixed_id".into(), &owner, None).unwrap();
    let before = bot.clone();
    let r = bot.update(&mut db, PartialBot { id: Some("other".into()), ..Default::default() }, vec![]);
    assert_eq!(r, Err(Error::ValidationFailed));
    assert_eq!(bot, before);
    assert_eq!(db.fetch_bot(&bot.id).unwrap(), before);
}

#[test]
fn making_public_with_a_public_duplicate_name_fails() {
    let (mut db, owner) = store_with_owner("owner-1", "Owner");
    let first = Bot::create(&mut db, "same_name".into(), &owner, Some(PartialBot { public: Some(true), ..Default::default() })).unwrap();
    let second = Bot::create(&mut db, "same_name".into(), &owner, None).unwrap();
    let r = edit_bot(&mut db, &owner, &second.id, DataEditBot { public: Some(true), ..edit() });
    assert_eq!(r, Err(Error::DuplicatePublicBotName));
    assert!(!db.fetch_bot(&second.id).unwrap().public);
    assert!(db.fetch_bot(&first.id).unwrap().public);
}

#[test]
fn making_public_with_a_private_duplicate_name_succeeds() {
    let (mut db, owner) = store_with_owner("owner-1", "Owner");
    Bot::create(&mut db, "same_name".into(), &owner, None).unwrap();
    let second = Bot::create(&mut db, "same_name".into(), &owner, None).unwrap();
    let r = edit_bot(&mut db, &owner, &second.id, DataEditBot { public: Some(true), ..edit() }).unwrap();
    assert!(r.public);
    assert!(db.fetch_bot(&second.id).unwrap().public);
}

#[test]
fn public_bot_renamed_to_a_public_duplicate_fails() {
    let (mut db, owner) = store_with_owner("owner-1", "Owner");
    Bot::create(&mut db, "taken".into(), &owner, Some(PartialBot { public: Some(true), ..Default::default() })).unwrap();
    let second = Bot::create(&mut db, "other".into(), &owner, Some(PartialBot { discoverable: Some(true), ..Default::default() })).unwrap();
    let r = edit_bot(&mut db, &owner, &second.id, DataEditBot { name: Some("taken".into()), ..edit() });
    assert_eq!(r, Err(Error::DuplicatePublicBotName));
    assert_eq!(db.fetch_user(&second.id).unwrap().username, "other");
}

#[test]
fn private_bot_renamed_to_a_public_duplicate_succeeds() {
    let (mut db, owner) = store_with_owner("owner-1", "Owner");
    Bot::create(&mut db, "taken".into(), &owner, Some(PartialBot { public: Some(true), ..Default::default() })).unwrap();
    let second = Bot::create(&mut db, "other".into(), &owner, None).unwrap();
    edit_bot(&mut db, &owner, &second.id, DataEditBot { name: Some("taken".into()), ..edit() }).unwrap();
    assert_eq!(db.fetch_user(&second.id).unwrap().username, "taken");
}

#[test]
fn public_name_comparison_is_case_sensitive() {
    let (mut db, owner) = store_with_owner("owner-1", "Owner");
    Bot::create(&mut db, "Taken".into(), &owner, Some(PartialBot { public: Some(true), ..Default::default() })).unwrap();
    let second = Bot::create(&mut db, "taken".into(), &owner, None).unwrap();
    assert!(edit_bot(&mut db, &owner, &second.id, DataEditBot { public: Some(true), ..edit() }).is_ok());
}

#[test]
fn edit_by_someone_else_is_not_found() {
    let (mut db, owner) = store_with_owner("owner-1", "Owner");
    let stranger = User::new("owner-2".into(), "Stranger".into(), None);
    db.insert_user(stranger.clone()).unwrap();
    let bot = Bot::create(&mut db, "mine".into(), &owner, None).unwrap();
    let r = edit_bot(&mut db, &stranger, &bot.id, DataEditBot { public: Some(true), ..edit() });
    assert_eq!(r, Err(Error::NotFound));
    assert_eq!(delete_bot(&mut db, &stranger, &bot.id), Err(Error::NotFound));
    assert!(db.fetch_bot(&bot.id).is_ok());
    let missing = edit_bot(&mut db, &owner, &"no-such-bot".to_string(), edit());
    assert_eq!(missing, Err(Error::NotFound));
}

#[test]
fn edit_rotates_token_and_sets_fields() {
    let (mut db, owner) = store_with_owner("owner-1", "Owner");
    let bot = Bot::create(&mut db, "editable".into(), &owner, None).unwrap();
    let r = edit_bot(
        &mut db,
        &owner,
        &bot.id,
        DataEditBot {
            analytics: Some(true),
            interactions_url: Some("https://hook".into()),
            remove: Some(vec![FieldsBot::Token]),
            ..edit()
        },
    )
    .unwrap();
    assert!(r.analytics);
    assert_eq!(r.interactions_url, "https://hook");
    assert_eq!(r.token, "");
    let stored = db.fetch_bot(&bot.id).unwrap();
    assert_ne!(stored.token, bot.token);
    assert_eq!(stored.token.len(), 64);
    assert_eq!(Bot { token: String::new(), ..stored }, r);
}

fn prompt_data(name: &str) -> DataCreateBot {
    DataCreateBot {
        name: name.into(),
        welcome: Some("hello".into()),
        bot_type: Some(BotType::PromptBot),
        model: Some(BotModel {
            model_name: "custom-model".into(),
            prompts: PromptTemplate { system_prompt: "be kind".into(), role_requirements: "".into() },
            temperature_bits: 0.5f32.to_bits(),
        }),
    }
}

#[test]
fn create_bot_provisions_workspace() {
    let (mut db, owner) = store_with_owner("owner-1", "Owner");
    let bot = create_bot(&mut db, &owner, prompt_data("helper"), PERMISSIONS).unwrap();
    assert_eq!(bot.bot_type, Some(BotType::PromptBot));
    let server = db.fetch_server(bot.default_server.as_ref().unwrap()).unwrap();
    assert_eq!(server.channels.len(), 4);
    let channels = db.fetch_channels(&server.channels).unwrap();
    let invite = db.fetch_invite(bot.server_invite.as_ref().unwrap()).unwrap();
    assert_eq!(invite.channel, channels[0].id);
    assert_eq!(invite.creator, owner.id);
    assert!(channels.iter().all(|c| c.server == server.id));
    assert_eq!(db.fetch_bot(&bot.id).unwrap(), bot);

    let user = db.fetch_user(&bot.id).unwrap();
    let info = user.bot.unwrap();
    assert_eq!(info.owner_id, owner.id);
    assert_eq!(info.welcome, Some("hello".into()));
    let model = info.model.unwrap();
    assert_eq!(model.model_name, "gpt-3.5-turbo");
    assert_eq!(model.prompts.system_prompt, "be kind");
    assert_eq!(model.temperature_bits, 0.5f32.to_bits());
}

#[test]
fn create_custom_bot_records_no_model() {
    let (mut db, owner) = store_with_owner("owner-1", "Owner");
    let mut data = prompt_data("custom");
    data.bot_type = None;
    let bot = create_bot(&mut db, &owner, data, PERMISSIONS).unwrap();
    assert_eq!(bot.bot_type, Some(BotType::CustomBot));
    assert_eq!(db.fetch_user(&bot.id).unwrap().bot.unwrap().model, None);
}

#[test]
fn create_bot_rejects_bad_temperature() {
    let (mut db, owner) = store_with_owner("owner-1", "Owner");
    let mut data = prompt_data("hot");
    data.model.as_mut().unwrap().temperature_bits = 2.0f32.to_bits();
    assert_eq!(create_bot(&mut db, &owner, data, PERMISSIONS), Err(Error::ValidationFailed));
    assert_eq!(db.bots.len(), 0);
}

#[test]
fn delete_with_workspace_deprovisions() {
    let (mut db, owner) = store_with_owner("owner-1", "Owner");
    let bot = create_bot(&mut db, &owner, prompt_data("leaving"), PERMISSIONS).unwrap();
    let server_id = bot.default_server.clone().unwrap();
    assert!(db.fetch_member(&server_id, &bot.id));

    delete_bot(&mut db, &owner, &bot.id).unwrap();

    let user = db.fetch_user(&bot.id).unwrap();
    assert!(user.is_deleted());
    assert!(db.fetch_bot(&bot.id).is_err());
    let server = db.fetch_server(&server_id).unwrap();
    assert_eq!(server.name, "leaving的主页 (deleted)");
    assert!(server.name.contains("deleted"));
    assert!(!db.fetch_member(&server_id, &bot.id));
    assert!(db.fetch_member(&server_id, &owner.id));
    assert_eq!(db.fetch_channels(&server.channels).unwrap().len(), 4);
}

#[test]
fn delete_twice_is_safe() {
    let (mut db, owner) = store_with_owner("owner-1", "Owner");
    let bot = create_bot(&mut db, &owner, prompt_data("twice"), PERMISSIONS).unwrap();
    delete_bot(&mut db, &owner, &bot.id).unwrap();
    let server_name = db.fetch_server(bot.default_server.as_ref().unwrap()).unwrap().name;
    let users = db.users.clone();
    assert_eq!(delete_bot(&mut db, &owner, &bot.id), Err(Error::NotFound));
    assert_eq!(db.users, users);
    assert_eq!(db.fetch_server(bot.default_server.as_ref().unwrap()).unwrap().name, server_name);
}

#[test]
fn delete_without_workspace() {
    let (mut db, owner) = store_with_owner("owner-1", "Owner");
    let bot = Bot::create(&mut db, "plain".into(), &owner, None).unwrap();
    delete_bot(&mut db, &owner, &bot.id).unwrap();
    assert_eq!(db.fetch_user(&bot.id).unwrap().flags, 2);
    assert_eq!(db.get_number_of_bots_by_user(&owner.id), 0);
}

#[test]
fn delete_with_missing_server_is_internal_error() {
    let (mut db, owner) = store_with_owner("owner-1", "Owner");
    let mut bot = Bot::create(&mut db, "orphan".into(), &owner, None).unwrap();
    bot.default_server = Some("gone".into());
    assert_eq!(bot.delete(&mut db), Err(Error::InternalError));
    assert!(db.fetch_bot(&bot.id).is_err());
    assert!(db.fetch_user(&bot.id).unwrap().is_deleted());
}

#[test]
fn delete_with_missing_user_is_not_found() {
    let mut db = Database::new();
    let bot = Bot { id: "ghost".into(), ..Default::default() };
    assert_eq!(bot.delete(&mut db), Err(Error::NotFound));
}

#[test]
fn edit_response_withholds_token() {
    let (mut db, owner) = store_with_owner("owner-1", "Owner");
    let bot = Bot::create(&mut db, "secretive".into(), &owner, None).unwrap();
    let r = edit_bot(&mut db, &owner, &bot.id, edit()).unwrap();
    assert_eq!(r.token, "");
    assert_eq!(db.fetch_bot(&bot.id).unwrap().token, bot.token);
}

#[test]
fn public_bot_made_private_is_not_name_checked() {
    let (mut db, owner) = store_with_owner("owner-1", "Owner");
    let public = PartialBot { public: Some(true), ..Default::default() };
    Bot::create(&mut db, "shared".into(), &owner, Some(public.clone())).unwrap();
    let second = Bot::create(&mut db, "shared".into(), &owner, Some(public)).unwrap();
    let r = edit_bot(&mut db, &owner, &second.id, DataEditBot { public: Some(false), ..edit() }).unwrap();
    assert!(!r.public);
    assert!(!db.fetch_bot(&second.id).unwrap().public);
}

#[test]
fn second_delete_of_same_bot_changes_nothing() {
    let (mut db, owner) = store_with_owner("owner-1", "Owner");
    let bot = create_bot(&mut db, &owner, prompt_data("again"), PERMISSIONS).unwrap();
    bot.delete(&mut db).unwrap();
    let server_id = bot.default_server.clone().unwrap();
    let name = db.fetch_server(&server_id).unwrap().name;
    assert_eq!(bot.delete(&mut db), Err(Error::NotFound));
    assert_eq!(db.fetch_server(&server_id).unwrap().name, name);
    assert_eq!(name, "again的主页 (deleted)");
}

#[test]
fn delete_keeps_other_bots() {
    let (mut db, owner) = store_with_owner("owner-1", "Owner");
    let a = Bot::create(&mut db, "keep_me".into(), &owner, None).unwrap();
    let b = Bot::create(&mut db, "drop_me".into(), &owner, None).unwrap();
    delete_bot(&mut db, &owner, &b.id).unwrap();
    assert_eq!(db.get_number_of_bots_by_user(&owner.id), 1);
    assert_eq!(db.fetch_bot(&a.id).unwrap(), a);
}

fn ids(names: &[&str]) -> Vec<String> {
    names.iter().map(|s| s.to_string()).collect()
}

#[test]
fn provision_with_given_ids() {
    let (mut db, owner) = store_with_owner("owner-1", "Owner");
    let mut bot = Bot::create(&mut db, "given".into(), &owner, None).unwrap();
    let bot_user = db.fetch_user(&bot.id).unwrap();
    Bot::provision_with_ids(&mut db, &mut bot, &bot_user, &owner, 7, "srv".into(), ids(&["c1", "c2", "c3", "c4"]), "code".into()).unwrap();
    assert_eq!(bot.default_server, Some("srv".to_string()));
    assert_eq!(bot.server_invite, Some("code".to_string()));
    let server = db.fetch_server(&"srv".to_string()).unwrap();
    assert_eq!(server.channels, ids(&["c1", "c2", "c3", "c4"]));
    assert_eq!(db.fetch_invite(&"code".to_string()).unwrap().channel, "c1");
    assert_eq!(server.default_permissions, 7);
}

#[test]
fn provision_rejects_taken_or_repeated_ids() {
    let (mut db, owner) = store_with_owner("owner-1", "Owner");
    let mut bot = Bot::create(&mut db, "given".into(), &owner, None).unwrap();
    let bot_user = db.fetch_user(&bot.id).unwrap();
    let before = bot.clone();
    let r = Bot::provision_with_ids(&mut db, &mut bot, &bot_user, &owner, 0, "srv".into(), ids(&["c1", "c2"]), "code".into());
    assert_eq!(r, Err(Error::ValidationFailed));
    assert!(db.channels.is_empty());
    let r = Bot::provision_with_ids(&mut db, &mut bot, &bot_user, &owner, 0, "srv".into(), ids(&["c1", "c2", "c1", "c4"]), "code".into());
    assert_eq!(r, Err(Error::Conflict));
    assert_eq!(bot, before);
    let r = Bot::provision_with_ids(&mut db, &mut bot, &bot_user, &bot_user, 0, "srv2".into(), ids(&["d1", "d2", "d3", "d4"]), "code".into());
    assert_eq!(r, Err(Error::Conflict));
    assert!(bot.default_server.is_none());
}

#[test]
fn fresh_token_differs() {
    let old = "x".repeat(64);
    let t = bot_identity::identity::fresh_token(&old);
    assert_eq!(t.len(), 64);
    assert_ne!(t, old);
}

#[test]
fn create_rejects_workspace_options() {
    let (mut db, owner) = store_with_owner("owner-1", "Owner");
    let invite_only = PartialBot { server_invite: Some("code".into()), ..Default::default() };
    assert_eq!(
        Bot::create(&mut db, "no_workspace".into(), &owner, Some(invite_only)),
        Err(Error::ValidationFailed)
    );
    let server_only = PartialBot { default_server: Some("srv".into()), ..Default::default() };
    assert_eq!(
        Bot::create(&mut db, "no_workspace".into(), &owner, Some(server_only)),
        Err(Error::ValidationFailed)
    );
    assert!(db.bots.is_empty());
    let bot = Bot::create(&mut db, "no_workspace".into(), &owner, None).unwrap();
    assert!(bot.server_invite.is_none() && bot.default_server.is_none());
}
