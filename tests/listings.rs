use bot_identity::{
    create_bot, fetch_discoverable_bots, prompt_bot_request, search_bots, Bot, BotModel, BotType,
    CheckRelationship, DataCreateBot, Database, Error, Member, ParamSearchBot, PartialBot,
    PromptTemplate, Relationship, RelationshipStatus, User,
};

fn store_with_owner() -> (Database, User) {
    let mut db = Database::new();
    let owner = User::new("owner-1".into(), "Owner".into(), None);
    db.insert_user(owner.clone()).unwrap();
    (db, owner)
}

#[test]
fn discover_lists_public_and_discoverable_bots_with_users() {
    let (mut db, owner) = store_with_owner();
    let public = Bot::create(&mut db, "public_one".into(), &owner, Some(PartialBot { public: Some(true), ..Default::default() })).unwrap();
    Bot::create(&mut db, "private_one".into(), &owner, None).unwrap();
    let listed = Bot::create(&mut db, "listed_one".into(), &owner, Some(PartialBot { discoverable: Some(true), ..Default::default() })).unwrap();
    let r = fetch_discoverable_bots(&db);
    assert_eq!(r.bots, vec![public.clone(), listed.clone()]);
    let names: Vec<&str> = r.users.iter().map(|u| u.username.as_str()).collect();
    assert_eq!(names, vec!["public_one", "listed_one"]);
}

#[test]
fn search_by_type() {
    let (mut db, owner) = store_with_owner();
    let prompt = Bot::create(&mut db, "prompted".into(), &owner, Some(PartialBot { bot_type: Some(BotType::PromptBot), ..Default::default() })).unwrap();
    Bot::create(&mut db, "custom".into(), &owner, Some(PartialBot { bot_type: Some(BotType::CustomBot), ..Default::default() })).unwrap();
    let r = search_bots(&db, ParamSearchBot { bot_type: Some("prompt_bot".into()) });
    assert_eq!(r.bots, vec![prompt.clone()]);
    assert_eq!(r.users[0].id, prompt.id);
    assert!(search_bots(&db, ParamSearchBot { bot_type: Some("other".into()) }).bots.is_empty());
    assert!(search_bots(&db, ParamSearchBot { bot_type: None }).users.is_empty());
}

#[test]
fn relationship_lookup() {
    let entries = vec![
        Relationship { user_id: "a".into(), status: RelationshipStatus::Friend },
        Relationship { user_id: "b".into(), status: RelationshipStatus::Blocked },
        Relationship { user_id: "a".into(), status: RelationshipStatus::Outgoing },
    ];
    assert_eq!(entries.with("a"), RelationshipStatus::Friend);
    assert_eq!(entries.with("b"), RelationshipStatus::Blocked);
    assert_eq!(entries.with("c"), RelationshipStatus::NoRelationship);
    assert_eq!(Vec::<Relationship>::new().with("a"), RelationshipStatus::NoRelationship);
}

#[test]
fn prompt_bot_notification() {
    let (mut db, owner) = store_with_owner();
    let data = DataCreateBot {
        name: "helper".into(),
        welcome: None,
        bot_type: Some(BotType::PromptBot),
        model: Some(BotModel {
            model_name: "ignored".into(),
            prompts: PromptTemplate { system_prompt: "sys".into(), role_requirements: "".into() },
            temperature_bits: 0.4f32.to_bits(),
        }),
    };
    let bot = create_bot(&mut db, &owner, data, 0).unwrap();
    let bot_user = db.fetch_user(&bot.id).unwrap();
    let host = "http://backend".to_string();
    let req = prompt_bot_request(&bot, &bot_user, &owner, &host).unwrap();
    assert_eq!(req.url, "http://backend/api/rest/v1/bot/create");
    assert_eq!(req.user_id, owner.id);
    assert_eq!(req.user_name, "Owner");
    assert_eq!(req.bot_id, bot.id);
    assert_eq!(req.bot_name, "helper");
    assert_eq!(req.bot_token, bot.token);
    assert_eq!(req.model_name, "gpt-3.5-turbo");
    assert_eq!(req.prompt_template, "sys");
    assert_eq!(req.temperature_bits, 0.4f32.to_bits());
    assert!(prompt_bot_request(&bot, &bot_user, &owner, &String::new()).is_none());

    let custom = Bot::create(&mut db, "plain".into(), &owner, None).unwrap();
    let custom_user = db.fetch_user(&custom.id).unwrap();
    assert!(prompt_bot_request(&custom, &custom_user, &owner, &host).is_none());
}

#[test]
fn store_inserts_reject_duplicates() {
    let (mut db, owner) = store_with_owner();
    assert_eq!(db.insert_user(owner.clone()), Err(Error::Conflict));
    let orphan = Bot { id: "no-user".into(), ..Default::default() };
    assert_eq!(db.insert_bot(orphan), Err(Error::NotFound));
    let m = Member { server: "s".into(), user: "u".into() };
    assert!(db.insert_member(m.clone()).is_ok());
    assert_eq!(db.insert_member(m), Err(Error::Conflict));
    assert!(db.delete_member(&"s".to_string(), &"u".to_string()).is_ok());
    assert!(!db.fetch_member(&"s".to_string(), &"u".to_string()));
    assert_eq!(db.rename_server(&"none".to_string(), "x".into()), Err(Error::NotFound));
    assert_eq!(db.mark_user_deleted(&"none".to_string()), Err(Error::NotFound));
}

#[test]
fn well_formedness_check() {
    let (mut db, owner) = store_with_owner();
    create_bot(
        &mut db,
        &owner,
        DataCreateBot { name: "wf_bot".into(), welcome: None, bot_type: None, model: None },
        0,
    )
    .unwrap();
    assert!(db.is_well_formed());
    let mut broken = Database::new();
    broken.users.push(owner.clone());
    broken.users.push(owner);
    assert!(!broken.is_well_formed());
    let mut unpaired = Database::new();
    unpaired.bots.push(Bot { id: "lonely".into(), ..Default::default() });
    assert!(!unpaired.is_well_formed());
}
