//! The notification sent to the model backend once a prompt bot exists. The
//! library decides whether one is due and what it carries; sending it is the
//! caller's business, and its outcome never reaches the bot's creator.

use vstd::prelude::*;
use vstd::string::*;
use crate::model::{Bot, BotType, User};

verus! {

/// Path, under the backend's host, that registers a prompt bot.
pub const PROMPT_BOT_CREATE_PATH: &'static str = "/api/rest/v1/bot/create";

/// What the model backend is told of a new prompt bot.
#[derive(Clone, Debug, PartialEq, Eq)]
pub struct CreatePromptBotReq {
    /// Where to send it.
    pub url: String,
    pub user_id: String,
    pub user_name: String,
    pub bot_id: String,
    pub bot_name: String,
    pub bot_token: String,
    pub model_name: String,
    pub prompt_template: String,
    /// Sampling temperature, as a binary32 bit pattern.
    pub temperature_bits: u32,
}

/// The notification for a new bot, where one is due: the bot is a prompt bot
/// with model settings on its user, and a backend host is configured.
pub fn prompt_bot_request(bot: &Bot, bot_user: &User, bot_owner: &User, host: &String) -> (r:
    Option<CreatePromptBotReq>)
    ensures
        r is Some <==> bot.bot_type == Some(BotType::PromptBot) && host@.len() > 0 && (
        bot_user.bot matches Some(bi) && bi.model is Some),
        r matches Some(q) ==> {
            let m = bot_user.bot.unwrap().model.unwrap();
            &&& q.url@ == host@ + PROMPT_BOT_CREATE_PATH@
            &&& q.user_id == bot_owner.id
            &&& q.user_name == bot_owner.username
            &&& q.bot_id == bot.id
            &&& q.bot_name == bot_user.username
            &&& q.bot_token == bot.token
            &&& q.model_name == m.model_name
            &&& q.prompt_template == m.prompts.system_prompt
            &&& q.temperature_bits == m.temperature_bits
        },
{
    let prompt = match bot.bot_type {
        Some(BotType::PromptBot) => true,
        _ => false,
    };
    if !prompt || host.as_str().unicode_len() == 0 {
        return None;
    }
    let model = match &bot_user.bot {
        Some(bi) => match &bi.model {
            Some(m) => m,
            None => {
                return None;
            },
        },
        None => {
            return None;
        },
    };
    let mut url = host.clone();
    url.append(PROMPT_BOT_CREATE_PATH);
    Some(
        CreatePromptBotReq {
            url,
            user_id: bot_owner.id.clone(),
            user_name: bot_owner.username.clone(),
            bot_id: bot.id.clone(),
            bot_name: bot_user.username.clone(),
            bot_token: bot.token.clone(),
            model_name: model.model_name.clone(),
            prompt_template: model.prompts.system_prompt.clone(),
            temperature_bits: model.temperature_bits,
        },
    )
}

} // verus!
