//! Bot identities of a chat platform: a bot is a user record paired with a
//! bot record under one id. This library keeps both records consistent when a
//! bot is created, edited or deleted, provisions the bot's default workspace
//! (server, channels, invite and memberships), and enforces the per-owner quota
//! and the uniqueness of public bot names, all over an in-memory store.

pub mod directory;
pub mod external;
pub mod identity;
pub mod laws;
pub mod model;
pub mod notify;
pub mod operations;
pub mod relations;
pub mod store;
pub mod validation;
pub mod workspace;

pub use directory::{fetch_discoverable_bots, search_bots, OwnedBotsResponse, ParamSearchBot};
pub use identity::{MAX_BOT_COUNT, TOKEN_LEN};
pub use model::{
    if_false, Bot, BotFlags, BotInformation, BotModel, BotType, Error, FieldsBot, PartialBot,
    PromptTemplate, User,
};
pub use notify::{prompt_bot_request, CreatePromptBotReq};
pub use operations::{create_bot, delete_bot, edit_bot, DataEditBot};
pub use relations::{CheckRelationship, Relationship, RelationshipStatus};
pub use store::{Channel, Database, Invite, Member, Server};
pub use validation::{DataCreateBot, UserProfileData};
pub use workspace::DEFAULT_CHANNEL_COUNT;
