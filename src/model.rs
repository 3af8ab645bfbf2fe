//! The records of a bot identity: the bot, its user, and what the user
//! records of the bot's owner and model, with the errors the operations
//! report.

use vstd::prelude::*;
use vstd::string::*;

verus! {

/// Errors surfaced by the bot operations.
#[derive(Clone, Copy, Debug, PartialEq, Eq, Structural)]
pub enum Error {
    /// Malformed input (name, URL or model settings out of bounds).
    ValidationFailed,
    /// The acting user is itself a bot.
    IsBot,
    /// The owner already holds the maximum number of bots.
    QuotaExceeded,
    /// Another public or discoverable bot already uses the requested name.
    DuplicatePublicBotName,
    /// The referenced record is absent, or is not the caller's.
    NotFound,
    /// A record with the same id already exists.
    Conflict,
    /// A later step of a multi-step operation failed after earlier steps were committed.
    InternalError,
}

/// True when the flag is false; used to skip default booleans on output.
pub fn if_false(t: &bool) -> (r: bool)
    ensures
        r == !*t,
{
    !*t
}

/// Flags that may be attributed to a bot.
#[derive(Clone, Copy, Debug, PartialEq, Eq, Structural)]
pub enum BotFlags {
    Verified,
    Official,
}

impl BotFlags {
    pub open spec fn spec_bit(self) -> i32 {
        match self {
            BotFlags::Verified => 1,
            BotFlags::Official => 2,
        }
    }

    /// The bit that stands for this flag in a bot's flag field.
    pub fn bit(&self) -> (r: i32)
        ensures
            r == self.spec_bit(),
    {
        match self {
            BotFlags::Verified => 1,
            BotFlags::Official => 2,
        }
    }
}

/// Fields of a bot that can be removed by an edit.
#[derive(Clone, Copy, Debug, PartialEq, Eq, Structural)]
pub enum FieldsBot {
    Token,
    InteractionsURL,
}

impl FieldsBot {
    /// The stored field that removing this field clears; the token has none,
    /// as its removal rotates it.
    pub fn as_path(&self) -> (r: Option<&'static str>)
        ensures
            *self == FieldsBot::Token ==> r is None,
            *self == FieldsBot::InteractionsURL ==> (r matches Some(p) && p@ == "interactions_url"@),
    {
        match self {
            FieldsBot::InteractionsURL => Some("interactions_url"),
            FieldsBot::Token => None,
        }
    }
}

/// Kind of bot: a custom bot served by its owner, or a prompt bot served by
/// the platform's model backend.
#[derive(Clone, Copy, Debug, PartialEq, Eq, Structural)]
pub enum BotType {
    CustomBot,
    PromptBot,
}

impl BotType {
    /// The wire name of the bot type.
    pub open spec fn spec_name(self) -> Seq<char> {
        match self {
            BotType::CustomBot => "custom_bot"@,
            BotType::PromptBot => "prompt_bot"@,
        }
    }

    pub fn as_str(&self) -> (r: &'static str)
        ensures
            r@ == self.spec_name(),
    {
        match self {
            BotType::CustomBot => "custom_bot",
            BotType::PromptBot => "prompt_bot",
        }
    }

    /// Parses a wire name; any other text is rejected.
    pub fn from_value(value: &str) -> (r: Result<BotType, Error>)
        ensures
            value@ == BotType::CustomBot.spec_name() ==> r == Ok::<BotType, Error>(BotType::CustomBot),
            value@ == BotType::PromptBot.spec_name() ==> r == Ok::<BotType, Error>(BotType::PromptBot),
            value@ != BotType::CustomBot.spec_name() && value@ != BotType::PromptBot.spec_name()
                ==> r == Err::<BotType, Error>(Error::ValidationFailed),
    {
        proof {
            reveal_strlit("custom_bot");
            reveal_strlit("prompt_bot");
            assert("custom_bot"@[0] != "prompt_bot"@[0]);
        }
        let v = String::from_str(value);
        let custom = String::from_str("custom_bot");
        let prompt = String::from_str("prompt_bot");
        if v == custom {
            Ok(BotType::CustomBot)
        } else if v == prompt {
            Ok(BotType::PromptBot)
        } else {
            Err(Error::ValidationFailed)
        }
    }
}

/// Copies an optional string.
pub fn copy_opt_string(o: &Option<String>) -> (r: Option<String>)
    ensures
        r == *o,
{
    match o {
        Some(s) => Some(s.clone()),
        None => None,
    }
}

/// Bit pattern of the binary32 value 1.0.
pub const ONE_BITS: u32 = 0x3F80_0000;

/// Bit pattern of the binary32 value -0.0.
pub const NEGATIVE_ZERO_BITS: u32 = 0x8000_0000;

/// A binary32 value, given by its bit pattern, lies in the closed range
/// [0, 1]. Non-negative binary32 values order as their bit patterns do, so
/// these are the patterns from +0.0 up to 1.0, and -0.0; NaN lies outside.
pub open spec fn temperature_in_range(bits: u32) -> bool {
    bits <= ONE_BITS || bits == NEGATIVE_ZERO_BITS
}

/// Prompt given to the model of a prompt bot.
#[derive(Clone, Debug, PartialEq, Eq)]
pub struct PromptTemplate {
    pub system_prompt: String,
    pub role_requirements: String,
}

impl PromptTemplate {
    pub fn empty() -> (r: PromptTemplate)
        ensures
            r.system_prompt@ == Seq::<char>::empty(),
            r.role_requirements@ == Seq::<char>::empty(),
    {
        PromptTemplate { system_prompt: String::new(), role_requirements: String::new() }
    }

    pub fn copy(&self) -> (r: PromptTemplate)
        ensures
            r == *self,
    {
        PromptTemplate {
            system_prompt: self.system_prompt.clone(),
            role_requirements: self.role_requirements.clone(),
        }
    }
}

/// Model settings of a prompt bot. The sampling temperature is a binary32
/// value held as its bit pattern.
#[derive(Clone, Debug, PartialEq, Eq)]
pub struct BotModel {
    pub model_name: String,
    pub prompts: PromptTemplate,
    pub temperature_bits: u32,
}

/// Name of the model that a prompt bot uses unless told otherwise.
pub open spec fn default_model_name() -> Seq<char> {
    "gpt-3.5-turbo"@
}

impl BotModel {
    /// The default model: the default model name, empty prompts, temperature 0.
    pub fn default_model() -> (r: BotModel)
        ensures
            r.model_name@ == default_model_name(),
            r.prompts.system_prompt@ == Seq::<char>::empty(),
            r.prompts.role_requirements@ == Seq::<char>::empty(),
            r.temperature_bits == 0,
    {
        BotModel {
            model_name: String::from_str("gpt-3.5-turbo"),
            prompts: PromptTemplate::empty(),
            temperature_bits: 0,
        }
    }

    pub open spec fn spec_valid(self) -> bool {
        temperature_in_range(self.temperature_bits)
    }

    /// Field validation: the temperature lies in [0, 1].
    pub fn validate(&self) -> (r: Result<(), Error>)
        ensures
            r is Ok <==> self.spec_valid(),
            r is Err ==> r == Err::<(), Error>(Error::ValidationFailed),
    {
        if self.temperature_bits <= ONE_BITS || self.temperature_bits == NEGATIVE_ZERO_BITS {
            Ok(())
        } else {
            Err(Error::ValidationFailed)
        }
    }

    pub fn copy(&self) -> (r: BotModel)
        ensures
            r == *self,
    {
        BotModel {
            model_name: self.model_name.clone(),
            prompts: self.prompts.copy(),
            temperature_bits: self.temperature_bits,
        }
    }
}

impl Default for BotModel {
    fn default() -> (r: BotModel)
        ensures
            r.model_name@ == default_model_name(),
            r.prompts.system_prompt@ == Seq::<char>::empty(),
            r.prompts.role_requirements@ == Seq::<char>::empty(),
            r.temperature_bits == 0,
    {
        BotModel::default_model()
    }
}

/// What a bot user records of its bot-ness: its owner, and for a prompt bot
/// the model settings and welcome message.
#[derive(Clone, Debug, PartialEq, Eq)]
pub struct BotInformation {
    pub owner_id: String,
    pub model: Option<BotModel>,
    pub welcome: Option<String>,
}

impl BotInformation {
    pub open spec fn spec_valid(self) -> bool {
        self.model matches Some(m) ==> m.spec_valid()
    }

    /// Field validation: the model settings, where present, are valid.
    pub fn validate(&self) -> (r: Result<(), Error>)
        ensures
            r is Ok <==> self.spec_valid(),
            r is Err ==> r == Err::<(), Error>(Error::ValidationFailed),
    {
        match &self.model {
            Some(m) => m.validate(),
            None => Ok(()),
        }
    }

    pub fn copy(&self) -> (r: BotInformation)
        ensures
            r == *self,
    {
        BotInformation {
            owner_id: self.owner_id.clone(),
            model: match &self.model {
                Some(m) => Some(m.copy()),
                None => None,
            },
            welcome: copy_opt_string(&self.welcome),
        }
    }
}

/// The value an optional update gives a field: the new value where one is
/// given, else the current one.
pub open spec fn pick<T>(update: Option<T>, current: T) -> T {
    match update {
        Some(v) => v,
        None => current,
    }
}

/// Replaces the slot's value where an update is given.
pub fn set_from<T>(slot: &mut T, update: Option<T>)
    ensures
        *final(slot) == pick(update, *old(slot)),
{
    if let Some(v) = update {
        *slot = v;
    }
}

/// Replaces an optional slot's value where an update is given.
pub fn set_some_from<T>(slot: &mut Option<T>, update: Option<T>)
    ensures
        *final(slot) == (match update {
            Some(v) => Some(v),
            None => *old(slot),
        }),
{
    if let Some(v) = update {
        *slot = Some(v);
    }
}

/// User flag set once the account is deleted.
pub const USER_FLAG_DELETED: u32 = 2;

/// Setting the deleted flag leaves it set.
pub proof fn lemma_deleted_flag_set(flags: u32)
    ensures
        (flags | USER_FLAG_DELETED) & USER_FLAG_DELETED != 0,
{
    assert((flags | 2) & 2 != 0) by (bit_vector);
}

/// A user record. A bot's user record carries bot information.
#[derive(Clone, Debug, PartialEq, Eq)]
pub struct User {
    pub id: String,
    pub username: String,
    /// Bitfield of user flags.
    pub flags: u32,
    /// Present exactly when this user is a bot identity.
    pub bot: Option<BotInformation>,
}

impl User {
    /// A user with no flags set.
    pub fn new(id: String, username: String, bot: Option<BotInformation>) -> (r: User)
        ensures
            r == User::new_spec(id, username, bot),
    {
        User { id, username, flags: 0, bot }
    }

    pub open spec fn new_spec(id: String, username: String, bot: Option<BotInformation>) -> User {
        User { id, username, flags: 0, bot }
    }

    pub open spec fn spec_is_deleted(self) -> bool {
        self.flags & USER_FLAG_DELETED != 0
    }

    /// Whether the account has been marked deleted.
    pub fn is_deleted(&self) -> (r: bool)
        ensures
            r == self.spec_is_deleted(),
    {
        self.flags & USER_FLAG_DELETED != 0
    }

    pub fn copy(&self) -> (r: User)
        ensures
            r == *self,
    {
        User {
            id: self.id.clone(),
            username: self.username.clone(),
            flags: self.flags,
            bot: match &self.bot {
                Some(b) => Some(b.copy()),
                None => None,
            },
        }
    }
}

/// The bot record. Its id equals the id of the paired bot user.
#[derive(Clone, Debug, PartialEq, Eq)]
pub struct Bot {
    pub id: String,
    /// User id of the owner.
    pub owner: String,
    /// Secret used to authenticate requests made as this bot.
    pub token: String,
    /// Whether anyone may add the bot.
    pub public: bool,
    pub bot_type: Option<BotType>,
    pub analytics: bool,
    /// Whether the bot is listed in the public directory.
    pub discoverable: bool,
    pub interactions_url: String,
    pub terms_of_service_url: String,
    pub privacy_policy_url: String,
    /// Bitfield of bot flags.
    pub flags: Option<i32>,
    /// Invite code of the bot's default server.
    pub server_invite: Option<String>,
    /// Id of the bot's default server.
    pub default_server: Option<String>,
}

/// A sparse set of bot fields: each given field replaces the bot's own.
#[derive(Clone, Debug, PartialEq, Eq)]
pub struct PartialBot {
    pub id: Option<String>,
    pub owner: Option<String>,
    pub token: Option<String>,
    pub public: Option<bool>,
    pub bot_type: Option<BotType>,
    pub analytics: Option<bool>,
    pub discoverable: Option<bool>,
    pub interactions_url: Option<String>,
    pub terms_of_service_url: Option<String>,
    pub privacy_policy_url: Option<String>,
    pub flags: Option<i32>,
    pub server_invite: Option<String>,
    pub default_server: Option<String>,
}

impl PartialBot {
    pub open spec fn spec_empty() -> PartialBot {
        PartialBot {
            id: None,
            owner: None,
            token: None,
            public: None,
            bot_type: None,
            analytics: None,
            discoverable: None,
            interactions_url: None,
            terms_of_service_url: None,
            privacy_policy_url: None,
            flags: None,
            server_invite: None,
            default_server: None,
        }
    }
}

/// The optional string's contents.
pub open spec fn opt_view(o: Option<String>) -> Option<Seq<char>> {
    match o {
        Some(s) => Some(s@),
        None => None,
    }
}

/// A bot as the contracts see it: strings by their characters.
pub struct BotView {
    pub id: Seq<char>,
    pub owner: Seq<char>,
    pub token: Seq<char>,
    pub public: bool,
    pub bot_type: Option<BotType>,
    pub analytics: bool,
    pub discoverable: bool,
    pub interactions_url: Seq<char>,
    pub terms_of_service_url: Seq<char>,
    pub privacy_policy_url: Seq<char>,
    pub flags: Option<i32>,
    pub server_invite: Option<Seq<char>>,
    pub default_server: Option<Seq<char>>,
}

/// A sparse set of bot fields as the contracts see it.
pub struct PartialBotView {
    pub id: Option<Seq<char>>,
    pub owner: Option<Seq<char>>,
    pub token: Option<Seq<char>>,
    pub public: Option<bool>,
    pub bot_type: Option<BotType>,
    pub analytics: Option<bool>,
    pub discoverable: Option<bool>,
    pub interactions_url: Option<Seq<char>>,
    pub terms_of_service_url: Option<Seq<char>>,
    pub privacy_policy_url: Option<Seq<char>>,
    pub flags: Option<i32>,
    pub server_invite: Option<Seq<char>>,
    pub default_server: Option<Seq<char>>,
}

impl View for Bot {
    type V = BotView;

    open spec fn view(&self) -> BotView {
        BotView {
            id: self.id@,
            owner: self.owner@,
            token: self.token@,
            public: self.public,
            bot_type: self.bot_type,
            analytics: self.analytics,
            discoverable: self.discoverable,
            interactions_url: self.interactions_url@,
            terms_of_service_url: self.terms_of_service_url@,
            privacy_policy_url: self.privacy_policy_url@,
            flags: self.flags,
            server_invite: opt_view(self.server_invite),
            default_server: opt_view(self.default_server),
        }
    }
}

impl View for PartialBot {
    type V = PartialBotView;

    open spec fn view(&self) -> PartialBotView {
        PartialBotView {
            id: opt_view(self.id),
            owner: opt_view(self.owner),
            token: opt_view(self.token),
            public: self.public,
            bot_type: self.bot_type,
            analytics: self.analytics,
            discoverable: self.discoverable,
            interactions_url: opt_view(self.interactions_url),
            terms_of_service_url: opt_view(self.terms_of_service_url),
            privacy_policy_url: opt_view(self.privacy_policy_url),
            flags: self.flags,
            server_invite: opt_view(self.server_invite),
            default_server: opt_view(self.default_server),
        }
    }
}

/// The optional value where one is given, else the current optional value.
pub open spec fn pick_opt<T>(update: Option<T>, current: Option<T>) -> Option<T> {
    match update {
        Some(v) => Some(v),
        None => current,
    }
}

impl BotView {
    /// The bot after the given fields replaced its own.
    pub open spec fn applied(self, p: PartialBotView) -> BotView {
        BotView {
            id: pick(p.id, self.id),
            owner: pick(p.owner, self.owner),
            token: pick(p.token, self.token),
            public: pick(p.public, self.public),
            bot_type: pick_opt(p.bot_type, self.bot_type),
            analytics: pick(p.analytics, self.analytics),
            discoverable: pick(p.discoverable, self.discoverable),
            interactions_url: pick(p.interactions_url, self.interactions_url),
            terms_of_service_url: pick(p.terms_of_service_url, self.terms_of_service_url),
            privacy_policy_url: pick(p.privacy_policy_url, self.privacy_policy_url),
            flags: pick_opt(p.flags, self.flags),
            server_invite: pick_opt(p.server_invite, self.server_invite),
            default_server: pick_opt(p.default_server, self.default_server),
        }
    }

    /// The bot after the store cleared the removed fields. The token has no
    /// stored form to clear: its removal is a rotation, given as a new value.
    pub open spec fn cleared(self, remove: Seq<FieldsBot>) -> BotView {
        if remove.contains(FieldsBot::InteractionsURL) {
            BotView { interactions_url: Seq::empty(), ..self }
        } else {
            self
        }
    }
}

impl PartialBot {
    pub fn copy(&self) -> (r: PartialBot)
        ensures
            r == *self,
    {
        PartialBot {
            id: copy_opt_string(&self.id),
            owner: copy_opt_string(&self.owner),
            token: copy_opt_string(&self.token),
            public: self.public,
            bot_type: self.bot_type,
            analytics: self.analytics,
            discoverable: self.discoverable,
            interactions_url: copy_opt_string(&self.interactions_url),
            terms_of_service_url: copy_opt_string(&self.terms_of_service_url),
            privacy_policy_url: copy_opt_string(&self.privacy_policy_url),
            flags: self.flags,
            server_invite: copy_opt_string(&self.server_invite),
            default_server: copy_opt_string(&self.default_server),
        }
    }
}

/// Whether the list names the field.
pub fn contains_field(fields: &Vec<FieldsBot>, field: FieldsBot) -> (r: bool)
    ensures
        r == fields@.contains(field),
{
    let mut i: usize = 0;
    while i < fields.len()
        invariant
            i <= fields@.len(),
            forall|j: int| 0 <= j < i ==> fields@[j] != field,
        decreases fields@.len() - i,
    {
        if fields[i] == field {
            return true;
        }
        i = i + 1;
    }
    false
}

impl Default for PartialBot {
    fn default() -> (r: PartialBot)
        ensures
            r == PartialBot::spec_empty(),
    {
        PartialBot {
            id: None,
            owner: None,
            token: None,
            public: None,
            bot_type: None,
            analytics: None,
            discoverable: None,
            interactions_url: None,
            terms_of_service_url: None,
            privacy_policy_url: None,
            flags: None,
            server_invite: None,
            default_server: None,
        }
    }
}

impl Default for Bot {
    fn default() -> (r: Bot)
        ensures
            r.spec_is_blank(),
    {
        Bot {
            id: String::new(),
            owner: String::new(),
            token: String::new(),
            public: false,
            bot_type: None,
            analytics: false,
            discoverable: false,
            interactions_url: String::new(),
            terms_of_service_url: String::new(),
            privacy_policy_url: String::new(),
            flags: None,
            server_invite: None,
            default_server: None,
        }
    }
}

impl Bot {
    /// Every field is empty, false or absent.
    pub open spec fn spec_is_blank(self) -> bool {
        &&& self.id@ == Seq::<char>::empty()
        &&& self.owner@ == Seq::<char>::empty()
        &&& self.token@ == Seq::<char>::empty()
        &&& !self.public
        &&& self.bot_type is None
        &&& !self.analytics
        &&& !self.discoverable
        &&& self.interactions_url@ == Seq::<char>::empty()
        &&& self.terms_of_service_url@ == Seq::<char>::empty()
        &&& self.privacy_policy_url@ == Seq::<char>::empty()
        &&& self.flags is None
        &&& self.server_invite is None
        &&& self.default_server is None
    }

    /// Whether the bot's name must be unique among listed bots.
    pub open spec fn spec_visible(self) -> bool {
        self.public || self.discoverable
    }

    /// Merges the given fields into this bot.
    pub fn apply_options(&mut self, partial: PartialBot)
        ensures
            final(self)@ == old(self)@.applied(partial@),
            partial.server_invite is Some ==> final(self).server_invite == partial.server_invite,
            partial.default_server is Some ==> final(self).default_server == partial.default_server,
    {
        let PartialBot {
            id,
            owner,
            token,
            public,
            bot_type,
            analytics,
            discoverable,
            interactions_url,
            terms_of_service_url,
            privacy_policy_url,
            flags,
            server_invite,
            default_server,
        } = partial;
        set_from(&mut self.id, id);
        set_from(&mut self.owner, owner);
        set_from(&mut self.token, token);
        set_from(&mut self.public, public);
        set_some_from(&mut self.bot_type, bot_type);
        set_from(&mut self.analytics, analytics);
        set_from(&mut self.discoverable, discoverable);
        set_from(&mut self.interactions_url, interactions_url);
        set_from(&mut self.terms_of_service_url, terms_of_service_url);
        set_from(&mut self.privacy_policy_url, privacy_policy_url);
        set_some_from(&mut self.flags, flags);
        set_some_from(&mut self.server_invite, server_invite);
        set_some_from(&mut self.default_server, default_server);
    }

    pub fn copy(&self) -> (r: Bot)
        ensures
            r == *self,
    {
        Bot {
            id: self.id.clone(),
            owner: self.owner.clone(),
            token: self.token.clone(),
            public: self.public,
            bot_type: self.bot_type,
            analytics: self.analytics,
            discoverable: self.discoverable,
            interactions_url: self.interactions_url.clone(),
            terms_of_service_url: self.terms_of_service_url.clone(),
            privacy_policy_url: self.privacy_policy_url.clone(),
            flags: self.flags,
            server_invite: copy_opt_string(&self.server_invite),
            default_server: copy_opt_string(&self.default_server),
        }
    }
}

} // verus!
