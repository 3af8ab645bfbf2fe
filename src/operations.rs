//! What the platform's bot endpoints decide: who may create, edit or delete a
//! bot, the public-name uniqueness guard, and the order of the steps.

use vstd::prelude::*;
use vstd::string::*;
use crate::external::is_url_safe;
use crate::identity::{rotated, MAX_BOT_COUNT, TOKEN_LEN};
use crate::store::lemma_pushed_is_found;
use crate::model::{
    copy_opt_string, default_model_name, opt_view, Bot, BotInformation, BotModel, BotType, Error,
    pick, BotView, FieldsBot, PartialBot, PartialBotView, User,
};
use crate::validation::DataCreateBot;
use crate::workspace::{default_channel_names, home_suffix, DEFAULT_CHANNEL_COUNT};
use crate::store::Database;
use crate::validation::{valid_username, validate_username};

verus! {

/// Some public or discoverable bot other than `excluding` has a bot user
/// named `name`.
pub open spec fn name_taken(db: Database, name: Seq<char>, excluding: Seq<char>) -> bool {
    exists|i: int, j: int|
        0 <= i < db.bots@.len() && 0 <= j < db.users@.len() && (#[trigger] db.bots@[i]).spec_visible()
            && (#[trigger] db.users@[j]).id@ == db.bots@[i].id@ && db.users@[j].id@ != excluding
            && db.users@[j].username@ == name
}

/// The uniqueness guard: fails with `DuplicatePublicBotName` where another
/// public or discoverable bot's user has exactly this name.
pub fn check_public_name(db: &Database, name: &String, excluding: &String) -> (r: Result<(), Error>)
    ensures
        r is Err <==> name_taken(*db, name@, excluding@),
        r is Err ==> r == Err::<(), Error>(Error::DuplicatePublicBotName),
{
    let mut i: usize = 0;
    while i < db.bots.len()
        invariant
            i <= db.bots@.len(),
            forall|a: int, j: int|
                0 <= a < i && 0 <= j < db.users@.len() ==> !((#[trigger] db.bots@[a]).spec_visible()
                    && (#[trigger] db.users@[j]).id@ == db.bots@[a].id@ && db.users@[j].id@
                    != excluding@ && db.users@[j].username@ == name@),
        decreases db.bots@.len() - i,
    {
        if db.bots[i].public || db.bots[i].discoverable {
            let mut j: usize = 0;
            while j < db.users.len()
                invariant
                    i < db.bots@.len(),
                    j <= db.users@.len(),
                    db.bots@[i as int].spec_visible(),
                    forall|b: int|
                        0 <= b < j ==> !((#[trigger] db.users@[b]).id@ == db.bots@[i as int].id@
                            && db.users@[b].id@ != excluding@ && db.users@[b].username@ == name@),
                decreases db.users@.len() - j,
            {
                if db.users[j].id == db.bots[i].id && db.users[j].id != *excluding
                    && db.users[j].username == *name {
                    return Err(Error::DuplicatePublicBotName);
                }
                j = j + 1;
            }
        }
        i = i + 1;
    }
    Ok(())
}

/// Longest allowed interactions URL, in characters.
pub const INTERACTIONS_URL_MAX_LEN: usize = 2048;

/// What a bot's owner supplies to edit it.
#[derive(Clone, Debug, PartialEq, Eq)]
pub struct DataEditBot {
    /// New username of the bot.
    pub name: Option<String>,
    /// Whether anyone may add the bot.
    pub public: Option<bool>,
    pub analytics: Option<bool>,
    pub interactions_url: Option<String>,
    /// Fields to remove from the bot.
    pub remove: Option<Vec<FieldsBot>>,
}

impl DataEditBot {
    pub open spec fn spec_valid(self) -> bool {
        &&& (self.name matches Some(n) ==> valid_username(n@))
        &&& (self.interactions_url matches Some(u) ==> 1 <= u@.len() <= INTERACTIONS_URL_MAX_LEN)
        &&& (self.remove matches Some(v) ==> v@.len() >= 1)
    }

    /// Checks the name, the URL's length, and that a removal list is not empty.
    pub fn validate(&self) -> (r: Result<(), Error>)
        ensures
            r is Ok <==> self.spec_valid(),
            r is Err ==> r == Err::<(), Error>(Error::ValidationFailed),
    {
        if let Some(n) = &self.name {
            validate_username(n)?;
        }
        if let Some(u) = &self.interactions_url {
            let len = u.as_str().unicode_len();
            if len < 1 || len > INTERACTIONS_URL_MAX_LEN {
                return Err(Error::ValidationFailed);
            }
        }
        if let Some(v) = &self.remove {
            if v.len() < 1 {
                return Err(Error::ValidationFailed);
            }
        }
        Ok(())
    }

    /// The bot fields this edit writes.
    pub open spec fn partial_view(self) -> PartialBotView {
        PartialBotView {
            public: self.public,
            analytics: self.analytics,
            interactions_url: opt_view(self.interactions_url),
            ..PartialBot::spec_empty()@
        }
    }

    /// The fields this edit removes.
    pub open spec fn removed(self) -> Seq<FieldsBot> {
        match self.remove {
            Some(v) => v@,
            None => Seq::empty(),
        }
    }

    /// Whether the bot is public or discoverable after the edit.
    pub open spec fn guarded(self, bot: Bot) -> bool {
        pick(self.public, bot.public) || bot.discoverable
    }

    /// The name the bot will carry after the edit.
    pub open spec fn candidate_name(self, current: Seq<char>) -> Seq<char> {
        match self.name {
            Some(n) => n@,
            None => current,
        }
    }
}

/// Edits a bot on behalf of `user`. Fails, changing nothing, with
/// `ValidationFailed` on invalid data; else with `NotFound` where the bot is
/// absent or not the user's; else with `DuplicatePublicBotName` where the bot
/// will be public or discoverable after the edit and another such bot's user
/// already has the name the bot will carry. Otherwise the bot user is renamed where a
/// name is given, and the bot is updated; the bot is returned as it is now
/// stored, but with its token withheld (empty).
pub fn edit_bot(db: &mut Database, user: &User, target: &String, data: DataEditBot) -> (r: Result<
    Bot,
    Error,
>)
    requires
        old(db).wf(),
    ensures
        final(db).wf(),
        r is Err ==> *final(db) == *old(db),
        !data.spec_valid() ==> r == Err::<Bot, Error>(Error::ValidationFailed),
        data.spec_valid() && (!old(db).has_bot(target@) || old(db).bot(target@).owner@ != user.id@)
            ==> r == Err::<Bot, Error>(Error::NotFound),
        data.spec_valid() && old(db).has_bot(target@) && old(db).bot(target@).owner@ == user.id@
            ==> {
            let b0 = old(db).bot(target@);
            let taken = data.guarded(b0) && name_taken(
                *old(db),
                data.candidate_name(old(db).user(target@).username@),
                target@,
            );
            &&& taken ==> r == Err::<Bot, Error>(Error::DuplicatePublicBotName)
            &&& !taken ==> r is Ok
        },
        r matches Ok(b) ==> {
            let b0 = old(db).bot(target@);
            let stored = final(db).bot(target@);
            &&& b.id@ == target@
            &&& b.token@.len() == 0
            &&& final(db).has_bot(target@)
            &&& stored@ == b0@.cleared(data.removed()).applied(
                rotated(data.partial_view(), data.removed(), stored.token@),
            )
            &&& b@ == (BotView { token: Seq::empty(), ..stored@ })
            &&& data.removed().contains(FieldsBot::Token) ==> stored.token@.len() == TOKEN_LEN
                && is_url_safe(stored.token@) && stored.token@ != b0.token@
            &&& final(db).has_user(target@)
            &&& final(db).user(target@).username@ == data.candidate_name(
                old(db).user(target@).username@,
            )
        },
{
    data.validate()?;
    let mut bot = db.fetch_bot(target)?;
    if bot.owner != user.id {
        return Err(Error::NotFound);
    }
    proof {
        let k = choose|k: int|
            0 <= k < db.bots@.len() && (#[trigger] db.bots@[k]).id@ == target@;
        assert(db.has_user(db.bots@[k].id@));
    }
    let bot_user = db.fetch_user(&bot.id)?;
    let public_after = match data.public {
        Some(p) => p,
        None => bot.public,
    };
    if public_after || bot.discoverable {
        let bot_name = match &data.name {
            Some(n) => n.clone(),
            None => bot_user.username.clone(),
        };
        check_public_name(db, &bot_name, &bot_user.id)?;
    }
    let unchanged = data.public.is_none() && data.analytics.is_none()
        && data.interactions_url.is_none() && data.remove.is_none();
    let ghost d = data;
    let DataEditBot { name, public, analytics, interactions_url, remove } = data;
    if let Some(n) = name {
        db.set_username(&bot.id, n)?;
    }
    let ghost renamed = *db;
    if unchanged {
        proof {
            assert(d.removed() =~= Seq::<FieldsBot>::empty());
            assert(!d.removed().contains(FieldsBot::Token));
            assert(!d.removed().contains(FieldsBot::InteractionsURL));
            assert(bot@ == bot@.cleared(d.removed()).applied(
                rotated(d.partial_view(), d.removed(), bot.token@),
            ));
            assert(renamed.bots == old(db).bots);
        }
        bot.token = String::new();
        return Ok(bot);
    }
    let partial = PartialBot {
        id: None,
        owner: None,
        token: None,
        public,
        bot_type: None,
        analytics,
        discoverable: None,
        interactions_url,
        terms_of_service_url: None,
        privacy_policy_url: None,
        flags: None,
        server_invite: None,
        default_server: None,
    };
    let remove = match remove {
        Some(v) => v,
        None => Vec::new(),
    };
    proof {
        assert(remove@ == d.removed());
        assert(partial@ == d.partial_view());
        assert(renamed.bots == old(db).bots);
    }
    bot.update(db, partial, remove)?;
    bot.token = String::new();
    Ok(bot)
}

/// Deletes a bot on behalf of `user`. Fails with `NotFound`, changing
/// nothing, where the bot is absent or not the user's; so a second deletion
/// of the same bot finds nothing and changes nothing. Otherwise the bot user
/// is marked deleted, the bot record is gone, and the default server, where
/// there is one, is renamed and loses the bot's membership.
pub fn delete_bot(db: &mut Database, user: &User, target: &String) -> (r: Result<(), Error>)
    requires
        old(db).wf(),
    ensures
        final(db).wf(),
        !old(db).has_bot(target@) || old(db).bot(target@).owner@ != user.id@ ==> r == Err::<
            (),
            Error,
        >(Error::NotFound) && *final(db) == *old(db),
        old(db).has_bot(target@) && old(db).bot(target@).owner@ == user.id@ ==> {
            let b0 = old(db).bot(target@);
            &&& !final(db).has_bot(target@)
            &&& final(db).has_user(target@)
            &&& final(db).user(target@).spec_is_deleted()
            &&& final(db).channels == old(db).channels
            &&& exists|i: int|
                0 <= i < old(db).bots@.len() && (#[trigger] old(db).bots@[i]).id@ == target@
                    && final(db).bots@ == old(db).bots@.remove(i)
            &&& final(db).users@.len() == old(db).users@.len()
            &&& forall|j: int|
                0 <= j < old(db).users@.len() ==> {
                    let u = #[trigger] old(db).users@[j];
                    final(db).users@[j] == if u.id@ == target@ {
                        User { flags: u.flags | crate::model::USER_FLAG_DELETED, ..u }
                    } else {
                        u
                    }
                }
            &&& forall|o: Seq<char>|
                #[trigger] final(db).bot_count(o) == old(db).bot_count(o) - if b0.owner@ == o {
                    1int
                } else {
                    0int
                }
            &&& b0.default_server is None ==> r is Ok
            &&& b0.default_server matches Some(sid) ==> (old(db).has_server(sid@) ==> {
                &&& r is Ok
                &&& final(db).has_server(sid@)
                &&& final(db).server(sid@).name@ == old(db).server(sid@).name@
                    + crate::identity::deleted_marker()
                &&& final(db).server(sid@).channels == old(db).server(sid@).channels
                &&& !final(db).has_member(sid@, target@)
                &&& forall|j: int|
                    0 <= j < old(db).servers@.len() && (#[trigger] old(db).servers@[j]).id@ != sid@
                        ==> final(db).servers@[j] == old(db).servers@[j]
            }) && (!old(db).has_server(sid@) ==> r == Err::<(), Error>(Error::InternalError))
        },
{
    let bot = db.fetch_bot(target)?;
    if bot.owner != user.id {
        return Err(Error::NotFound);
    }
    proof {
        let k = choose|k: int|
            0 <= k < db.bots@.len() && (#[trigger] db.bots@[k]).id@ == target@;
        assert(db.has_user(db.bots@[k].id@));
    }
    bot.delete(db)
}

/// `bi` is the bot information that creation records for `info`, owned by
/// `owner_id`.
pub open spec fn recorded_information(bi: BotInformation, owner_id: String, info: DataCreateBot) -> bool {
    &&& bi.owner_id == owner_id
    &&& bi.welcome == info.welcome
    &&& info.bot_type != Some(BotType::PromptBot) ==> bi.model is None
    &&& info.bot_type == Some(BotType::PromptBot) ==> (bi.model matches Some(m) && {
        &&& m.model_name@ == default_model_name()
        &&& info.model matches Some(g) ==> m.prompts == g.prompts && m.temperature_bits
            == g.temperature_bits
        &&& info.model is None ==> m.prompts.system_prompt@ == Seq::<char>::empty()
            && m.prompts.role_requirements@ == Seq::<char>::empty() && m.temperature_bits == 0
    })
}

/// The bot information recorded on a new bot's user: its owner and welcome
/// message, and for a prompt bot the model settings given (or the default
/// ones), always under the default model name.
pub fn bot_information_for(owner_id: &String, info: &DataCreateBot) -> (r: BotInformation)
    ensures
        recorded_information(r, *owner_id, *info),
        info.spec_valid() ==> r.spec_valid(),
{
    let prompt = match info.bot_type {
        Some(BotType::PromptBot) => true,
        _ => false,
    };
    let model = if prompt {
        let given = match &info.model {
            Some(m) => m.copy(),
            None => BotModel::default_model(),
        };
        let default_model = BotModel::default_model();
        Some(BotModel { model_name: default_model.model_name, ..given })
    } else {
        None
    };
    BotInformation {
        owner_id: owner_id.clone(),
        model,
        welcome: copy_opt_string(&info.welcome),
    }
}

/// `after` holds one new bot identity more than `before`, and possibly part of
/// its workspace: what a failed provisioning leaves.
pub open spec fn kept_new_pair(before: Database, after: Database) -> bool {
    exists|u: User, b: Bot|
        u.id@ == b.id@ && !before.has_user(b.id@) && after.users@ == before.users@.push(u)
            && #[trigger] after.bots@ == before.bots@.push(b)
}

/// Creates a bot with its default workspace on behalf of `user`.
///
/// Fails, changing nothing, with `IsBot` where the user is a bot; else with
/// `ValidationFailed` on invalid data; else with `QuotaExceeded` where the
/// user already holds the maximum number of bots. Otherwise the bot identity
/// is created and its workspace provisioned; a drawn id that is already taken
/// fails that step with `Conflict`, and the steps before it stay in place:
/// the new bot and its user remain, without a complete workspace.
pub fn create_bot(db: &mut Database, user: &User, info: DataCreateBot, default_permissions: i64) -> (r:
    Result<Bot, Error>)
    requires
        old(db).wf(),
    ensures
        final(db).wf(),
        user.bot is Some ==> r == Err::<Bot, Error>(Error::IsBot) && *final(db) == *old(db),
        user.bot is None && !info.spec_valid() ==> r == Err::<Bot, Error>(Error::ValidationFailed)
            && *final(db) == *old(db),
        user.bot is None && info.spec_valid() && old(db).bot_count(user.id@) >= MAX_BOT_COUNT
            ==> r == Err::<Bot, Error>(Error::QuotaExceeded) && *final(db) == *old(db),
        user.bot is None && info.spec_valid() && old(db).bot_count(user.id@) < MAX_BOT_COUNT ==> r
            is Ok || r == Err::<Bot, Error>(Error::Conflict),
        r == Err::<Bot, Error>(Error::Conflict) ==> *final(db) == *old(db) || kept_new_pair(
            *old(db),
            *final(db),
        ),
        r matches Ok(b) ==> {
            &&& b.owner@ == user.id@
            &&& b.token@.len() == TOKEN_LEN
            &&& b.bot_type == Some(
                if info.bot_type == Some(BotType::PromptBot) {
                    BotType::PromptBot
                } else {
                    BotType::CustomBot
                },
            )
            &&& final(db).has_bot(b.id@)
            &&& final(db).bot(b.id@)@ == b@
            &&& final(db).has_user(b.id@)
            &&& final(db).user(b.id@).username@ == info.name@
            &&& (final(db).user(b.id@).bot matches Some(bi) && recorded_information(bi, user.id, info))
            &&& b.server_invite is Some
            &&& b.default_server is Some
        },
        r matches Ok(b) ==> {
            let sid = b.default_server.unwrap()@;
            let code = b.server_invite.unwrap()@;
            let server = final(db).server(sid);
            &&& final(db).has_server(sid)
            &&& server.owner@ == user.id@
            &&& server.name@ == info.name@ + home_suffix()
            &&& server.channels@.len() == DEFAULT_CHANNEL_COUNT
            &&& forall|k: int|
                0 <= k < DEFAULT_CHANNEL_COUNT ==> {
                    let cid = (#[trigger] server.channels@[k])@;
                    &&& final(db).has_channel(cid)
                    &&& final(db).channel(cid).server@ == sid
                    &&& final(db).channel(cid).name@ == default_channel_names()[k]
                }
            &&& final(db).has_invite(code)
            &&& final(db).invite(code).server@ == sid
            &&& final(db).invite(code).channel@ == server.channels@[0]@
            &&& final(db).has_member(sid, user.id@)
            &&& final(db).has_member(sid, b.id@)
        },
{
    if user.bot.is_some() {
        return Err(Error::IsBot);
    }
    info.validate()?;
    let bot_information = bot_information_for(&user.id, &info);
    let bot_type = match info.bot_type {
        Some(BotType::PromptBot) => BotType::PromptBot,
        _ => BotType::CustomBot,
    };
    let partial = PartialBot {
        id: None,
        owner: None,
        token: None,
        public: None,
        bot_type: Some(bot_type),
        analytics: None,
        discoverable: None,
        interactions_url: None,
        terms_of_service_url: None,
        privacy_policy_url: None,
        flags: None,
        server_invite: None,
        default_server: None,
    };
    let (mut bot, bot_user) = Bot::create_with_user(
        db,
        info.name,
        user,
        Some(partial),
        bot_information,
    )?;
    proof {
        lemma_pushed_is_found(*old(db), *db, bot_user, bot);
    }
    let ghost created = *db;
    let ghost new_user = bot_user;
    let ghost new_bot = bot;
    let provisioned = Bot::prepare_default_channel_for_bot(
        db,
        &mut bot,
        &bot_user,
        user,
        default_permissions,
    );
    match provisioned {
        Ok(()) => Ok(bot),
        Err(e) => {
            proof {
                assert(db.users@ == old(db).users@.push(new_user));
                assert(db.bots@ == old(db).bots@.push(new_bot));
                assert(kept_new_pair(*old(db), *db));
            }
            Err(e)
        },
    }
}

} // verus!
