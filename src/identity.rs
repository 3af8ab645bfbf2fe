//! The bot identity lifecycle: creating the paired user and bot records,
//! editing and rotating a bot's fields, and deleting the pair.

use vstd::prelude::*;
use vstd::string::*;
use crate::external::{is_url_safe, is_url_safe_char, new_ulid, random_code};
use crate::model::{
    contains_field, Bot, BotInformation, BotView, Error, FieldsBot, PartialBot, PartialBotView,
    User,
};
use crate::store::{
    lemma_bot_lookup, lemma_pushed_is_found, lemma_select_remove, lemma_server_lookup, owned_by,
    select_bots, Database,
};
use crate::validation::{valid_username, validate_username};

verus! {

/// Most bots that one owner may hold.
pub const MAX_BOT_COUNT: usize = 10;

/// Length of a bot token, in characters.
pub const TOKEN_LEN: usize = 64;

/// A freshly created bot: the given id, owner and token, nothing else set.
pub open spec fn initial_bot(id: Seq<char>, owner: Seq<char>, token: Seq<char>) -> BotView {
    BotView {
        id,
        owner,
        token,
        public: false,
        bot_type: None,
        analytics: false,
        discoverable: false,
        interactions_url: Seq::empty(),
        terms_of_service_url: Seq::empty(),
        privacy_policy_url: Seq::empty(),
        flags: None,
        server_invite: None,
        default_server: None,
    }
}

/// The fields that creation merges onto a fresh bot.
pub open spec fn options_view(data: Option<PartialBot>) -> PartialBotView {
    match data {
        Some(p) => p@,
        None => PartialBot::spec_empty()@,
    }
}

/// Creation options may not choose the bot's id or owner, nor its workspace
/// fields: a new bot has no default workspace yet.
pub open spec fn create_options_ok(data: Option<PartialBot>) -> bool {
    data matches Some(p) ==> p.id is None && p.owner is None && p.server_invite is None
        && p.default_server is None
}

/// A well-formed store without users holds no bots, so nobody owns one.
pub proof fn lemma_no_users_no_bots(db: Database, owner: Seq<char>)
    requires
        db.wf(),
        db.users@.len() == 0,
    ensures
        db.bots@.len() == 0,
        db.bot_count(owner) == 0,
{
    if db.bots@.len() > 0 {
        assert(db.has_user(db.bots@[0].id@));
    }
    assert(db.bots@ =~= Seq::<Bot>::empty());
}

/// One more bot of the owner adds one to the owner's count.
pub proof fn lemma_count_push(s: Seq<Bot>, b: Bot, owner: Seq<char>)
    ensures
        select_bots(s.push(b), owned_by(owner)).len() == select_bots(s, owned_by(owner)).len()
            + if b.owner@ == owner { 1int } else { 0int },
{
    assert(s.push(b).drop_last() =~= s);
}

impl Bot {
    /// Inserts a new bot identity under an id and token already drawn: the bot
    /// user, then the bot record with the options merged onto a fresh bot.
    /// Fails with `ValidationFailed` where the options choose an id, an owner
    /// or a workspace field,
    /// and with `Conflict` where the id is taken; in both cases the store is
    /// unchanged.
    pub fn register(
        db: &mut Database,
        id: String,
        token: String,
        username: String,
        owner_id: &String,
        data: Option<PartialBot>,
        info: BotInformation,
    ) -> (r: Result<(Bot, User), Error>)
        requires
            old(db).wf(),
        ensures
            final(db).wf(),
            !create_options_ok(data) ==> r == Err::<(Bot, User), Error>(Error::ValidationFailed),
            create_options_ok(data) && old(db).has_user(id@) ==> r == Err::<(Bot, User), Error>(
                Error::Conflict,
            ),
            r is Ok <==> create_options_ok(data) && !old(db).has_user(id@),
            r is Err ==> *final(db) == *old(db),
            r matches Ok((b, u)) ==> {
                &&& u == User::new_spec(id, username, Some(info))
                &&& b@ == initial_bot(id@, owner_id@, token@).applied(options_view(data))
                &&& b.id@ == u.id@
                &&& b.owner@ == owner_id@
                &&& final(db).users@ == old(db).users@.push(u)
                &&& final(db).bots@ == old(db).bots@.push(b)
                &&& *final(db) == (Database {
                    users: final(db).users,
                    bots: final(db).bots,
                    ..*old(db)
                })
                &&& final(db).bot_count(owner_id@) == old(db).bot_count(owner_id@) + 1
            },
    {
        if let Some(p) = &data {
            if p.id.is_some() || p.owner.is_some() || p.server_invite.is_some()
                || p.default_server.is_some() {
                return Err(Error::ValidationFailed);
            }
        }
        let user = User::new(id.clone(), username, Some(info));
        db.insert_user(user.copy())?;
        let ghost mid = *db;
        let mut bot = Bot {
            id,
            owner: owner_id.clone(),
            token,
            public: false,
            bot_type: None,
            analytics: false,
            discoverable: false,
            interactions_url: String::new(),
            terms_of_service_url: String::new(),
            privacy_policy_url: String::new(),
            flags: None,
            server_invite: None,
            default_server: None,
        };
        if let Some(p) = data {
            bot.apply_options(p);
        }
        proof {
            if mid.has_bot(bot.id@) {
                let k = choose|k: int|
                    0 <= k < mid.bots@.len() && (#[trigger] mid.bots@[k]).id@ == bot.id@;
                assert(old(db).bots@[k] == mid.bots@[k]);
                assert(old(db).has_user(old(db).bots@[k].id@));
            }
            assert(mid.users@[mid.users@.len() - 1] == user);
            lemma_count_push(mid.bots@, bot, owner_id@);
        }
        match db.insert_bot(bot.copy()) {
            Ok(()) => Ok((bot, user)),
            Err(e) => Err(e),
        }
    }
}

impl Bot {
    /// Creates a bot identity owned by `owner`: a bot user named `username`
    /// that records `info` (with `owner` as its owner), and a bot record with
    /// the given options merged onto a fresh bot, a new sortable id shared by
    /// both records and a new random token.
    ///
    /// Fails, leaving the store unchanged, with `IsBot` where the owner is a
    /// bot; else with `ValidationFailed` where the username, the model
    /// settings or the options are invalid; else with `QuotaExceeded` where
    /// the owner already holds the maximum number of bots; else with
    /// `Conflict` only where the drawn id is already taken.
    pub fn create_with_user(
        db: &mut Database,
        username: String,
        owner: &User,
        data: Option<PartialBot>,
        info: BotInformation,
    ) -> (r: Result<(Bot, User), Error>)
        requires
            old(db).wf(),
        ensures
            final(db).wf(),
            r is Err ==> *final(db) == *old(db),
            owner.bot is Some ==> r == Err::<(Bot, User), Error>(Error::IsBot),
            owner.bot is None && !(valid_username(username@) && info.spec_valid()
                && create_options_ok(data)) ==> r == Err::<(Bot, User), Error>(
                Error::ValidationFailed,
            ),
            owner.bot is None && valid_username(username@) && info.spec_valid()
                && create_options_ok(data) && old(db).bot_count(owner.id@) >= MAX_BOT_COUNT
                ==> r == Err::<(Bot, User), Error>(Error::QuotaExceeded),
            owner.bot is None && valid_username(username@) && info.spec_valid()
                && create_options_ok(data) && old(db).bot_count(owner.id@) < MAX_BOT_COUNT
                ==> r is Ok || r == Err::<(Bot, User), Error>(Error::Conflict),
            old(db).users@.len() == 0 && owner.bot is None && valid_username(username@)
                && info.spec_valid() && create_options_ok(data) ==> r is Ok,
            r matches Ok((b, u)) ==> {
                &&& u.id@ == b.id@
                &&& b.server_invite is None && b.default_server is None
                &&& u.username@ == username@
                &&& u.flags == 0
                &&& u.bot == Some(BotInformation { owner_id: owner.id, ..info })
                &&& b.owner@ == owner.id@
                &&& b@ == initial_bot(b.id@, owner.id@, b.token@).applied(options_view(data))
                &&& options_view(data).token is None ==> b.token@.len() == TOKEN_LEN
                    && is_url_safe(b.token@)
                &&& !old(db).has_user(b.id@)
                &&& final(db).users@ == old(db).users@.push(u)
                &&& final(db).bots@ == old(db).bots@.push(b)
                &&& *final(db) == (Database {
                    users: final(db).users,
                    bots: final(db).bots,
                    ..*old(db)
                })
                &&& final(db).bot_count(owner.id@) == old(db).bot_count(owner.id@) + 1
            },
    {
        if owner.bot.is_some() {
            return Err(Error::IsBot);
        }
        validate_username(&username)?;
        info.validate()?;
        if let Some(p) = &data {
            if p.id.is_some() || p.owner.is_some() || p.server_invite.is_some()
                || p.default_server.is_some() {
                return Err(Error::ValidationFailed);
            }
        }
        if db.get_number_of_bots_by_user(&owner.id) >= MAX_BOT_COUNT {
            proof {
                if db.users@.len() == 0 {
                    lemma_no_users_no_bots(*db, owner.id@);
                }
            }
            return Err(Error::QuotaExceeded);
        }
        let id = new_ulid();
        let token = random_code(TOKEN_LEN);
        let mut info = info;
        info.owner_id = owner.id.clone();
        Bot::register(db, id, token, username, &owner.id, data, info)
    }

    /// Creates a bot identity owned by `owner`, whose bot user records only
    /// its owner; see `create_with_user` for the failures.
    pub fn create(db: &mut Database, username: String, owner: &User, data: Option<PartialBot>) -> (r:
        Result<Bot, Error>)
        requires
            old(db).wf(),
        ensures
            final(db).wf(),
            r is Err ==> *final(db) == *old(db),
            owner.bot is Some ==> r == Err::<Bot, Error>(Error::IsBot),
            owner.bot is None && !(valid_username(username@) && create_options_ok(data)) ==> r
                == Err::<Bot, Error>(Error::ValidationFailed),
            owner.bot is None && valid_username(username@) && create_options_ok(data) && old(db).bot_count(owner.id@) >= MAX_BOT_COUNT ==> r == Err::<Bot, Error>(
                Error::QuotaExceeded,
            ),
            owner.bot is None && valid_username(username@) && create_options_ok(data) && old(db).bot_count(owner.id@) < MAX_BOT_COUNT ==> r is Ok || r == Err::<Bot, Error>(
                Error::Conflict,
            ),
            old(db).users@.len() == 0 && owner.bot is None && valid_username(username@)
                && create_options_ok(data) ==> r is Ok,
            r matches Ok(b) ==> {
                &&& b.owner@ == owner.id@
                &&& b.server_invite is None && b.default_server is None
                &&& b@ == initial_bot(b.id@, owner.id@, b.token@).applied(options_view(data))
                &&& options_view(data).token is None ==> b.token@.len() == TOKEN_LEN
                    && is_url_safe(b.token@)
                &&& final(db).has_user(b.id@)
                &&& final(db).user(b.id@).username@ == username@
                &&& final(db).user(b.id@).bot == Some(
                    BotInformation { owner_id: owner.id, model: None, welcome: None },
                )
                &&& final(db).has_bot(b.id@)
                &&& final(db).bot(b.id@) == b
                &&& !old(db).has_user(b.id@)
                &&& final(db).users@ == old(db).users@.push(final(db).user(b.id@))
                &&& final(db).bots@ == old(db).bots@.push(b)
                &&& final(db).bot_count(owner.id@) == old(db).bot_count(owner.id@) + 1
            },
    {
        let info = BotInformation { owner_id: owner.id.clone(), model: None, welcome: None };
        match Bot::create_with_user(db, username, owner, data, info) {
            Ok((bot, user)) => {
                proof {
                    lemma_pushed_is_found(*old(db), *db, user, bot);
                }
                Ok(bot)
            },
            Err(e) => Err(e),
        }
    }
}

/// The fields an update writes: the given ones, with the new token where the
/// token is removed.
pub open spec fn rotated(p: PartialBotView, remove: Seq<FieldsBot>, token: Seq<char>) -> PartialBotView {
    if remove.contains(FieldsBot::Token) {
        PartialBotView { token: Some(token), ..p }
    } else {
        p
    }
}

/// A new random token that differs from `old`: a fresh draw, whose first
/// character is replaced in the unlikely case that the draw repeats `old`.
pub fn fresh_token(old: &String) -> (r: String)
    ensures
        r@.len() == TOKEN_LEN,
        is_url_safe(r@),
        r@ != old@,
{
    let t = random_code(TOKEN_LEN);
    if t != *old {
        return t;
    }
    let first = t.as_str().get_char(0);
    let mut r = if first == 'a' {
        String::from_str("b")
    } else {
        String::from_str("a")
    };
    proof {
        reveal_strlit("a");
        reveal_strlit("b");
    }
    let rest = t.as_str().substring_char(1, TOKEN_LEN);
    r.append(rest);
    proof {
        assert(r@[0] != t@[0]);
        assert forall|i: int| 0 <= i < r@.len() implies is_url_safe_char(#[trigger] r@[i]) by {
            if i > 0 {
                assert(r@[i] == t@[i]);
            }
        }
    }
    r
}

impl Bot {
    /// Removes a field: removing the token rotates it to a new random secret,
    /// removing the interactions URL clears it.
    pub fn remove_field(&mut self, field: &FieldsBot)
        ensures
            *field == FieldsBot::Token ==> final(self)@ == (BotView {
                token: final(self).token@,
                ..old(self)@
            }) && final(self).token@.len() == TOKEN_LEN && is_url_safe(final(self).token@)
                && final(self).token@ != old(self).token@,
            *field == FieldsBot::InteractionsURL ==> final(self)@ == (BotView {
                interactions_url: Seq::empty(),
                ..old(self)@
            }),
    {
        match field {
            FieldsBot::Token => {
                self.token = fresh_token(&self.token);
            },
            FieldsBot::InteractionsURL => {
                self.interactions_url = String::new();
            },
        }
    }

    /// Updates this bot and its stored record: the removed fields are applied
    /// first (the token is rotated to a new random secret, never cleared; the
    /// interactions URL is cleared), then the given fields replace the bot's
    /// own. Fails with `ValidationFailed`, changing nothing, where the update
    /// gives an id.
    ///
    /// This is the bare write: it does not check that a bot made or kept
    /// public or discoverable has a unique name. That guard runs before the
    /// write in `operations::edit_bot`, the edit that owners make.
    pub fn update(&mut self, db: &mut Database, partial: PartialBot, remove: Vec<FieldsBot>) -> (r:
        Result<(), Error>)
        requires
            old(db).wf(),
        ensures
            final(db).wf(),
            r is Ok <==> partial.id is None,
            r is Err ==> r == Err::<(), Error>(Error::ValidationFailed) && *final(db) == *old(db)
                && *final(self) == *old(self),
            r is Ok ==> {
                let p2 = rotated(partial@, remove@, final(self).token@);
                &&& final(self)@ == old(self)@.cleared(remove@).applied(p2)
                &&& *final(db) == (Database { bots: final(db).bots, ..*old(db) })
                &&& final(db).bots@.len() == old(db).bots@.len()
                &&& forall|j: int|
                    0 <= j < old(db).bots@.len() ==> {
                        let b = #[trigger] old(db).bots@[j];
                        if b.id@ == old(self).id@ {
                            final(db).bots@[j]@ == b@.cleared(remove@).applied(p2)
                        } else {
                            final(db).bots@[j] == b
                        }
                    }
                &&& old(db).has_bot(old(self).id@) ==> final(db).has_bot(old(self).id@) && final(db).bot(old(self).id@)@ == old(db).bot(old(self).id@)@.cleared(remove@).applied(p2)
            },
            r is Ok && remove@.contains(FieldsBot::Token) ==> final(self).token@.len() == TOKEN_LEN
                && is_url_safe(final(self).token@) && final(self).token@ != old(self).token@ && (old(db).has_bot(old(self).id@) ==> final(db).bot(old(self).id@).token@ == final(self).token@),
            r is Ok && partial.server_invite is Some ==> final(self).server_invite
                == partial.server_invite,
            r is Ok && partial.default_server is Some ==> final(self).default_server
                == partial.default_server,
            r is Ok && remove@.contains(FieldsBot::InteractionsURL) && partial.interactions_url is None
                ==> final(self).interactions_url@ == Seq::<char>::empty() && (old(db).has_bot(old(self).id@) ==> final(db).bot(old(self).id@).interactions_url@ == Seq::<char>::empty()),
    {
        if partial.id.is_some() {
            return Err(Error::ValidationFailed);
        }
        let mut partial = partial;
        let rotate = contains_field(&remove, FieldsBot::Token);
        if rotate {
            partial.token = Some(fresh_token(&self.token));
        }
        if contains_field(&remove, FieldsBot::InteractionsURL) {
            self.remove_field(&FieldsBot::InteractionsURL);
        }
        assert(self@ == old(self)@.cleared(remove@));
        let ghost before = *db;
        let ghost id = self.id@;
        let stored = db.update_bot(&self.id, &partial, &remove);
        self.apply_options(partial);
        proof {
            let p2 = rotated(partial@, remove@, self.token@);
            assert(partial@ == p2);
            if before.has_bot(id) {
                let k = choose|k: int|
                    0 <= k < before.bots@.len() && (#[trigger] before.bots@[k]).id@ == id;
                lemma_bot_lookup(before, k);
                lemma_bot_lookup(*db, k);
            }
        }
        stored
    }
}

/// The bot record is gone and its user is already marked deleted: what an
/// earlier deletion leaves.
pub open spec fn already_deleted(db: Database, id: Seq<char>) -> bool {
    db.has_user(id) && db.user(id).spec_is_deleted() && !db.has_bot(id)
}

/// A deletion of the bot with this id goes ahead.
pub open spec fn deletes(db: Database, id: Seq<char>) -> bool {
    db.has_user(id) && !already_deleted(db, id)
}

/// Marker appended to the name of a deleted bot's default server.
pub open spec fn deleted_marker() -> Seq<char> {
    " (deleted)"@
}

impl Bot {
    /// Deletes this bot identity, in a fixed order: the bot user is marked
    /// deleted (the record stays, so that references to the id still resolve),
    /// then the bot record is removed, then, where the bot has a default
    /// server, that server is renamed with a deletion marker and the bot's
    /// membership of it ends; the server and its channels stay.
    ///
    /// Fails with `NotFound`, changing nothing, where the bot user is absent;
    /// fails with `InternalError` where the default server is absent, after
    /// the first two steps took effect.
    pub fn delete(&self, db: &mut Database) -> (r: Result<(), Error>)
        requires
            old(db).wf(),
        ensures
            final(db).wf(),
            !old(db).has_user(self.id@) ==> r == Err::<(), Error>(Error::NotFound) && *final(db)
                == *old(db),
            already_deleted(*old(db), self.id@) ==> r == Err::<(), Error>(Error::NotFound)
                && *final(db) == *old(db),
            deletes(*old(db), self.id@) ==> {
                &&& final(db).has_user(self.id@)
                &&& final(db).user(self.id@) == (User {
                    flags: old(db).user(self.id@).flags | crate::model::USER_FLAG_DELETED,
                    ..old(db).user(self.id@)
                })
                &&& final(db).user(self.id@).spec_is_deleted()
                &&& final(db).users@.len() == old(db).users@.len()
                &&& forall|j: int|
                    0 <= j < old(db).users@.len() ==> {
                        let u = #[trigger] old(db).users@[j];
                        final(db).users@[j] == if u.id@ == self.id@ {
                            User { flags: u.flags | crate::model::USER_FLAG_DELETED, ..u }
                        } else {
                            u
                        }
                    }
                &&& !final(db).has_bot(self.id@)
                &&& !old(db).has_bot(self.id@) ==> final(db).bots == old(db).bots
                &&& old(db).has_bot(self.id@) ==> exists|i: int|
                    0 <= i < old(db).bots@.len() && (#[trigger] old(db).bots@[i]).id@ == self.id@
                        && final(db).bots@ == old(db).bots@.remove(i)
                &&& old(db).has_bot(self.id@) ==> forall|o: Seq<char>|
                    #[trigger] final(db).bot_count(o) == old(db).bot_count(o) - if old(db).bot(
                        self.id@,
                    ).owner@ == o {
                        1int
                    } else {
                        0int
                    }
                &&& final(db).channels == old(db).channels
                &&& final(db).invites == old(db).invites
                &&& (self.default_server is None ==> r is Ok && final(db).servers == old(db).servers
                    && final(db).members == old(db).members)
            },
            deletes(*old(db), self.id@) && self.default_server is Some && !old(db).has_server(
                self.default_server.unwrap()@,
            ) ==> r == Err::<(), Error>(Error::InternalError),
            deletes(*old(db), self.id@) && self.default_server is Some && old(db).has_server(
                self.default_server.unwrap()@,
            ) ==> {
                let sid = self.default_server.unwrap()@;
                &&& r is Ok
                &&& final(db).has_server(sid)
                &&& final(db).server(sid).name@ == old(db).server(sid).name@ + deleted_marker()
                &&& final(db).server(sid).channels == old(db).server(sid).channels
                &&& final(db).server(sid).owner == old(db).server(sid).owner
                &&& final(db).servers@.len() == old(db).servers@.len()
                &&& forall|j: int|
                    0 <= j < old(db).servers@.len() && (#[trigger] old(db).servers@[j]).id@ != sid
                        ==> final(db).servers@[j] == old(db).servers@[j]
                &&& !final(db).has_member(sid, self.id@)
                &&& forall|s: Seq<char>, u: Seq<char>|
                    !(s == sid && u == self.id@) ==> (#[trigger] final(db).has_member(s, u)
                        <==> old(db).has_member(s, u))
            },
    {
        let user = db.fetch_user(&self.id)?;
        if user.is_deleted() && db.fetch_bot(&self.id).is_err() {
            return Err(Error::NotFound);
        }
        let ghost start = *db;
        proof {
            if start.has_bot(self.id@) {
                let i = choose|i: int|
                    0 <= i < start.bots@.len() && (#[trigger] start.bots@[i]).id@ == self.id@;
                lemma_bot_lookup(start, i);
                assert forall|o: Seq<char>|
                    select_bots(start.bots@.remove(i), owned_by(o)).len() == start.bot_count(o)
                        - if start.bot(self.id@).owner@ == o {
                        1int
                    } else {
                        0int
                    } by {
                    lemma_select_remove(start.bots@, i, owned_by(o));
                }
            }
        }
        db.mark_user_deleted(&self.id)?;
        db.delete_bot(&self.id)?;
        proof {
            let k = choose|k: int|
                0 <= k < old(db).users@.len() && (#[trigger] old(db).users@[k]).id@ == self.id@;
            assert(old(db).user(self.id@) == old(db).users@[k]);
            let m = choose|m: int|
                0 <= m < db.users@.len() && (#[trigger] db.users@[m]).id@ == self.id@;
            assert(db.users@[k].id@ == self.id@);
            assert(m == k);
            assert(db.servers == old(db).servers);
            assert(db.members == old(db).members);
            assert(db.channels == old(db).channels);
        }
        if let Some(default_server) = &self.default_server {
            let server = match db.fetch_server(default_server) {
                Ok(s) => s,
                Err(_) => {
                    return Err(Error::InternalError);
                },
            };
            let ghost before = *db;
            let mut name = server.name.clone();
            name.append(" (deleted)");
            db.rename_server(default_server, name)?;
            proof {
                let k = choose|k: int|
                    0 <= k < before.servers@.len() && (#[trigger] before.servers@[k]).id@
                        == default_server@;
                lemma_server_lookup(before, k);
                lemma_server_lookup(*db, k);
            }
            let ghost renamed = *db;
            db.delete_member(default_server, &self.id)?;
            proof {
                let sid = default_server@;
                assert(db.servers == renamed.servers);
                assert(renamed.members == old(db).members);
                assert forall|s: Seq<char>, u: Seq<char>|
                    !(s == sid && u == self.id@) implies (#[trigger] db.has_member(s, u)
                        <==> old(db).has_member(s, u)) by {
                    assert(renamed.has_member(s, u) == old(db).has_member(s, u));
                }
            }
        }
        Ok(())
    }
}

} // verus!
